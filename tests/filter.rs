use fss::filter::{is_within_all, shown_groups, SizeFilter};

#[test]
fn parse_signs() {
    assert_eq!(SizeFilter::from_string("+150"), Ok(SizeFilter::AtLeast(150)));
    assert_eq!(SizeFilter::from_string("-150"), Ok(SizeFilter::AtMost(150)));
    assert_eq!(SizeFilter::from_string("150"), Ok(SizeFilter::Exactly(150)));
}

#[test]
fn parse_units() {
    assert_eq!(SizeFilter::from_string("+500k"), Ok(SizeFilter::AtLeast(500_000)));
    assert_eq!(SizeFilter::from_string("2M"), Ok(SizeFilter::Exactly(2_000_000)));
    assert_eq!(SizeFilter::from_string("-1g"), Ok(SizeFilter::AtMost(1_000_000_000)));
    assert_eq!(SizeFilter::from_string("1t"), Ok(SizeFilter::Exactly(1_000_000_000_000)));
    assert_eq!(SizeFilter::from_string("3Ki"), Ok(SizeFilter::Exactly(3072)));
    assert_eq!(SizeFilter::from_string("1mi"), Ok(SizeFilter::Exactly(1_048_576)));
    assert_eq!(SizeFilter::from_string("1GI"), Ok(SizeFilter::Exactly(1_073_741_824)));
    assert_eq!(SizeFilter::from_string("2ti"), Ok(SizeFilter::Exactly(2_199_023_255_552)));
    assert_eq!(SizeFilter::from_string("7b"), Ok(SizeFilter::Exactly(7)));
}

#[test]
fn parse_rejects_malformed() {
    assert!(SizeFilter::from_string("").is_err());
    assert!(SizeFilter::from_string("+").is_err());
    assert!(SizeFilter::from_string("k").is_err());
    assert!(SizeFilter::from_string("5kb").is_err());
    assert!(SizeFilter::from_string("5x").is_err());
    assert!(SizeFilter::from_string("1.5k").is_err());
    assert!(SizeFilter::from_string("+-5").is_err());
}

#[test]
fn parse_largest_and_overflow() {
    assert_eq!(
        SizeFilter::from_string("18446744073709551615"),
        Ok(SizeFilter::Exactly(u64::MAX))
    );
    assert!(SizeFilter::from_string("18446744073709551616").is_err());
    assert!(SizeFilter::from_string("20000000t").is_err());
    assert!(SizeFilter::from_string("99999999999999999999999k").is_err());
}

#[test]
fn within_limits() {
    assert!(SizeFilter::AtLeast(150).is_within(150));
    assert!(!SizeFilter::AtLeast(150).is_within(149));
    assert!(SizeFilter::AtMost(150).is_within(150));
    assert!(!SizeFilter::AtMost(150).is_within(151));
    assert!(SizeFilter::Exactly(7).is_within(7));
    assert!(!SizeFilter::Exactly(7).is_within(8));
    assert!(is_within_all(&vec![], 0));
    assert!(is_within_all(&vec![SizeFilter::AtLeast(1), SizeFilter::AtMost(3)], 2));
    assert!(!is_within_all(&vec![SizeFilter::AtLeast(1), SizeFilter::AtMost(3)], 4));
}

#[test]
fn filter_keeps_only_large_groups() {
    let rows = vec![("txt".to_string(), 100u64), ("jpg".to_string(), 200u64)];
    let shown = shown_groups(&rows, &vec![SizeFilter::AtLeast(150)]);
    assert_eq!(shown, vec![("jpg".to_string(), 200u64)]);
    let all = shown_groups(&rows, &vec![]);
    assert_eq!(all, rows);
}
