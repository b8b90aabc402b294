use fss::cli::{decimal_string, parse_group_by, FormatOption, GroupBy};

#[test]
fn group_by_from_prefixes() {
    assert_eq!(parse_group_by("extension"), Ok(GroupBy::Extension));
    assert_eq!(parse_group_by("e"), Ok(GroupBy::Extension));
    assert_eq!(parse_group_by("T"), Ok(GroupBy::Type));
    assert_eq!(parse_group_by("file"), Ok(GroupBy::FileName));
    assert_eq!(parse_group_by("DIR"), Ok(GroupBy::Directory));
    assert_eq!(parse_group_by("d"), Ok(GroupBy::Directory));
    assert_eq!(parse_group_by(""), Ok(GroupBy::Extension));
}

#[test]
fn group_by_unknown_word() {
    let e = parse_group_by("size").unwrap_err();
    assert_eq!(e, "Group does is not one of [extension, type, filename, directory]");
    assert!(parse_group_by("extensions").is_err());
}

#[test]
fn format_bytes_is_plain_digits() {
    assert_eq!(FormatOption::Bytes.format(0), "0");
    assert_eq!(FormatOption::Bytes.format(1234), "1234");
    assert_eq!(FormatOption::Bytes.format(u64::MAX), "18446744073709551615");
}

#[test]
fn format_decimal_and_binary_units() {
    assert_eq!(FormatOption::Decimal.format(1000), "1 kB");
    assert_eq!(FormatOption::Binary.format(1024), "1 KiB");
    assert_ne!(FormatOption::Decimal.format(1000), "1000");
}

#[test]
fn format_auto_is_decimal_or_bytes() {
    let r = FormatOption::Auto.format(2000);
    assert!(r == "2 kB" || r == "2000");
}

#[test]
fn decimal_string_digits() {
    assert_eq!(decimal_string(0), "0");
    assert_eq!(decimal_string(9), "9");
    assert_eq!(decimal_string(10), "10");
    assert_eq!(decimal_string(300), "300");
    assert_eq!(decimal_string(u64::MAX), "18446744073709551615");
}
