use fss::report::sort_by_size;
use fss::walk::Error;

#[test]
fn rows_sorted_smallest_first() {
    let rows = vec![
        ("b".to_string(), 30u64),
        ("a".to_string(), 10u64),
        ("c".to_string(), 20u64),
        ("d".to_string(), 10u64),
    ];
    let sorted = sort_by_size(rows);
    let sizes: Vec<u64> = sorted.iter().map(|(_, v)| *v).collect();
    assert_eq!(sizes, vec![10, 10, 20, 30]);
    assert_eq!(sorted[2].0, "c");
    assert_eq!(sorted[3].0, "b");
    let mut names: Vec<String> = sorted.iter().map(|(k, _)| k.clone()).collect();
    names.sort();
    assert_eq!(names, vec!["a", "b", "c", "d"]);
}

#[test]
fn sort_empty_and_single() {
    assert!(sort_by_size(vec![]).is_empty());
    assert_eq!(sort_by_size(vec![("x".to_string(), 5)]), vec![("x".to_string(), 5)]);
}

#[test]
fn error_messages_name_the_path() {
    assert_eq!(
        Error::NoMetadataForPath("a/b".to_string()).message(),
        "fss: could not retrieve metadata for path 'a/b'"
    );
    assert_eq!(
        Error::CouldNotReadDir("/root".to_string()).message(),
        "fss: could not read contents of directory '/root'"
    );
}
