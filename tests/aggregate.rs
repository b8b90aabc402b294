use fss::aggregate::Aggregator;
use fss::filesize::Identity;
use fss::groups::GroupBy;
use fss::walk::{Error, Message};

fn entry(path: &str, size: u64) -> Message {
    Message::SizeEntry(None, path.to_string(), size)
}

fn linked(device: u64, inode: u64, path: &str, size: u64) -> Message {
    Message::SizeEntry(Some(Identity { device, inode }), path.to_string(), size)
}

fn run(group_by: GroupBy, msgs: Vec<Message>) -> (u64, Vec<(String, u64)>, Vec<Error>) {
    let mut agg = Aggregator::new(group_by);
    for m in msgs {
        assert!(agg.receive(m));
    }
    agg.finish()
}

fn size_of(rows: &[(String, u64)], key: &str) -> Option<u64> {
    rows.iter().find(|(k, _)| k == key).map(|(_, v)| *v)
}

#[test]
fn two_files_by_extension() {
    let (total, rows, errors) =
        run(GroupBy::Extension, vec![entry("root/a.txt", 100), entry("root/b.jpg", 200)]);
    assert_eq!(total, 300);
    assert_eq!(rows, vec![("txt".to_string(), 100), ("jpg".to_string(), 200)]);
    assert!(errors.is_empty());
}

#[test]
fn two_files_by_type() {
    let (total, rows, _) =
        run(GroupBy::Type, vec![entry("root/a.txt", 100), entry("root/b.jpg", 200)]);
    assert_eq!(total, 300);
    assert_eq!(rows, vec![("Document".to_string(), 100), ("Image".to_string(), 200)]);
}

#[test]
fn extension_groups_merge_across_case() {
    let (total, rows, _) =
        run(GroupBy::Extension, vec![entry("FILE.TXT", 5), entry("file.txt", 7)]);
    assert_eq!(total, 12);
    assert_eq!(rows, vec![("txt".to_string(), 12)]);
}

#[test]
fn no_extension_goes_to_empty_key() {
    let (_, rows, _) = run(GroupBy::Extension, vec![entry("dir/README", 9)]);
    assert_eq!(rows, vec![(String::new(), 9)]);
    let (_, rows, _) = run(GroupBy::Type, vec![entry("dir/README", 9)]);
    assert_eq!(rows, vec![("Other".to_string(), 9)]);
}

#[test]
fn hard_link_counted_once() {
    let (total, rows, _) = run(
        GroupBy::Extension,
        vec![
            linked(1, 42, "x/one.txt", 100),
            linked(1, 42, "y/two.txt", 100),
            linked(1, 42, "z/three.txt", 100),
        ],
    );
    assert_eq!(total, 100);
    assert_eq!(rows, vec![("txt".to_string(), 100)]);
}

#[test]
fn hard_link_credits_first_name_seen() {
    let (total, rows, _) = run(
        GroupBy::Extension,
        vec![linked(3, 7, "b.jpg", 50), linked(3, 7, "a.txt", 50), entry("c.txt", 1)],
    );
    assert_eq!(total, 51);
    assert_eq!(size_of(&rows, "jpg"), Some(50));
    assert_eq!(size_of(&rows, "txt"), Some(1));
}

#[test]
fn distinct_identities_both_count() {
    let (total, _, _) = run(
        GroupBy::FileName,
        vec![linked(1, 2, "a", 10), linked(2, 1, "a", 10), linked(1, 3, "a", 10)],
    );
    assert_eq!(total, 30);
}

#[test]
fn total_is_sum_of_groups() {
    let (total, rows, _) = run(
        GroupBy::Directory,
        vec![
            entry("r/x/a.txt", 3),
            entry("r/y/b.txt", 4),
            entry("r/x/c.rs", 5),
            entry("top", 6),
        ],
    );
    assert_eq!(total, 18);
    assert_eq!(rows.iter().map(|(_, v)| v).sum::<u64>(), total);
    assert_eq!(size_of(&rows, "x"), Some(8));
    assert_eq!(size_of(&rows, "y"), Some(4));
    assert_eq!(size_of(&rows, ""), Some(6));
}

#[test]
fn unreadable_directory_is_one_error() {
    let (total, rows, errors) = run(
        GroupBy::Extension,
        vec![
            entry("root/a.txt", 100),
            Message::Error(Error::CouldNotReadDir("root/locked".to_string())),
            entry("root/b.jpg", 200),
        ],
    );
    assert_eq!(total, 300);
    assert_eq!(rows.len(), 2);
    assert_eq!(errors.len(), 1);
    assert!(matches!(&errors[0], Error::CouldNotReadDir(p) if p == "root/locked"));
}

#[test]
fn errors_keep_arrival_order() {
    let mut agg = Aggregator::new(GroupBy::Extension);
    assert!(agg.receive(Message::Error(Error::NoMetadataForPath("p1".to_string()))));
    assert!(agg.receive(Message::Error(Error::CouldNotReadDir("p2".to_string()))));
    assert_eq!(agg.total(), 0);
    assert_eq!(agg.errors().len(), 2);
    assert!(matches!(&agg.errors()[0], Error::NoMetadataForPath(p) if p == "p1"));
    assert!(matches!(&agg.errors()[1], Error::CouldNotReadDir(p) if p == "p2"));
}

#[test]
fn overflowing_total_is_refused() {
    let mut agg = Aggregator::new(GroupBy::Extension);
    assert!(agg.receive(entry("a.bin", u64::MAX)));
    assert!(!agg.receive(entry("b.bin", 1)));
    assert!(agg.receive(entry("c.bin", 0)));
    let (total, rows, _) = agg.finish();
    assert_eq!(total, u64::MAX);
    assert_eq!(rows, vec![("bin".to_string(), u64::MAX)]);
}

#[test]
fn empty_run() {
    let (total, rows, errors) = run(GroupBy::Type, vec![]);
    assert_eq!(total, 0);
    assert!(rows.is_empty());
    assert!(errors.is_empty());
}
