use fss::filesize::{FilesizeType, Identity, Metadata};
use fss::groups::GroupBy;
use fss::walk::{unreadable_dir, visit, Error, Message, Visit, Walk};

fn file(len: u64, blocks: Option<u64>) -> Metadata {
    Metadata { is_dir: false, identity: Some(Identity { device: 1, inode: 9 }), len, blocks }
}

#[test]
fn missing_metadata_is_an_error() {
    let v = visit("gone".to_string(), None, FilesizeType::ApparentSize);
    assert!(matches!(v, Visit::Emit(Message::Error(Error::NoMetadataForPath(p))) if p == "gone"));
}

#[test]
fn directory_is_descended_not_sized() {
    let m = Metadata { is_dir: true, identity: None, len: 4096, blocks: Some(8) };
    let v = visit("d".to_string(), Some(m), FilesizeType::DiskUsage);
    assert!(matches!(v, Visit::Descend(p) if p == "d"));
}

#[test]
fn file_is_sized() {
    let v = visit("f".to_string(), Some(file(1000, Some(8))), FilesizeType::ApparentSize);
    assert!(matches!(
        v,
        Visit::Emit(Message::SizeEntry(Some(Identity { device: 1, inode: 9 }), p, 1000)) if p == "f"
    ));
    let v = visit("f".to_string(), Some(file(1000, Some(8))), FilesizeType::DiskUsage);
    assert!(matches!(v, Visit::Emit(Message::SizeEntry(_, _, 4096))));
}

#[test]
fn unreadable_dir_message() {
    assert!(matches!(unreadable_dir("x".to_string()), Message::Error(Error::CouldNotReadDir(p)) if p == "x"));
}

#[test]
fn sizes_apparent_and_disk() {
    assert_eq!(FilesizeType::ApparentSize.size(&file(10, Some(3))), 10);
    assert_eq!(FilesizeType::DiskUsage.size(&file(10, Some(3))), 1536);
    assert_eq!(FilesizeType::DiskUsage.size(&file(10, None)), 10);
    assert_eq!(FilesizeType::DiskUsage.size(&file(10, Some(u64::MAX))), u64::MAX);
}

#[test]
fn identity_keys_are_distinct() {
    let a = Identity { device: 1, inode: 2 };
    let b = Identity { device: 2, inode: 1 };
    assert_ne!(a.key(), b.key());
    assert_eq!(a.key(), (1u128 << 64) | 2);
}

#[test]
fn walk_settings() {
    let w = Walk::new(vec![".".to_string()], 4, FilesizeType::ApparentSize, GroupBy::Type);
    assert_eq!(w.root_dirs, vec![".".to_string()]);
    assert_eq!(w.num_threads, 4);
    assert_eq!(w.filesize_type, FilesizeType::ApparentSize);
    assert_eq!(w.group_by, GroupBy::Type);
}
