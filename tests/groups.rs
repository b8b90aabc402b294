use fss::groups::{FileType, GroupBy};

#[test]
fn filetype_of_known_extensions() {
    assert_eq!(FileType::get_filetype("txt"), FileType::Document);
    assert_eq!(FileType::get_filetype("jpg"), FileType::Image);
    assert_eq!(FileType::get_filetype("mkv"), FileType::Video);
    assert_eq!(FileType::get_filetype("rs"), FileType::Code);
    assert_eq!(FileType::get_filetype("so"), FileType::Executable);
    assert_eq!(FileType::get_filetype("flac"), FileType::Audio);
    assert_eq!(FileType::get_filetype("7z"), FileType::Archive);
    assert_eq!(FileType::get_filetype("fastq"), FileType::GenomicData);
}

#[test]
fn filetype_of_unknown_or_empty_is_other() {
    assert_eq!(FileType::get_filetype(""), FileType::Other);
    assert_eq!(FileType::get_filetype("xyz"), FileType::Other);
    // The table is keyed by lowercase extensions and compared as given.
    assert_eq!(FileType::get_filetype("TXT"), FileType::Other);
}

#[test]
fn filetype_from_path() {
    assert_eq!(FileType::from_path("docs/REPORT.PDF"), FileType::Document);
    assert_eq!(FileType::from_path("a/b/photo.jpeg"), FileType::Image);
    assert_eq!(FileType::from_path("src/main.rs"), FileType::Code);
    assert_eq!(FileType::from_path("Makefile"), FileType::Other);
    // Without an extension the file name itself is classified.
    assert_eq!(FileType::from_path("dir/TAR"), FileType::Archive);
}

#[test]
fn filetype_names() {
    assert_eq!(FileType::Image.name(), "Image");
    assert_eq!(FileType::GenomicData.name(), "GenomicData");
    assert_eq!(FileType::Other.name(), "Other");
}

#[test]
fn extension_key_ignores_case() {
    assert_eq!(GroupBy::Extension.key("FILE.TXT"), "txt");
    assert_eq!(GroupBy::Extension.key("file.txt"), "txt");
    assert_eq!(GroupBy::Extension.key("dir/Archive.Tar.GZ"), "gz");
    assert_eq!(GroupBy::Type.key("FILE.TXT"), "Document");
    assert_eq!(GroupBy::Type.key("file.txt"), "Document");
}

#[test]
fn no_extension_key() {
    assert_eq!(GroupBy::Extension.key("dir/README"), "");
    assert_eq!(GroupBy::Type.key("dir/README"), "Other");
    assert_eq!(GroupBy::Extension.key(".bashrc"), "");
    assert_eq!(GroupBy::Type.key(".bashrc"), "Other");
}

#[test]
fn file_name_key() {
    assert_eq!(GroupBy::FileName.key("a/b/c.txt"), "c.txt");
    assert_eq!(GroupBy::FileName.key("c.txt"), "c.txt");
    assert_eq!(GroupBy::FileName.key("/"), "");
}

#[test]
fn directory_key() {
    assert_eq!(GroupBy::Directory.key("a/b/c.txt"), "b");
    assert_eq!(GroupBy::Directory.key("/tmp/x"), "tmp");
    assert_eq!(GroupBy::Directory.key("c.txt"), "");
    assert_eq!(GroupBy::Directory.key("/"), "");
}
