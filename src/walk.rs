//! What a walk over file trees reports, and the decision taken at each entry.
//!
//! The walk itself lists directories and reads metadata, fanning out over a
//! thread pool; each entry it meets becomes exactly one `Visit`.

use vstd::prelude::*;
use vstd::string::*;

use crate::filesize::{size_of, FilesizeType, Identity, Metadata};
use crate::groups::GroupBy;

verus! {

broadcast use vstd::string::group_string_axioms;

/// A filesystem failure met during a walk; the branch it names is skipped.
#[derive(Debug)]
pub enum Error {
    /// The metadata of the path could not be read.
    NoMetadataForPath(String),
    /// The contents of the directory could not be listed.
    CouldNotReadDir(String),
}

/// The line that reports an error.
pub open spec fn error_text(e: Error) -> Seq<char> {
    match e {
        Error::NoMetadataForPath(p) => "fss: could not retrieve metadata for path '"@ + p@ + "'"@,
        Error::CouldNotReadDir(p) => "fss: could not read contents of directory '"@ + p@ + "'"@,
    }
}

impl Error {
    /// The line that reports this error, naming its path.
    pub fn message(&self) -> (r: String)
        ensures
            r@ == error_text(*self),
    {
        match self {
            Error::NoMetadataForPath(p) => {
                let s = "fss: could not retrieve metadata for path '".to_string();
                s.concat(p.as_str()).concat("'")
            },
            Error::CouldNotReadDir(p) => {
                let s = "fss: could not read contents of directory '".to_string();
                s.concat(p.as_str()).concat("'")
            },
        }
    }
}

/// One report of the walk: a file with its identity and size, or a failure.
#[derive(Debug)]
pub enum Message {
    SizeEntry(Option<Identity>, String, u64),
    Error(Error),
}

/// What to do with an entry once its metadata has been read, or failed to be.
#[derive(Debug)]
pub enum Visit {
    /// Report this message; the entry contributes nothing else.
    Emit(Message),
    /// The entry is a directory: list it and visit each child.
    Descend(String),
}

/// The visit owed to the entry at `path`, given the outcome of reading its
/// metadata.
pub open spec fn visit_of(path: String, meta: Option<Metadata>, t: FilesizeType) -> Visit {
    match meta {
        None => Visit::Emit(Message::Error(Error::NoMetadataForPath(path))),
        Some(m) => if m.is_dir {
            Visit::Descend(path)
        } else {
            Visit::Emit(Message::SizeEntry(m.identity, path, size_of(t, m)))
        },
    }
}

/// Decides what becomes of one entry: an error when its metadata is missing,
/// a descent when it is a directory, otherwise a sized entry. A directory's own
/// size is never reported.
pub fn visit(path: String, meta: Option<Metadata>, filesize_type: FilesizeType) -> (r: Visit)
    ensures
        r == visit_of(path, meta, filesize_type),
{
    match meta {
        None => Visit::Emit(Message::Error(Error::NoMetadataForPath(path))),
        Some(m) => {
            if m.is_dir {
                Visit::Descend(path)
            } else {
                let size = filesize_type.size(&m);
                Visit::Emit(Message::SizeEntry(m.identity, path, size))
            }
        },
    }
}

/// The report for a directory whose contents could not be listed.
pub fn unreadable_dir(path: String) -> (r: Message)
    ensures
        r == Message::Error(Error::CouldNotReadDir(path)),
{
    Message::Error(Error::CouldNotReadDir(path))
}

/// The settings of one run: the roots, the width of the thread pool, which size
/// is counted and how files are grouped.
pub struct Walk {
    pub root_dirs: Vec<String>,
    pub num_threads: usize,
    pub filesize_type: FilesizeType,
    pub group_by: GroupBy,
}

impl Walk {
    pub fn new(
        root_dirs: Vec<String>,
        num_threads: usize,
        filesize_type: FilesizeType,
        group_by: GroupBy,
    ) -> (r: Walk)
        ensures
            r.root_dirs == root_dirs,
            r.num_threads == num_threads,
            r.filesize_type == filesize_type,
            r.group_by == group_by,
    {
        Walk { root_dirs, num_threads, filesize_type, group_by }
    }
}

} // verus!
