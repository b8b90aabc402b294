//! Disk usage of file trees, grouped by extension, file type, file name or
//! parent directory, with hard-linked files counted once.

pub mod aggregate;
pub mod cli;
pub mod filesize;
pub mod filter;
pub mod groups;
pub mod paths;
pub mod report;
pub mod text;
pub mod walk;
