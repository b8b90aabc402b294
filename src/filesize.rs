//! Metadata snapshots of filesystem entries and the two ways of sizing them.

use vstd::prelude::*;

verus! {

/// What identifies the physical file behind a name: its device and inode.
#[derive(Debug, Copy, Clone, PartialEq, Eq, Structural, Hash)]
pub struct Identity {
    pub device: u64,
    pub inode: u64,
}

/// One integer for an identity; distinct identities get distinct keys.
pub open spec fn identity_key(i: Identity) -> u128 {
    (i.device as int * 0x1_0000_0000_0000_0000 + i.inode as int) as u128
}

impl Identity {
    /// The key of this identity, as kept in a set of seen files.
    pub fn key(&self) -> (r: u128)
        ensures
            r == identity_key(*self),
    {
        (self.device as u128) * 0x1_0000_0000_0000_0000u128 + (self.inode as u128)
    }
}

/// Distinct identities have distinct keys.
pub proof fn lemma_identity_key_injective(a: Identity, b: Identity)
    ensures
        identity_key(a) == identity_key(b) ==> a == b,
{
    if identity_key(a) == identity_key(b) {
        assert(a.device as int * 0x1_0000_0000_0000_0000 + a.inode as int == b.device as int
            * 0x1_0000_0000_0000_0000 + b.inode as int);
        if a.device < b.device {
            assert(a.device as int * 0x1_0000_0000_0000_0000 + 0x1_0000_0000_0000_0000
                <= b.device as int * 0x1_0000_0000_0000_0000) by (nonlinear_arith)
                requires
                    a.device < b.device,
            ;
        } else if b.device < a.device {
            assert(b.device as int * 0x1_0000_0000_0000_0000 + 0x1_0000_0000_0000_0000
                <= a.device as int * 0x1_0000_0000_0000_0000) by (nonlinear_arith)
                requires
                    b.device < a.device,
            ;
        }
    }
}

/// A snapshot of an entry's metadata, read without following symbolic links.
#[derive(Debug, Copy, Clone)]
pub struct Metadata {
    /// Whether the entry is a directory.
    pub is_dir: bool,
    /// The physical file behind the entry, where the platform reports one.
    pub identity: Option<Identity>,
    /// The logical length of the content in bytes.
    pub len: u64,
    /// The number of 512-byte blocks allocated, where the platform reports it.
    pub blocks: Option<u64>,
}

/// Which size of a file is counted.
#[derive(Debug, Copy, Clone, PartialEq, Eq, Structural)]
pub enum FilesizeType {
    /// The logical length of the content.
    ApparentSize,
    /// The storage allocated to the file.
    DiskUsage,
}

/// The size of a block as reported in `Metadata::blocks`.
pub const BLOCK_SIZE: u64 = 512;

/// The size counted for an entry: the apparent length, or the allocated
/// blocks times the block size (capped at `u64::MAX`), which falls back to the
/// apparent length where the platform reports no blocks.
pub open spec fn size_of(t: FilesizeType, m: Metadata) -> u64 {
    match t {
        FilesizeType::ApparentSize => m.len,
        FilesizeType::DiskUsage => match m.blocks {
            Some(b) => if b * BLOCK_SIZE <= u64::MAX {
                (b * BLOCK_SIZE) as u64
            } else {
                u64::MAX
            },
            None => m.len,
        },
    }
}

impl FilesizeType {
    /// The size counted for an entry with metadata `m`.
    pub fn size(&self, m: &Metadata) -> (r: u64)
        ensures
            r == size_of(*self, *m),
    {
        match self {
            FilesizeType::ApparentSize => m.len,
            FilesizeType::DiskUsage => match m.blocks {
                Some(b) => match b.checked_mul(BLOCK_SIZE) {
                    Some(v) => v,
                    None => u64::MAX,
                },
                None => m.len,
            },
        }
    }
}

} // verus!
