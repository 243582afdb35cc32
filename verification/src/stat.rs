//! The filesystem-statistics record a statfs call fills in.

use vstd::prelude::*;

verus! {

/// The record a statfs call reports to user space.
#[derive(Clone, Copy, Debug)]
pub struct StatFs {
    /// Type of filesystem.
    pub f_type: u32,
    /// Optimal transfer block size.
    pub f_bsize: u32,
    /// Total data blocks in filesystem.
    pub f_blocks: u64,
    /// Free blocks in filesystem.
    pub f_bfree: u64,
    /// Free blocks available to unprivileged users.
    pub f_bavail: u64,
    /// Total inodes in filesystem.
    pub f_files: u64,
    /// Free inodes in filesystem.
    pub f_ffree: u64,
    /// Filesystem ID.
    pub f_fsid: u64,
    /// Maximum length of filenames.
    pub f_namelen: u32,
    /// Fragment size.
    pub f_frsize: u32,
    /// Mount flags of the filesystem.
    pub f_flags: u32,
    /// Padding reserved for future use.
    pub f_spare: [u32; 6],
}

impl StatFs {
    /// Fills the record from what the filesystem reports of itself: its
    /// magic number and its ID.  Every other field — block and inode
    /// counts, sizes, flags, padding — is reported as zero.
    pub fn from_fs_info(magic: u32, fsid: u64) -> (r: StatFs)
        ensures
            r.f_type == magic,
            r.f_fsid == fsid,
            r.f_bsize == 0,
            r.f_blocks == 0,
            r.f_bfree == 0,
            r.f_bavail == 0,
            r.f_files == 0,
            r.f_ffree == 0,
            r.f_namelen == 0,
            r.f_frsize == 0,
            r.f_flags == 0,
            forall|i: int| 0 <= i < 6 ==> r.f_spare@[i] == 0,
    {
        StatFs {
            f_type: magic,
            f_bsize: 0,
            f_blocks: 0,
            f_bfree: 0,
            f_bavail: 0,
            f_files: 0,
            f_ffree: 0,
            f_fsid: fsid,
            f_namelen: 0,
            f_frsize: 0,
            f_flags: 0,
            f_spare: [0; 6],
        }
    }
}

} // verus!
