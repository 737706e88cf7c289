//! What a directory walk reports of each entry it meets.
use vstd::prelude::*;

verus! {

/// An entry met while walking a directory tree.
#[derive(Debug)]
pub struct FileInfo {
    /// Path of the entry.
    pub file_path: String,
    /// Size in bytes.
    pub file_size: u64,
    /// Whether the entry is a directory.
    pub is_dir: bool,
    /// Last modification, in whole seconds since the Unix epoch.
    pub modification_time: u64,
}

} // verus!
