//! The messages exchanged on a stream: one request from the client, then the
//! server's responses. Their byte encoding is carried inside a frame (see
//! `wire`).

use vstd::prelude::*;

verus! {

/// One directory entry as reported by a listing.
#[derive(Debug, Clone, PartialEq, Eq)]
pub struct FileEntry {
    pub name: String,
    pub is_dir: bool,
    pub size: u64,
    /// Seconds since the Unix epoch; present only in long listings.
    pub modified: Option<u64>,
}

/// A listing entry as a mathematical value.
pub ghost struct FileEntryView {
    pub name: Seq<char>,
    pub is_dir: bool,
    pub size: u64,
    pub modified: Option<u64>,
}

impl View for FileEntry {
    type V = FileEntryView;

    open spec fn view(&self) -> FileEntryView {
        FileEntryView {
            name: self.name@,
            is_dir: self.is_dir,
            size: self.size,
            modified: self.modified,
        }
    }
}

/// What a client asks for on a fresh stream.
#[derive(Debug, Clone, PartialEq, Eq)]
pub enum Request {
    /// Upload `size` bytes to `path`; `hash` is advisory and never checked.
    Put { path: String, size: u64, hash: Option<String> },
    /// List the directory at `path`.
    List { path: String, recursive: bool, long: bool },
    /// Download the regular file at `path`.
    Get { path: String },
    /// Report the usage of the whole tree.
    Status,
}

/// What the server answers on the same stream.
#[derive(Debug, Clone, PartialEq, Eq)]
pub enum Response {
    /// The upload may begin (`ok` on the wire).
    Ready,
    /// The upload ended with `written` bytes stored.
    Done { written: u64 },
    /// The entries of a listing.
    List { entries: Vec<FileEntry> },
    /// A download of `size` bytes follows.
    File { size: u64 },
    /// Usage of the whole tree.
    Status { root: String, total_size: u64, file_count: u64 },
    /// An explicit refusal.
    Error { message: String },
}

} // verus!
