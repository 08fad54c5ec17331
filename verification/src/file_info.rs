//! What an information query about a file reports.

use vstd::prelude::*;
use crate::id::FileId;
use crate::id::triple_text;

verus! {

/// An instant, as seconds and nanoseconds since the epoch.
#[derive(Clone, Copy, Debug, PartialEq, Eq, Structural)]
pub struct Timestamp {
    pub seconds: i64,
    pub nanos: u32,
}

/// The answer to a file-information query: everything about a file except
/// its contents.
pub struct FileInfo {
    pub file_id: FileId,
    pub size: i64,
    pub deleted: bool,
    pub keys: Vec<String>,
    pub expiration_time: Timestamp,
}

impl FileInfo {
    /// The identified file.
    pub fn file_id(&self) -> (r: FileId)
        ensures
            r == self.file_id,
    {
        self.file_id
    }

    /// The identified file, in canonical text.
    pub fn file_id_text(&self) -> (r: String)
        ensures
            r@ == triple_text(self.file_id.shard, self.file_id.realm, self.file_id.num),
    {
        self.file_id.canonical_text()
    }

    /// The file's size in bytes.
    pub fn size(&self) -> (r: i64)
        ensures
            r == self.size,
    {
        self.size
    }

    /// Whether the file is marked deleted.
    pub fn deleted(&self) -> (r: bool)
        ensures
            r == self.deleted,
    {
        self.deleted
    }

    /// The keys that govern the file.
    pub fn keys(&self) -> (r: &Vec<String>)
        ensures
            r == self.keys,
    {
        &self.keys
    }

    /// When the file expires.
    pub fn expiration_time(&self) -> (r: Timestamp)
        ensures
            r == self.expiration_time,
    {
        self.expiration_time
    }
}

} // verus!
