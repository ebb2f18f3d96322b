use vstd::prelude::*;
use crate::error::SelectError;

verus! {

/// The durability guarantee applied to the output file once all bytes are
/// written. The set of levels is closed: no sync at all, a data-only sync,
/// or a full sync of data and metadata.
#[derive(Debug, Clone, Copy, PartialEq, Eq, Structural)]
pub enum FsyncType {
    /// No flush at all: bytes may remain in volatile buffers.
    Nop,
    /// Flush file data only, excluding metadata not required to read the
    /// data back (a data-only sync).
    Dat,
    /// Flush file data and all metadata.
    All,
}

/// The durability level that a textual alias selects, or `None` when the
/// alias is not one of the recognized spellings.
pub open spec fn fsync_of(s: Seq<char>) -> Option<FsyncType> {
    if s == "nop"@ || s == "nope"@ || s == "none"@ || s == "nofsync"@ {
        Some(FsyncType::Nop)
    } else if s == "dat"@ || s == "data"@ || s == "fdatasync"@ {
        Some(FsyncType::Dat)
    } else if s == "all"@ || s == "fsync"@ {
        Some(FsyncType::All)
    } else {
        None
    }
}

/// Whether the string slice spells the given word.
fn word_eq(s: &str, w: &str) -> (r: bool)
    ensures
        r == (s@ == w@),
{
    let a: String = s.to_owned();
    let b: String = w.to_owned();
    a == b
}

impl FsyncType {
    /// Parses a textual durability alias. Exactly the recognized aliases
    /// succeed; anything else is a configuration error, reported before
    /// any I/O is attempted.
    pub fn from_str(s: &str) -> (r: Result<FsyncType, SelectError>)
        ensures
            (r matches Ok(t) ==> fsync_of(s@) == Some(t)),
            (r is Err <==> fsync_of(s@) is None),
            (r matches Err(e) ==> e is Config),
    {
        if word_eq(s, "nop") || word_eq(s, "nope") || word_eq(s, "none") || word_eq(s, "nofsync") {
            Ok(FsyncType::Nop)
        } else if word_eq(s, "dat") || word_eq(s, "data") || word_eq(s, "fdatasync") {
            Ok(FsyncType::Dat)
        } else if word_eq(s, "all") || word_eq(s, "fsync") {
            Ok(FsyncType::All)
        } else {
            Err(SelectError::Config("invalid fsync type".to_owned()))
        }
    }
}

impl Default for FsyncType {
    /// When the caller selects no durability level, no sync is performed:
    /// throughput is favored over durability unless asked for.
    fn default() -> (r: Self)
        ensures
            r is Nop,
    {
        FsyncType::Nop
    }
}

} // verus!
