//! The ways in which revealing a path can fail.

use vstd::prelude::*;

verus! {

/// Why a path could not be revealed.
#[derive(Clone, Copy, Debug, PartialEq, Eq)]
pub enum RevealError {
    /// Nothing exists at the path.
    PathNotFound,
    /// The path may exist, but the file system would not say what it is.
    PathInaccessible,
    /// The operating system could not start the helper program.
    ProcessSpawnFailure,
    /// The path cannot be written as text. Planning works on text and cuts
    /// a path only between characters, so it never fails in this way; the
    /// case is for a host that holds a path in the operating system's own
    /// encoding and has to turn it into text.
    EncodingFailure,
}

} // verus!
