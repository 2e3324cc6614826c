//! The kinds of failure that the board tells apart.

use vstd::prelude::*;

verus! {

/// Why an operation on the board or its store failed.
#[derive(Debug, Clone, Copy, PartialEq, Eq, Structural)]
pub enum BoardError {
    /// The file system refused a read or a write.
    Io,
    /// A page or an image could not be fetched.
    Fetch,
    /// A page holds no image that the heuristic recognises.
    NoImageFound,
    /// A line of the log is not a valid record.
    Deserialize,
    /// Fetched or cached bytes could not be bound to a drawable handle.
    MediaLoad,
}

/// What an operation was part of when it failed.
#[derive(Debug, Clone, Copy, PartialEq, Eq, Structural)]
pub enum Phase {
    /// Opening the store when the session starts.
    Startup,
    /// Reading one record of the log.
    Load,
    /// Adding one item at the user's request.
    Add,
    /// Rewriting the log.
    Save,
}

/// The propagation policy: a failure ends the operation it is part of only
/// when the file system fails while the store is opened or the log is
/// rewritten. Every other failure concerns one item and is reported.
pub open spec fn fatal(error: BoardError, phase: Phase) -> bool {
    error == BoardError::Io && (phase == Phase::Startup || phase == Phase::Save)
}

impl BoardError {
    /// Whether this failure, met in `phase`, ends the whole operation.
    pub fn is_fatal(self, phase: Phase) -> (b: bool)
        ensures
            b == fatal(self, phase),
    {
        match self {
            BoardError::Io => match phase {
                Phase::Startup => true,
                Phase::Save => true,
                _ => false,
            },
            _ => false,
        }
    }
}

} // verus!
