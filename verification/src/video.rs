//! Videos as the storage layer records them.
use vstd::prelude::*;

verus! {

/// How far the processing of a video has come.
#[derive(Clone, Copy, Debug, PartialEq, Eq, Structural)]
pub enum ProcessingStatus {
    /// Uploaded and waiting.
    Pending,
    /// Being processed.
    Processing,
    /// Processed.
    Completed,
    /// Given up.
    Failed,
}

} // verus!
