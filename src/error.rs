//! The kinds of failure that the engine reports.
use vstd::prelude::*;

verus! {

/// Why an operation was refused.
#[derive(Debug, Clone, Copy, PartialEq, Eq, Structural)]
pub enum EngineError {
    /// A referenced group, post or visit does not exist.
    NotFound,
    /// A visit already exists for the group and post.
    Conflict,
    /// The caller's capability does not cover the action.
    PermissionDenied,
    /// A malformed timestamp, or an edit that would break an ordering invariant.
    InvalidInput,
    /// A derived duration came out negative: the stored timestamps are inconsistent.
    DataIntegrityFault,
    /// The storage could not be reached.
    StorageUnavailable,
}

} // verus!
