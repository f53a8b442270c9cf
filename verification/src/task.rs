//! The asynchronous calling convention.
//!
//! The host expects a future-like handle from the asynchronous variants,
//! but the hosting environment gives this boundary no real parallelism: the
//! synchronous operation runs to completion first and the handle is created
//! already holding its outcome. Resolving the handle hands back exactly
//! that outcome, so the asynchronous variant of an operation can differ
//! from the synchronous one in scheduling only, never in what it resolves
//! or rejects with.

use vstd::prelude::*;

use crate::facade::{result_view, BoundaryError, SpecBoundaryError};
use crate::value::{SpecValue, Value};

verus! {

/// A future-like handle over one operation's outcome.
pub struct Task {
    outcome: Result<Value, BoundaryError>,
}

impl Task {
    /// The outcome this handle resolves to.
    pub closed spec fn spec_outcome(self) -> Result<SpecValue, SpecBoundaryError> {
        result_view(self.outcome)
    }

    /// Schedules a completed synchronous outcome as the handle the host
    /// receives.
    pub fn of_result(r: Result<Value, BoundaryError>) -> (t: Task)
        ensures
            t.spec_outcome() == result_view(r),
    {
        Task { outcome: r }
    }

    /// Resolves the handle: hands back exactly the scheduled outcome.
    pub fn resolve(self) -> (r: Result<Value, BoundaryError>)
        ensures
            result_view(r) == self.spec_outcome(),
    {
        self.outcome
    }
}

} // verus!
