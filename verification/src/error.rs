//! Error kinds reported or absorbed by the library.

use vstd::prelude::*;

verus! {

/// What can go wrong at the library's boundary.
#[derive(Clone, Copy, Debug, PartialEq, Eq, Structural)]
pub enum TrustError {
    /// An argument lies outside the domain of the operation, such as a
    /// prior weight of zero.
    InvalidArgument,
    /// A collaborator (identity resolution, post fetch, classifier) failed
    /// or timed out.
    UpstreamUnavailable,
    /// Two fully certain opinions were handed to consensus fusion, which
    /// has no consensus to give for them.
    DegenerateInput,
}

} // verus!
