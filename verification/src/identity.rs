//! From a handle to the identity that is scored.

use vstd::prelude::*;
use vstd::string::StringExecFns;
use crate::error::TrustError;

verus! {

/// The identity under which a handle is scored: the one that resolution
/// gave, or the handle itself where resolution failed.
pub fn identity_for(resolved: Result<String, TrustError>, handle: &str) -> (did: String)
    ensures
        did@ == match resolved {
            Ok(found) => found@,
            Err(_) => handle@,
        },
{
    match resolved {
        Ok(found) => found,
        Err(_) => String::from_str(handle),
    }
}

} // verus!
