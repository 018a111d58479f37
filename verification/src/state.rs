//! Wording about the prognostic state that does not depend on its fields.

use vstd::prelude::*;

verus! {

/// How a state's SST anomaly is described when two states are compared: one
/// that couples the SST "carries" it, one that does not "does not carry" it.
pub fn carries(couples_sst: bool) -> (s: &'static str)
    ensures
        s@ == (if couples_sst { "carries"@ } else { "does not carry"@ }),
{
    if couples_sst {
        "carries"
    } else {
        "does not carry"
    }
}

} // verus!
