//! Common primitive types.

use vstd::prelude::*;

verus! {

/// Approval decision.
#[derive(Clone, Copy, Debug, PartialEq, Eq, Structural)]
pub enum Approval {
    Granted,
    Denied,
}

} // verus!
