//! The policy that a route rule carries.
use vstd::prelude::*;

verus! {

/// Says whether the rule that carries it is the one that a request should have
/// been matched with.
#[derive(Copy, Clone, Debug, PartialEq, Eq, Structural)]
pub enum Policy {
    Expected,
    Unexpected,
}

impl Default for Policy {
    /// A rule that sets no policy is not the expected one.
    fn default() -> (policy: Self)
        ensures
            policy == Policy::Unexpected,
    {
        Policy::Unexpected
    }
}

} // verus!
