use vstd::prelude::*;

use crate::error::ValidationError;

verus! {

/// The fewest joints a chain can have: a fixed root and a tip.
pub const MIN_JOINTS: usize = 2;

/// What the solver does at the head of a pass, once it knows whether the tip
/// is within tolerance of the target.
#[derive(Clone, Copy, Debug, PartialEq, Eq, Structural)]
pub enum Pass {
    /// The tip is within tolerance: the solve ends, reporting the passes made.
    Converged { iterations: usize },
    /// The tip is still off and the pass budget is spent.
    Exhausted,
    /// The tip is still off: run one more backward and forward pass.
    Continue,
}

/// Checks the number of joints of a chain and returns the index of its tip.
pub fn check_chain(joints: usize) -> (r: Result<usize, ValidationError>)
    ensures
        joints >= MIN_JOINTS <==> r is Ok,
        r is Ok ==> r->Ok_0 == joints - 1,
        r is Err ==> r->Err_0 == (ValidationError::TooFewJoints { joints }),
{
    if joints < MIN_JOINTS {
        Err(ValidationError::TooFewJoints { joints })
    } else {
        Ok(joints - 1)
    }
}

/// Decides the next step of a solve after `iteration` passes: stop once the
/// tip is within tolerance, fail once the count exceeds the limit, and
/// otherwise go on.
pub fn next_pass(iteration: usize, iteration_limit: usize, within_tolerance: bool) -> (r: Pass)
    ensures
        within_tolerance ==> r == (Pass::Converged { iterations: iteration }),
        !within_tolerance && iteration > iteration_limit ==> r == Pass::Exhausted,
        !within_tolerance && iteration <= iteration_limit ==> r == Pass::Continue,
{
    if within_tolerance {
        Pass::Converged { iterations: iteration }
    } else if iteration > iteration_limit {
        Pass::Exhausted
    } else {
        Pass::Continue
    }
}

} // verus!
