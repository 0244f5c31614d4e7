use vstd::prelude::*;

verus! {

/// A construction input that breaks one of the model's structural invariants.
#[derive(Clone, Copy, Debug, PartialEq, Eq, Structural)]
pub enum ValidationError {
    /// A kinematic chain needs a root and at least one more joint.
    TooFewJoints { joints: usize },
    /// There must be exactly one set of limits per degree of freedom.
    LimitCount { expected: usize, got: usize },
    /// The limits at `position` name another degree of freedom.
    LimitIndex { position: usize, index: usize },
}

} // verus!
