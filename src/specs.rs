use vstd::prelude::*;

verus! {

/// Kinematic kind of a joint in a robot description.
#[derive(Clone, Copy, Debug, PartialEq, Eq, Structural)]
pub enum JointType {
    /// Turns about an axis: one angular degree of freedom.
    Rotational,
    /// Slides along an axis: one linear degree of freedom.
    Sliding,
    /// Rigidly fixed: no degree of freedom.
    Static,
}

} // verus!
