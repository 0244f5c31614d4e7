//! Verified decision logic of a joint-space robot controller: the control
//! loop's command dispatch, the structural checks on commands, and the
//! iteration budget of the planar inverse-kinematics solver.

pub mod error;
pub mod ik;
pub mod robot;
pub mod simulation;
pub mod specs;
