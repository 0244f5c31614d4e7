use vstd::prelude::*;

verus! {

/// Number of joint values that an inverse-kinematics move produces: base
/// angle, lift, two arm angles, and the wrist value that it keeps.
pub const IK_DOF: usize = 5;

/// Where the control loop stands.
#[derive(Clone, Copy, Debug, PartialEq, Eq, Structural)]
pub enum LoopState {
    /// No robot has been built yet.
    Idle,
    /// A robot with `dof` degrees of freedom is live.
    Active { dof: usize },
}

/// A command as the control loop sees it before dispatch: its kind and, for a
/// joint-space move, how many joint values it carries.
#[derive(Clone, Copy, Debug, PartialEq, Eq, Structural)]
pub enum CommandKind {
    /// Build a new robot and replace the live one with it.
    Init,
    /// Set the desired joint values directly.
    Move { len: usize },
    /// Set a Cartesian target for the end effector.
    Ikmove,
}

/// What the control loop does with a command.
#[derive(Clone, Copy, Debug, PartialEq, Eq, Structural)]
pub enum Dispatch {
    /// Build the replacement robot; install it only if building succeeds.
    Build,
    /// No robot is live: drop the command.
    Ignore,
    /// The command's joint values do not fit the live robot: reject it whole.
    Reject { expected: usize, got: usize },
    /// Hand the command to the live robot.
    Forward,
}

impl CommandKind {
    /// Number of joint values that a move of this kind sets.
    pub open spec fn width(self) -> nat {
        match self {
            CommandKind::Move { len } => len as nat,
            _ => IK_DOF as nat,
        }
    }
}

impl LoopState {
    /// The state a control loop starts in.
    pub fn new() -> (r: LoopState)
        ensures
            r == LoopState::Idle,
    {
        LoopState::Idle
    }

    /// Decides what to do with `cmd` in this state. An `Init` is always
    /// built; a move waits for a live robot and must set exactly one value
    /// per degree of freedom of that robot.
    pub fn dispatch(&self, cmd: &CommandKind) -> (r: Dispatch)
        ensures
            *cmd is Init ==> r == Dispatch::Build,
            !(*cmd is Init) && *self is Idle ==> r == Dispatch::Ignore,
            *self matches LoopState::Active { dof } ==> (!(*cmd is Init) ==> r == (
                if cmd.width() == dof {
                    Dispatch::Forward
                } else {
                    (Dispatch::Reject { expected: dof, got: cmd.width() as usize })
                }
            )),
    {
        match (*cmd, *self) {
            (CommandKind::Init, _) => Dispatch::Build,
            (_, LoopState::Idle) => Dispatch::Ignore,
            (CommandKind::Move { len }, LoopState::Active { dof }) => {
                if len == dof {
                    Dispatch::Forward
                } else {
                    Dispatch::Reject { expected: dof, got: len }
                }
            },
            (CommandKind::Ikmove, LoopState::Active { dof }) => {
                if dof == IK_DOF {
                    Dispatch::Forward
                } else {
                    Dispatch::Reject { expected: dof, got: IK_DOF }
                }
            },
        }
    }

    /// Records that a robot with `dof` degrees of freedom replaced whatever
    /// was live.
    pub fn install(&mut self, dof: usize)
        ensures
            *final(self) == (LoopState::Active { dof }),
    {
        *self = LoopState::Active { dof };
    }

    /// Whether a tick advances a robot: only when one is live.
    pub fn advances(&self) -> (r: bool)
        ensures
            r <==> *self is Active,
    {
        match self {
            LoopState::Idle => false,
            LoopState::Active { .. } => true,
        }
    }

    /// Degrees of freedom of the live robot, if any.
    pub fn dof(&self) -> (r: Option<usize>)
        ensures
            *self is Idle ==> r is None,
            *self matches LoopState::Active { dof } ==> r == Some(dof),
    {
        match self {
            LoopState::Idle => None,
            LoopState::Active { dof } => Some(*dof),
        }
    }
}

} // verus!
