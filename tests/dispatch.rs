use controls::simulation::{CommandKind, Dispatch, LoopState, IK_DOF};

#[test]
fn new_loop_is_idle() {
    let s = LoopState::new();
    assert_eq!(s, LoopState::Idle);
    assert!(!s.advances());
    assert_eq!(s.dof(), None);
}

#[test]
fn init_is_built_in_every_state() {
    assert_eq!(LoopState::Idle.dispatch(&CommandKind::Init), Dispatch::Build);
    assert_eq!(LoopState::Active { dof: 5 }.dispatch(&CommandKind::Init), Dispatch::Build);
}

#[test]
fn moves_are_ignored_without_a_robot() {
    let s = LoopState::new();
    assert_eq!(s.dispatch(&CommandKind::Move { len: 5 }), Dispatch::Ignore);
    assert_eq!(s.dispatch(&CommandKind::Move { len: 0 }), Dispatch::Ignore);
    assert_eq!(s.dispatch(&CommandKind::Ikmove), Dispatch::Ignore);
}

#[test]
fn move_of_matching_width_is_forwarded() {
    let s = LoopState::Active { dof: 3 };
    assert_eq!(s.dispatch(&CommandKind::Move { len: 3 }), Dispatch::Forward);
}

#[test]
fn move_of_other_width_is_rejected() {
    let s = LoopState::Active { dof: 3 };
    assert_eq!(
        s.dispatch(&CommandKind::Move { len: 4 }),
        Dispatch::Reject { expected: 3, got: 4 }
    );
    assert_eq!(
        s.dispatch(&CommandKind::Move { len: 2 }),
        Dispatch::Reject { expected: 3, got: 2 }
    );
}

#[test]
fn ikmove_needs_the_ik_layout() {
    assert_eq!(
        LoopState::Active { dof: IK_DOF }.dispatch(&CommandKind::Ikmove),
        Dispatch::Forward
    );
    assert_eq!(
        LoopState::Active { dof: 3 }.dispatch(&CommandKind::Ikmove),
        Dispatch::Reject { expected: 3, got: IK_DOF }
    );
    assert_eq!(
        LoopState::Active { dof: 6 }.dispatch(&CommandKind::Ikmove),
        Dispatch::Reject { expected: 6, got: IK_DOF }
    );
}

#[test]
fn install_replaces_the_live_robot() {
    let mut s = LoopState::new();
    s.install(5);
    assert_eq!(s, LoopState::Active { dof: 5 });
    assert!(s.advances());
    assert_eq!(s.dof(), Some(5));
    s.install(2);
    assert_eq!(s, LoopState::Active { dof: 2 });
    assert_eq!(s.dof(), Some(2));
}

#[test]
fn stale_move_after_smaller_init_is_rejected() {
    // a move sized for the first robot is still queued when a second,
    // smaller robot replaces it
    let mut s = LoopState::new();
    assert_eq!(s.dispatch(&CommandKind::Init), Dispatch::Build);
    s.install(5);
    let stale = CommandKind::Move { len: 5 };
    assert_eq!(s.dispatch(&CommandKind::Init), Dispatch::Build);
    s.install(3);
    assert_eq!(s.dispatch(&stale), Dispatch::Reject { expected: 3, got: 5 });
    assert_eq!(s, LoopState::Active { dof: 3 });
}
