use pty_session::session::PtySession;
use pty_session::size::{SizeRequest, WindowSize};
use pty_session::spawn::{
    advance, spawn_terminal, ChildStep, SpawnAction, SpawnError, SpawnEvent, SpawnState,
    SpawnStep, CHILD_FAILURE_STATUS, SETTLE_MILLIS, SHELL_PATH,
};

fn run(events: &[SpawnEvent]) -> (SpawnState, Vec<SpawnAction>) {
    let first = spawn_terminal();
    let mut state = first.state;
    let mut actions = vec![first.action];
    for event in events {
        let step = advance(state, *event);
        state = step.state;
        actions.push(step.action);
    }
    (state, actions)
}

fn in_child(master: i32, slave: i32, step: ChildStep) -> SpawnState {
    SpawnState::Child { master, slave, step }
}

#[test]
fn creation_starts_by_opening_the_pair() {
    let first = spawn_terminal();
    assert_eq!(first.state, SpawnState::Opening);
    assert_eq!(first.action, SpawnAction::OpenPty);
}

#[test]
fn new_terminal_gets_24_rows_and_57_columns_before_the_fork() {
    let (state, actions) = run(&[SpawnEvent::PtyOpened { master: 7, slave: 8 }]);
    assert_eq!(state, SpawnState::Sizing { master: 7, slave: 8 });
    assert_eq!(
        actions[1],
        SpawnAction::SetWindowSize {
            request: SizeRequest {
                fd: 8,
                size: WindowSize { ws_row: 24, ws_col: 57, ws_xpixel: 0, ws_ypixel: 0 },
            },
        }
    );
    assert!(!actions.contains(&SpawnAction::Fork));
}

#[test]
fn parent_path_yields_the_session() {
    let (state, actions) = run(&[
        SpawnEvent::PtyOpened { master: 7, slave: 8 },
        SpawnEvent::Completed,
        SpawnEvent::ForkedParent { child: 4321 },
        SpawnEvent::Completed,
        SpawnEvent::Completed,
    ]);
    assert_eq!(state, SpawnState::Finished);
    assert_eq!(
        actions,
        vec![
            SpawnAction::OpenPty,
            SpawnAction::SetWindowSize {
                request: SizeRequest {
                    fd: 8,
                    size: WindowSize { ws_row: 24, ws_col: 57, ws_xpixel: 0, ws_ypixel: 0 },
                },
            },
            SpawnAction::Fork,
            SpawnAction::Close { fd: 8 },
            SpawnAction::Sleep { millis: 100 },
            SpawnAction::Ready {
                session: PtySession { master_fd: 7, slave_fd: 8, child_pid: 4321 },
            },
        ]
    );
    assert_eq!(SETTLE_MILLIS, 100);
}

#[test]
fn failed_default_size_is_ignored() {
    let (state, actions) = run(&[
        SpawnEvent::PtyOpened { master: 3, slave: 4 },
        SpawnEvent::Failed { errno: 25 },
    ]);
    assert_eq!(state, SpawnState::Forking { master: 3, slave: 4 });
    assert_eq!(actions[2], SpawnAction::Fork);
}

#[test]
fn child_path_ends_in_the_shell() {
    let mut events = vec![
        SpawnEvent::PtyOpened { master: 7, slave: 8 },
        SpawnEvent::Completed,
        SpawnEvent::ForkedChild,
    ];
    for _ in 0..7 {
        events.push(SpawnEvent::Completed);
    }
    let (state, actions) = run(&events);
    assert_eq!(state, in_child(7, 8, ChildStep::Exec));
    assert_eq!(
        actions[3..].to_vec(),
        vec![
            SpawnAction::Close { fd: 7 },
            SpawnAction::NewSession,
            SpawnAction::SetControllingTerminal { fd: 8 },
            SpawnAction::Duplicate { from: 8, to: 0 },
            SpawnAction::Duplicate { from: 8, to: 1 },
            SpawnAction::Duplicate { from: 8, to: 2 },
            SpawnAction::Close { fd: 8 },
            SpawnAction::Exec,
        ]
    );
    assert_eq!(SHELL_PATH, "/bin/bash");
}

#[test]
fn pty_allocation_failure_aborts() {
    let (state, actions) = run(&[SpawnEvent::Failed { errno: 2 }]);
    assert_eq!(state, SpawnState::Finished);
    assert_eq!(
        actions[1],
        SpawnAction::Abort { error: SpawnError::OpenPty { errno: 2 } }
    );
}

#[test]
fn fork_failure_aborts() {
    let (state, actions) = run(&[
        SpawnEvent::PtyOpened { master: 7, slave: 8 },
        SpawnEvent::Completed,
        SpawnEvent::Failed { errno: 11 },
    ]);
    assert_eq!(state, SpawnState::Finished);
    assert_eq!(
        actions[3],
        SpawnAction::Abort { error: SpawnError::Fork { errno: 11 } }
    );
}

#[test]
fn parent_close_failure_aborts() {
    let (state, actions) = run(&[
        SpawnEvent::PtyOpened { master: 7, slave: 8 },
        SpawnEvent::Completed,
        SpawnEvent::ForkedParent { child: 99 },
        SpawnEvent::Failed { errno: 9 },
    ]);
    assert_eq!(state, SpawnState::Finished);
    assert_eq!(
        actions[4],
        SpawnAction::Abort { error: SpawnError::CloseSlave { errno: 9 } }
    );
}

#[test]
fn event_that_does_not_fit_aborts() {
    let out_of_order = SpawnStep {
        state: SpawnState::Finished,
        action: SpawnAction::Abort { error: SpawnError::OutOfOrder },
    };
    assert_eq!(advance(SpawnState::Opening, SpawnEvent::Completed), out_of_order);
    assert_eq!(advance(SpawnState::Opening, SpawnEvent::ForkedChild), out_of_order);
    assert_eq!(
        advance(
            SpawnState::Sizing { master: 1, slave: 2 },
            SpawnEvent::PtyOpened { master: 1, slave: 2 }
        ),
        out_of_order
    );
    assert_eq!(
        advance(SpawnState::Forking { master: 1, slave: 2 }, SpawnEvent::Completed),
        out_of_order
    );
    assert_eq!(
        advance(
            SpawnState::ParentClosing { master: 1, slave: 2, child: 3 },
            SpawnEvent::ForkedChild
        ),
        out_of_order
    );
    assert_eq!(
        advance(
            SpawnState::ParentSettling { master: 1, slave: 2, child: 3 },
            SpawnEvent::Failed { errno: 4 }
        ),
        out_of_order
    );
    assert_eq!(advance(SpawnState::Finished, SpawnEvent::Completed), out_of_order);
}

#[test]
fn child_exits_when_any_step_fails() {
    let steps = [
        ChildStep::CloseMaster,
        ChildStep::NewSession,
        ChildStep::ControllingTerminal,
        ChildStep::Stdin,
        ChildStep::Stdout,
        ChildStep::Stderr,
        ChildStep::CloseSlave,
        ChildStep::Exec,
    ];
    for step in steps {
        let next = advance(in_child(7, 8, step), SpawnEvent::Failed { errno: 1 });
        assert_eq!(next.state, SpawnState::ChildExited);
        assert_eq!(next.action, SpawnAction::Exit { status: 1 });
    }
    assert_ne!(CHILD_FAILURE_STATUS, 0);
}

#[test]
fn child_never_continues_past_the_exec() {
    let after_exec = advance(in_child(7, 8, ChildStep::Exec), SpawnEvent::Completed);
    assert_eq!(after_exec.state, SpawnState::ChildExited);
    assert_eq!(after_exec.action, SpawnAction::Exit { status: 1 });
    let again = advance(after_exec.state, SpawnEvent::Completed);
    assert_eq!(again.state, SpawnState::ChildExited);
    assert_eq!(again.action, SpawnAction::Exit { status: 1 });
}

#[test]
fn child_answers_events_of_the_parent_with_an_exit() {
    let state = in_child(7, 8, ChildStep::NewSession);
    for event in [
        SpawnEvent::PtyOpened { master: 1, slave: 2 },
        SpawnEvent::ForkedChild,
        SpawnEvent::ForkedParent { child: 5 },
    ] {
        let next = advance(state, event);
        assert_eq!(next.state, SpawnState::ChildExited);
        assert_eq!(next.action, SpawnAction::Exit { status: 1 });
    }
}

#[test]
fn child_steps_follow_one_another() {
    assert_eq!(ChildStep::CloseMaster.successor(), Some(ChildStep::NewSession));
    assert_eq!(ChildStep::CloseSlave.successor(), Some(ChildStep::Exec));
    assert_eq!(ChildStep::Exec.successor(), None);
    assert_eq!(ChildStep::Stdout.action(5, 6), SpawnAction::Duplicate { from: 6, to: 1 });
}

#[test]
fn protocol_ends_within_eleven_events() {
    let mut events = vec![
        SpawnEvent::PtyOpened { master: 7, slave: 8 },
        SpawnEvent::Completed,
        SpawnEvent::ForkedChild,
    ];
    for _ in 0..8 {
        events.push(SpawnEvent::Completed);
    }
    assert_eq!(events.len(), 11);
    let (state, actions) = run(&events);
    assert_eq!(state, SpawnState::ChildExited);
    assert_eq!(actions.last(), Some(&SpawnAction::Exit { status: 1 }));
}

#[test]
fn status_of_minus_one_reports_failure() {
    assert_eq!(SpawnEvent::from_status(-1, 25), SpawnEvent::Failed { errno: 25 });
    assert_eq!(SpawnEvent::from_status(0, 25), SpawnEvent::Completed);
    assert_eq!(SpawnEvent::from_status(3, 0), SpawnEvent::Completed);
}
