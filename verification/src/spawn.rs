//! Session creation as a state machine.
//!
//! Creating a session is a fixed order of system calls that forks half way.
//! The caller performs each call and reports what happened; [`advance`]
//! answers with the next call. After the fork the two processes follow
//! different branches, and the child's branch never hands control back.

use vstd::prelude::*;
use crate::session::PtySession;
use crate::size::{
    default_size, set_terminal_size, window_of, SizeRequest, WindowSize, DEFAULT_COLS, DEFAULT_ROWS,
};

verus! {

/// How long the parent waits for the child to finish its setup.
pub const SETTLE_MILLIS: u64 = 100;

/// Exit status of a child that could not become the shell.
pub const CHILD_FAILURE_STATUS: i32 = 1;

/// Descriptor number of standard input.
pub const STDIN_FD: i32 = 0;

/// Descriptor number of standard output.
pub const STDOUT_FD: i32 = 1;

/// Descriptor number of standard error.
pub const STDERR_FD: i32 = 2;

/// Absolute path of the shell the child becomes.
pub const SHELL_PATH: &'static str = "/bin/bash";

/// Why no session came to be. A failed call is reported with its error
/// number.
#[derive(Clone, Copy, Debug, PartialEq, Eq, Structural)]
pub enum SpawnError {
    /// No pseudo-terminal pair could be allocated.
    OpenPty { errno: i32 },
    /// The process could not be forked.
    Fork { errno: i32 },
    /// The parent could not close its copy of the slave end.
    CloseSlave { errno: i32 },
    /// An event arrived that the pending call cannot produce.
    OutOfOrder,
}

/// The child's steps between the fork and becoming the shell, in order.
#[derive(Clone, Copy, Debug, PartialEq, Eq, Structural)]
pub enum ChildStep {
    CloseMaster,
    NewSession,
    ControllingTerminal,
    Stdin,
    Stdout,
    Stderr,
    CloseSlave,
    Exec,
}

/// Where the protocol stands: which call is pending, and what is known.
#[derive(Clone, Copy, Debug, PartialEq, Eq, Structural)]
pub enum SpawnState {
    /// Opening the pseudo-terminal pair.
    Opening,
    /// Applying the default size to the new pair.
    Sizing { master: i32, slave: i32 },
    /// Forking.
    Forking { master: i32, slave: i32 },
    /// Parent: closing its copy of the slave end.
    ParentClosing { master: i32, slave: i32, child: i32 },
    /// Parent: waiting for the child to settle.
    ParentSettling { master: i32, slave: i32, child: i32 },
    /// Child: `step` is pending.
    Child { master: i32, slave: i32, step: ChildStep },
    /// Child: told to exit.
    ChildExited,
    /// Parent: the protocol has answered its caller.
    Finished,
}

/// What the caller reports after performing an action.
#[derive(Clone, Copy, Debug, PartialEq, Eq, Structural)]
pub enum SpawnEvent {
    /// The pair was allocated.
    PtyOpened { master: i32, slave: i32 },
    /// The fork returned in the child.
    ForkedChild,
    /// The fork returned in the parent, with the child's process id.
    ForkedParent { child: i32 },
    /// The pending call succeeded.
    Completed,
    /// The pending call failed.
    Failed { errno: i32 },
}

/// What the caller is to do next.
#[derive(Clone, Copy, Debug, PartialEq, Eq, Structural)]
pub enum SpawnAction {
    /// Allocate a pseudo-terminal pair with the system's own settings.
    OpenPty,
    /// Issue a window-size ioctl.
    SetWindowSize { request: SizeRequest },
    /// Fork the process.
    Fork,
    /// Close a descriptor.
    Close { fd: i32 },
    /// Start a new session and process group.
    NewSession,
    /// Make the terminal behind `fd` the controlling terminal.
    SetControllingTerminal { fd: i32 },
    /// Duplicate `from` onto `to`.
    Duplicate { from: i32, to: i32 },
    /// Replace the process image with the shell at [`SHELL_PATH`], with no
    /// argument but its own name.
    Exec,
    /// Sleep.
    Sleep { millis: u64 },
    /// Leave the process with `status`; never return to the caller.
    Exit { status: i32 },
    /// Creation succeeded: hand the session to the caller.
    Ready { session: PtySession },
    /// Creation failed: hand the error to the caller.
    Abort { error: SpawnError },
}

/// A transition: the state to keep and the action to perform.
#[derive(Clone, Copy, Debug, PartialEq, Eq, Structural)]
pub struct SpawnStep {
    pub state: SpawnState,
    pub action: SpawnAction,
}

/// The call that carries out `step` in a child whose pair is `master`, `slave`.
pub open spec fn child_action(step: ChildStep, master: i32, slave: i32) -> SpawnAction {
    match step {
        ChildStep::CloseMaster => SpawnAction::Close { fd: master },
        ChildStep::NewSession => SpawnAction::NewSession,
        ChildStep::ControllingTerminal => SpawnAction::SetControllingTerminal { fd: slave },
        ChildStep::Stdin => SpawnAction::Duplicate { from: slave, to: STDIN_FD },
        ChildStep::Stdout => SpawnAction::Duplicate { from: slave, to: STDOUT_FD },
        ChildStep::Stderr => SpawnAction::Duplicate { from: slave, to: STDERR_FD },
        ChildStep::CloseSlave => SpawnAction::Close { fd: slave },
        ChildStep::Exec => SpawnAction::Exec,
    }
}

/// The step after `step`; the exec has none, for it does not return.
pub open spec fn child_successor(step: ChildStep) -> Option<ChildStep> {
    match step {
        ChildStep::CloseMaster => Some(ChildStep::NewSession),
        ChildStep::NewSession => Some(ChildStep::ControllingTerminal),
        ChildStep::ControllingTerminal => Some(ChildStep::Stdin),
        ChildStep::Stdin => Some(ChildStep::Stdout),
        ChildStep::Stdout => Some(ChildStep::Stderr),
        ChildStep::Stderr => Some(ChildStep::CloseSlave),
        ChildStep::CloseSlave => Some(ChildStep::Exec),
        ChildStep::Exec => None,
    }
}

/// The transition that tells a child to leave.
pub open spec fn child_exit() -> SpawnStep {
    SpawnStep {
        state: SpawnState::ChildExited,
        action: SpawnAction::Exit { status: CHILD_FAILURE_STATUS },
    }
}

/// The transition that fails creation with `error`.
pub open spec fn abort_with(error: SpawnError) -> SpawnStep {
    SpawnStep { state: SpawnState::Finished, action: SpawnAction::Abort { error } }
}

/// The first transition: nothing is known, the pair is to be opened.
pub open spec fn spawn_start() -> SpawnStep {
    SpawnStep { state: SpawnState::Opening, action: SpawnAction::OpenPty }
}

/// The transition relation of session creation.
///
/// Before the fork a failure aborts, except that of the default size, which
/// is ignored. In the parent a failure aborts. In the child every failure,
/// and every event that is not the success of the pending step, ends in
/// an exit.
pub open spec fn spawn_next(state: SpawnState, event: SpawnEvent) -> SpawnStep {
    match state {
        SpawnState::Opening => match event {
            SpawnEvent::PtyOpened { master, slave } => SpawnStep {
                state: SpawnState::Sizing { master, slave },
                action: SpawnAction::SetWindowSize {
                    request: SizeRequest { fd: slave, size: window_of(default_size()) },
                },
            },
            SpawnEvent::Failed { errno } => abort_with(SpawnError::OpenPty { errno }),
            _ => abort_with(SpawnError::OutOfOrder),
        },
        SpawnState::Sizing { master, slave } => match event {
            SpawnEvent::Completed | SpawnEvent::Failed { .. } => SpawnStep {
                state: SpawnState::Forking { master, slave },
                action: SpawnAction::Fork,
            },
            _ => abort_with(SpawnError::OutOfOrder),
        },
        SpawnState::Forking { master, slave } => match event {
            SpawnEvent::ForkedChild => SpawnStep {
                state: SpawnState::Child { master, slave, step: ChildStep::CloseMaster },
                action: child_action(ChildStep::CloseMaster, master, slave),
            },
            SpawnEvent::ForkedParent { child } => SpawnStep {
                state: SpawnState::ParentClosing { master, slave, child },
                action: SpawnAction::Close { fd: slave },
            },
            SpawnEvent::Failed { errno } => abort_with(SpawnError::Fork { errno }),
            _ => abort_with(SpawnError::OutOfOrder),
        },
        SpawnState::ParentClosing { master, slave, child } => match event {
            SpawnEvent::Completed => SpawnStep {
                state: SpawnState::ParentSettling { master, slave, child },
                action: SpawnAction::Sleep { millis: SETTLE_MILLIS },
            },
            SpawnEvent::Failed { errno } => abort_with(SpawnError::CloseSlave { errno }),
            _ => abort_with(SpawnError::OutOfOrder),
        },
        SpawnState::ParentSettling { master, slave, child } => match event {
            SpawnEvent::Completed => SpawnStep {
                state: SpawnState::Finished,
                action: SpawnAction::Ready {
                    session: PtySession { master_fd: master, slave_fd: slave, child_pid: child },
                },
            },
            _ => abort_with(SpawnError::OutOfOrder),
        },
        SpawnState::Child { master, slave, step } => match (event, child_successor(step)) {
            (SpawnEvent::Completed, Some(next)) => SpawnStep {
                state: SpawnState::Child { master, slave, step: next },
                action: child_action(next, master, slave),
            },
            _ => child_exit(),
        },
        SpawnState::ChildExited => child_exit(),
        SpawnState::Finished => abort_with(SpawnError::OutOfOrder),
    }
}

/// What the status a system call returned means for the pending call: `-1`
/// is failure, with the error number read right after it; anything else is
/// success.
pub open spec fn event_of_status(status: i32, errno: i32) -> SpawnEvent {
    if status == -1 {
        SpawnEvent::Failed { errno }
    } else {
        SpawnEvent::Completed
    }
}

impl SpawnEvent {
    /// The event that reports a call which returned `status`.
    pub fn from_status(status: i32, errno: i32) -> (event: SpawnEvent)
        ensures
            event == event_of_status(status, errno),
    {
        if status == -1 {
            SpawnEvent::Failed { errno }
        } else {
            SpawnEvent::Completed
        }
    }
}

impl ChildStep {
    /// The call that carries out this step.
    pub fn action(self, master: i32, slave: i32) -> (action: SpawnAction)
        ensures
            action == child_action(self, master, slave),
    {
        match self {
            ChildStep::CloseMaster => SpawnAction::Close { fd: master },
            ChildStep::NewSession => SpawnAction::NewSession,
            ChildStep::ControllingTerminal => SpawnAction::SetControllingTerminal { fd: slave },
            ChildStep::Stdin => SpawnAction::Duplicate { from: slave, to: STDIN_FD },
            ChildStep::Stdout => SpawnAction::Duplicate { from: slave, to: STDOUT_FD },
            ChildStep::Stderr => SpawnAction::Duplicate { from: slave, to: STDERR_FD },
            ChildStep::CloseSlave => SpawnAction::Close { fd: slave },
            ChildStep::Exec => SpawnAction::Exec,
        }
    }

    /// The step that follows this one, if any.
    pub fn successor(self) -> (next: Option<ChildStep>)
        ensures
            next == child_successor(self),
    {
        match self {
            ChildStep::CloseMaster => Some(ChildStep::NewSession),
            ChildStep::NewSession => Some(ChildStep::ControllingTerminal),
            ChildStep::ControllingTerminal => Some(ChildStep::Stdin),
            ChildStep::Stdin => Some(ChildStep::Stdout),
            ChildStep::Stdout => Some(ChildStep::Stderr),
            ChildStep::Stderr => Some(ChildStep::CloseSlave),
            ChildStep::CloseSlave => Some(ChildStep::Exec),
            ChildStep::Exec => None,
        }
    }
}

fn exit_child() -> (step: SpawnStep)
    ensures
        step == child_exit(),
{
    SpawnStep {
        state: SpawnState::ChildExited,
        action: SpawnAction::Exit { status: CHILD_FAILURE_STATUS },
    }
}

fn abort(error: SpawnError) -> (step: SpawnStep)
    ensures
        step == abort_with(error),
{
    SpawnStep { state: SpawnState::Finished, action: SpawnAction::Abort { error } }
}

/// Begins the creation of a session: the first call is to open the pair.
pub fn spawn_terminal() -> (step: SpawnStep)
    ensures
        step == spawn_start(),
{
    SpawnStep { state: SpawnState::Opening, action: SpawnAction::OpenPty }
}

/// Takes the outcome of the pending call and names the next one.
pub fn advance(state: SpawnState, event: SpawnEvent) -> (step: SpawnStep)
    ensures
        step == spawn_next(state, event),
{
    match state {
        SpawnState::Opening => match event {
            SpawnEvent::PtyOpened { master, slave } => SpawnStep {
                state: SpawnState::Sizing { master, slave },
                action: SpawnAction::SetWindowSize {
                    request: set_terminal_size(slave, DEFAULT_ROWS, DEFAULT_COLS),
                },
            },
            SpawnEvent::Failed { errno } => abort(SpawnError::OpenPty { errno }),
            _ => abort(SpawnError::OutOfOrder),
        },
        SpawnState::Sizing { master, slave } => match event {
            SpawnEvent::Completed | SpawnEvent::Failed { .. } => SpawnStep {
                state: SpawnState::Forking { master, slave },
                action: SpawnAction::Fork,
            },
            _ => abort(SpawnError::OutOfOrder),
        },
        SpawnState::Forking { master, slave } => match event {
            SpawnEvent::ForkedChild => SpawnStep {
                state: SpawnState::Child { master, slave, step: ChildStep::CloseMaster },
                action: ChildStep::CloseMaster.action(master, slave),
            },
            SpawnEvent::ForkedParent { child } => SpawnStep {
                state: SpawnState::ParentClosing { master, slave, child },
                action: SpawnAction::Close { fd: slave },
            },
            SpawnEvent::Failed { errno } => abort(SpawnError::Fork { errno }),
            _ => abort(SpawnError::OutOfOrder),
        },
        SpawnState::ParentClosing { master, slave, child } => match event {
            SpawnEvent::Completed => SpawnStep {
                state: SpawnState::ParentSettling { master, slave, child },
                action: SpawnAction::Sleep { millis: SETTLE_MILLIS },
            },
            SpawnEvent::Failed { errno } => abort(SpawnError::CloseSlave { errno }),
            _ => abort(SpawnError::OutOfOrder),
        },
        SpawnState::ParentSettling { master, slave, child } => match event {
            SpawnEvent::Completed => SpawnStep {
                state: SpawnState::Finished,
                action: SpawnAction::Ready {
                    session: PtySession { master_fd: master, slave_fd: slave, child_pid: child },
                },
            },
            _ => abort(SpawnError::OutOfOrder),
        },
        SpawnState::Child { master, slave, step } => match event {
            SpawnEvent::Completed => match step.successor() {
                Some(next) => SpawnStep {
                    state: SpawnState::Child { master, slave, step: next },
                    action: next.action(master, slave),
                },
                None => exit_child(),
            },
            _ => exit_child(),
        },
        SpawnState::ChildExited => exit_child(),
        SpawnState::Finished => abort(SpawnError::OutOfOrder),
    }
}

/// Whether `state` belongs to the child's branch.
pub open spec fn in_child(state: SpawnState) -> bool {
    state is Child || state is ChildExited
}

/// Whether `state` is one in which the protocol has ended.
pub open spec fn is_final(state: SpawnState) -> bool {
    state is Finished || state is ChildExited
}

/// Whether `action` hands control back to whoever asked for the session.
pub open spec fn returns_to_caller(action: SpawnAction) -> bool {
    action is Ready || action is Abort
}

/// How many steps of the child's branch are pending at `step`, itself included.
pub open spec fn child_steps_left(step: ChildStep) -> nat {
    match step {
        ChildStep::CloseMaster => 8,
        ChildStep::NewSession => 7,
        ChildStep::ControllingTerminal => 6,
        ChildStep::Stdin => 5,
        ChildStep::Stdout => 4,
        ChildStep::Stderr => 3,
        ChildStep::CloseSlave => 2,
        ChildStep::Exec => 1,
    }
}

/// An upper bound on the events the protocol still takes in `state`.
pub open spec fn steps_left(state: SpawnState) -> nat {
    match state {
        SpawnState::Opening => 11,
        SpawnState::Sizing { .. } => 10,
        SpawnState::Forking { .. } => 9,
        SpawnState::ParentClosing { .. } => 2,
        SpawnState::ParentSettling { .. } => 1,
        SpawnState::Child { step, .. } => child_steps_left(step),
        SpawnState::ChildExited => 0,
        SpawnState::Finished => 0,
    }
}

/// The state reached from `state` when `events` are reported one by one.
pub open spec fn spawn_state_after(state: SpawnState, events: Seq<SpawnEvent>) -> SpawnState
    decreases events.len(),
{
    if events.len() == 0 {
        state
    } else {
        spawn_next(spawn_state_after(state, events.drop_last()), events.last()).state
    }
}

/// The actions that answer `events`, reported one by one from `state`.
pub open spec fn spawn_actions(state: SpawnState, events: Seq<SpawnEvent>) -> Seq<SpawnAction>
    decreases events.len(),
{
    if events.len() == 0 {
        Seq::empty()
    } else {
        spawn_actions(state, events.drop_last()).push(
            spawn_next(spawn_state_after(state, events.drop_last()), events.last()).action,
        )
    }
}

/// The child never returns: in its branch every event keeps the protocol in
/// that branch, and no action hands control back to the caller. A failure of
/// any step, and whatever follows the exec, is answered by an exit with a
/// non-zero status.
pub proof fn lemma_child_never_returns(state: SpawnState, event: SpawnEvent)
    requires
        in_child(state),
    ensures
        in_child(spawn_next(state, event).state),
        !returns_to_caller(spawn_next(state, event).action),
        event !is Completed ==> spawn_next(state, event) == child_exit(),
        state is ChildExited ==> spawn_next(state, event) == child_exit(),
        state is Child && state->step == ChildStep::Exec ==> spawn_next(state, event)
            == child_exit(),
        child_exit().action == (SpawnAction::Exit { status: CHILD_FAILURE_STATUS }),
        CHILD_FAILURE_STATUS != 0,
{
}

/// Every event brings the protocol nearer to its end, and at its end it stays.
pub proof fn lemma_spawn_progress(state: SpawnState, event: SpawnEvent)
    ensures
        !is_final(state) ==> steps_left(spawn_next(state, event).state) < steps_left(state),
        is_final(state) ==> spawn_next(state, event).state == state,
{
}

/// One more event adds one action, chosen in the state reached so far.
pub proof fn lemma_spawn_push(state: SpawnState, events: Seq<SpawnEvent>, event: SpawnEvent)
    ensures
        spawn_state_after(state, events.push(event)) == spawn_next(
            spawn_state_after(state, events),
            event,
        ).state,
        spawn_actions(state, events.push(event)) == spawn_actions(state, events).push(
            spawn_next(spawn_state_after(state, events), event).action,
        ),
        spawn_actions(state, events).len() == events.len(),
    decreases events.len(),
{
    assert(events.push(event).drop_last() =~= events);
    assert(events.push(event).last() == event);
    if events.len() > 0 {
        lemma_spawn_push(state, events.drop_last(), events.last());
        assert(events.drop_last().push(events.last()) =~= events);
    }
}

/// The protocol has ended after eleven events at the latest.
pub proof fn lemma_spawn_terminates(events: Seq<SpawnEvent>)
    requires
        events.len() >= 11,
    ensures
        is_final(spawn_state_after(SpawnState::Opening, events)),
{
    lemma_spawn_countdown(SpawnState::Opening, events);
}

/// After `events` the steps left have gone down by their number, or the
/// protocol has ended.
pub proof fn lemma_spawn_countdown(state: SpawnState, events: Seq<SpawnEvent>)
    ensures
        is_final(spawn_state_after(state, events)) || steps_left(
            spawn_state_after(state, events),
        ) + events.len() <= steps_left(state),
    decreases events.len(),
{
    if events.len() > 0 {
        lemma_spawn_countdown(state, events.drop_last());
        lemma_spawn_progress(spawn_state_after(state, events.drop_last()), events.last());
    }
}

/// From the child's branch no sequence of events leads back to the caller.
pub proof fn lemma_child_branch_is_closed(state: SpawnState, events: Seq<SpawnEvent>)
    requires
        in_child(state),
    ensures
        in_child(spawn_state_after(state, events)),
        forall|i: int|
            0 <= i < events.len() ==> !returns_to_caller(#[trigger] spawn_actions(state, events)[i]),
    decreases events.len(),
{
    if events.len() > 0 {
        let before = events.drop_last();
        lemma_child_branch_is_closed(state, before);
        lemma_child_never_returns(spawn_state_after(state, before), events.last());
        lemma_spawn_push(state, before, events.last());
        assert(before.push(events.last()) =~= events);
    }
}

/// The parent's path. When the pair opens, the fork returns in the parent,
/// and the slave end closes, the actions are in order: the default size on
/// the slave end, the fork, the close of the slave end, the wait, and the
/// session made of the pair and the child. Whether the default size took
/// effect does not matter.
pub proof fn lemma_parent_path(master: i32, slave: i32, child: i32, sized: SpawnEvent)
    requires
        sized is Completed || sized is Failed,
    ensures
        spawn_actions(
            SpawnState::Opening,
            seq![
                SpawnEvent::PtyOpened { master, slave },
                sized,
                SpawnEvent::ForkedParent { child },
                SpawnEvent::Completed,
                SpawnEvent::Completed,
            ],
        ) == seq![
            SpawnAction::SetWindowSize {
                request: SizeRequest {
                    fd: slave,
                    size: WindowSize { ws_row: 24, ws_col: 57, ws_xpixel: 0, ws_ypixel: 0 },
                },
            },
            SpawnAction::Fork,
            SpawnAction::Close { fd: slave },
            SpawnAction::Sleep { millis: 100 },
            SpawnAction::Ready {
                session: PtySession { master_fd: master, slave_fd: slave, child_pid: child },
            },
        ],
{
    let start = SpawnState::Opening;
    let e0 = Seq::<SpawnEvent>::empty();
    let e1 = e0.push(SpawnEvent::PtyOpened { master, slave });
    let e2 = e1.push(sized);
    let e3 = e2.push(SpawnEvent::ForkedParent { child });
    let e4 = e3.push(SpawnEvent::Completed);
    let e5 = e4.push(SpawnEvent::Completed);
    lemma_spawn_push(start, e0, SpawnEvent::PtyOpened { master, slave });
    lemma_spawn_push(start, e1, sized);
    lemma_spawn_push(start, e2, SpawnEvent::ForkedParent { child });
    lemma_spawn_push(start, e3, SpawnEvent::Completed);
    lemma_spawn_push(start, e4, SpawnEvent::Completed);
    assert(e5 =~= seq![
        SpawnEvent::PtyOpened { master, slave },
        sized,
        SpawnEvent::ForkedParent { child },
        SpawnEvent::Completed,
        SpawnEvent::Completed,
    ]);
    assert(spawn_actions(start, e5) =~= seq![
        SpawnAction::SetWindowSize {
            request: SizeRequest {
                fd: slave,
                size: WindowSize { ws_row: 24, ws_col: 57, ws_xpixel: 0, ws_ypixel: 0 },
            },
        },
        SpawnAction::Fork,
        SpawnAction::Close { fd: slave },
        SpawnAction::Sleep { millis: 100 },
        SpawnAction::Ready {
            session: PtySession { master_fd: master, slave_fd: slave, child_pid: child },
        },
    ]);
}

/// The child's path. From the fork on, while every step succeeds, the
/// actions are in order: close the master end, start a session, take the
/// slave end as controlling terminal, duplicate it onto the three standard
/// streams, close it, and become the shell.
pub proof fn lemma_child_path(master: i32, slave: i32)
    ensures
        spawn_actions(
            SpawnState::Forking { master, slave },
            seq![
                SpawnEvent::ForkedChild,
                SpawnEvent::Completed,
                SpawnEvent::Completed,
                SpawnEvent::Completed,
                SpawnEvent::Completed,
                SpawnEvent::Completed,
                SpawnEvent::Completed,
                SpawnEvent::Completed,
            ],
        ) == seq![
            SpawnAction::Close { fd: master },
            SpawnAction::NewSession,
            SpawnAction::SetControllingTerminal { fd: slave },
            SpawnAction::Duplicate { from: slave, to: 0 },
            SpawnAction::Duplicate { from: slave, to: 1 },
            SpawnAction::Duplicate { from: slave, to: 2 },
            SpawnAction::Close { fd: slave },
            SpawnAction::Exec,
        ],
{
    let start = SpawnState::Forking { master, slave };
    let done = SpawnEvent::Completed;
    let e0 = Seq::<SpawnEvent>::empty();
    let e1 = e0.push(SpawnEvent::ForkedChild);
    let e2 = e1.push(done);
    let e3 = e2.push(done);
    let e4 = e3.push(done);
    let e5 = e4.push(done);
    let e6 = e5.push(done);
    let e7 = e6.push(done);
    let e8 = e7.push(done);
    lemma_spawn_push(start, e0, SpawnEvent::ForkedChild);
    lemma_spawn_push(start, e1, done);
    lemma_spawn_push(start, e2, done);
    lemma_spawn_push(start, e3, done);
    lemma_spawn_push(start, e4, done);
    lemma_spawn_push(start, e5, done);
    lemma_spawn_push(start, e6, done);
    lemma_spawn_push(start, e7, done);
    assert(e8 =~= seq![SpawnEvent::ForkedChild, done, done, done, done, done, done, done]);
    assert(spawn_actions(start, e8) =~= seq![
        SpawnAction::Close { fd: master },
        SpawnAction::NewSession,
        SpawnAction::SetControllingTerminal { fd: slave },
        SpawnAction::Duplicate { from: slave, to: 0 },
        SpawnAction::Duplicate { from: slave, to: 1 },
        SpawnAction::Duplicate { from: slave, to: 2 },
        SpawnAction::Close { fd: slave },
        SpawnAction::Exec,
    ]);
}

/// A session is handed out on one path only. If the last of the actions
/// that answer `events` is a session, then `events` are exactly: the pair
/// of that session opened, the default size applied or not, the fork
/// returned in the parent with that session's child, the slave end closed,
/// and the wait over.
pub proof fn lemma_ready_only_on_parent_path(events: Seq<SpawnEvent>)
    requires
        events.len() > 0,
        spawn_actions(SpawnState::Opening, events).last() is Ready,
    ensures
        events.len() == 5,
        events[0] == (SpawnEvent::PtyOpened {
            master: spawn_actions(SpawnState::Opening, events).last()->session.master_fd,
            slave: spawn_actions(SpawnState::Opening, events).last()->session.slave_fd,
        }),
        events[1] is Completed || events[1] is Failed,
        events[2] == (SpawnEvent::ForkedParent {
            child: spawn_actions(SpawnState::Opening, events).last()->session.child_pid,
        }),
        events[3] == SpawnEvent::Completed,
        events[4] == SpawnEvent::Completed,
{
    let start = SpawnState::Opening;
    let e4 = events.drop_last();
    assert(spawn_state_after(start, e4) is ParentSettling);
    let e3 = e4.drop_last();
    assert(e4.len() > 0 && spawn_state_after(start, e3) is ParentClosing);
    let e2 = e3.drop_last();
    assert(e3.len() > 0 && spawn_state_after(start, e2) is Forking);
    let e1 = e2.drop_last();
    assert(e2.len() > 0 && spawn_state_after(start, e1) is Sizing);
    let e0 = e1.drop_last();
    assert(e1.len() > 0 && spawn_state_after(start, e0) is Opening);
    assert(e0.len() == 0) by {
        if e0.len() > 0 {
            assert(spawn_state_after(start, e0) == spawn_next(
                spawn_state_after(start, e0.drop_last()),
                e0.last(),
            ).state);
        }
    }
    assert(events[4] == events.last());
    assert(events[3] == e4.last());
    assert(events[2] == e3.last());
    assert(events[1] == e2.last());
    assert(events[0] == e1.last());
}

} // verus!
