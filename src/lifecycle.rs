use vstd::prelude::*;

verus! {

/// Exit status that the exposed action ends the process with.
pub const EXIT_SUCCESS: i32 = 0;

/// The actions that the host registers for its frontend to invoke.
#[derive(Clone, Copy, Debug, PartialEq, Eq, Structural)]
pub enum Command {
    /// Ends the hosting process at once.
    ExitApp,
}

/// Where the host stands in its life.
#[derive(Clone, Copy, Debug, PartialEq, Eq, Structural)]
pub enum HostState {
    /// The GUI runtime is being brought up.
    Starting,
    /// The event loop runs and registered actions are accepted.
    Running,
    /// The process has ended with the given status.
    Exited { code: i32 },
    /// Initialization failed and the process aborted.
    Aborted,
}

/// What happens to the host, as the runtime reports it.
#[derive(Clone, Copy, Debug, PartialEq, Eq, Structural)]
pub enum HostEvent {
    /// The runtime came up with its default configuration.
    RuntimeReady,
    /// The runtime could not be initialized.
    RuntimeFailed,
    /// The frontend invoked a registered action.
    Invoked(Command),
    /// The window was closed and the event loop returned.
    WindowClosed,
}

/// What the host must do after an event.
#[derive(Clone, Copy, Debug, PartialEq, Eq, Structural)]
pub enum HostAction {
    /// Block on the runtime's event loop.
    EnterEventLoop,
    /// Stop with a fatal error.
    Abort,
    /// End the process now with this status.
    Exit { code: i32 },
    /// Return from the event loop; the process ends normally.
    Shutdown,
    /// Nothing to do.
    Ignore,
}

/// The host has ended, one way or the other.
pub open spec fn is_terminated(s: HostState) -> bool {
    s is Exited || s is Aborted
}

/// The next state after an event, with the action that goes with it.
pub open spec fn transition(s: HostState, e: HostEvent) -> (HostState, HostAction) {
    match (s, e) {
        (HostState::Starting, HostEvent::RuntimeReady) => (HostState::Running, HostAction::EnterEventLoop),
        (HostState::Starting, HostEvent::RuntimeFailed) => (HostState::Aborted, HostAction::Abort),
        (HostState::Starting, HostEvent::Invoked(Command::ExitApp))
        | (HostState::Running, HostEvent::Invoked(Command::ExitApp)) => (
            HostState::Exited { code: EXIT_SUCCESS },
            HostAction::Exit { code: EXIT_SUCCESS },
        ),
        (HostState::Running, HostEvent::WindowClosed) => (
            HostState::Exited { code: EXIT_SUCCESS },
            HostAction::Shutdown,
        ),
        _ => (s, HostAction::Ignore),
    }
}

/// Decides the host's next state and action for one event.
pub fn step(s: HostState, e: HostEvent) -> (r: (HostState, HostAction))
    ensures
        r == transition(s, e),
{
    match (s, e) {
        (HostState::Starting, HostEvent::RuntimeReady) => (HostState::Running, HostAction::EnterEventLoop),
        (HostState::Starting, HostEvent::RuntimeFailed) => (HostState::Aborted, HostAction::Abort),
        (HostState::Starting, HostEvent::Invoked(Command::ExitApp))
        | (HostState::Running, HostEvent::Invoked(Command::ExitApp)) => (
            HostState::Exited { code: EXIT_SUCCESS },
            HostAction::Exit { code: EXIT_SUCCESS },
        ),
        (HostState::Running, HostEvent::WindowClosed) => (
            HostState::Exited { code: EXIT_SUCCESS },
            HostAction::Shutdown,
        ),
        _ => (s, HostAction::Ignore),
    }
}

/// The state after a trace of events, applied from first to last.
pub open spec fn run(s: HostState, evs: Seq<HostEvent>) -> HostState
    decreases evs.len(),
{
    if evs.len() == 0 {
        s
    } else {
        transition(run(s, evs.drop_last()), evs.last()).0
    }
}

/// Folds a recorded trace of events into the state it leaves the host in.
pub fn replay(s: HostState, events: &Vec<HostEvent>) -> (r: HostState)
    ensures
        r == run(s, events@),
{
    let mut cur = s;
    let mut i: usize = 0;
    while i < events.len()
        invariant
            i <= events@.len(),
            cur == run(s, events@.take(i as int)),
        decreases events@.len() - i,
    {
        proof {
            assert(events@.take(i + 1).drop_last() =~= events@.take(i as int));
        }
        cur = step(cur, events[i]).0;
        i = i + 1;
    }
    assert(events@.take(i as int) =~= events@);
    cur
}

/// Whether the event loop runs and registered actions are accepted.
pub fn is_running(s: HostState) -> (r: bool)
    ensures
        r == (s is Running),
{
    matches!(s, HostState::Running)
}

/// The status the process ended with, if it exited normally.
pub fn exit_code(s: HostState) -> (r: Option<i32>)
    ensures
        r == (match s {
            HostState::Exited { code } => Some(code),
            _ => None::<i32>,
        }),
{
    match s {
        HostState::Exited { code } => Some(code),
        _ => None,
    }
}

} // verus!
