use desktop_shell::lifecycle::{
    exit_code, is_running, replay, step, Command, HostAction, HostEvent, HostState, EXIT_SUCCESS,
};

const EXIT: HostEvent = HostEvent::Invoked(Command::ExitApp);

#[test]
fn start_reaches_running() {
    let (state, action) = step(HostState::Starting, HostEvent::RuntimeReady);
    assert_eq!(state, HostState::Running);
    assert_eq!(action, HostAction::EnterEventLoop);
    assert!(is_running(state));
    assert_eq!(exit_code(state), None);
}

#[test]
fn exit_app_while_running_exits_with_zero() {
    let (state, action) = step(HostState::Running, EXIT);
    assert_eq!(action, HostAction::Exit { code: 0 });
    assert_eq!(exit_code(state), Some(0));
    assert!(!is_running(state));
}

#[test]
fn failed_init_aborts_and_never_runs() {
    let (state, action) = step(HostState::Starting, HostEvent::RuntimeFailed);
    assert_eq!(state, HostState::Aborted);
    assert_eq!(action, HostAction::Abort);
    let trace = vec![
        HostEvent::RuntimeFailed,
        HostEvent::RuntimeReady,
        EXIT,
        HostEvent::WindowClosed,
    ];
    for n in 1..=trace.len() {
        let state = replay(HostState::Starting, &trace[..n].to_vec());
        assert_eq!(state, HostState::Aborted);
        assert!(!is_running(state));
        assert_eq!(exit_code(state), None);
    }
}

#[test]
fn exit_app_twice_changes_nothing() {
    let (first, _) = step(HostState::Running, EXIT);
    let (second, action) = step(first, EXIT);
    assert_eq!(second, HostState::Exited { code: 0 });
    assert_eq!(action, HostAction::Ignore);
}

#[test]
fn exit_app_anywhere_in_trace() {
    let trace = vec![HostEvent::RuntimeReady, EXIT, EXIT, HostEvent::WindowClosed, EXIT];
    assert_eq!(replay(HostState::Starting, &trace), HostState::Exited { code: 0 });
    let early = vec![EXIT, HostEvent::RuntimeReady];
    assert_eq!(replay(HostState::Starting, &early), HostState::Exited { code: 0 });
    assert_eq!(exit_code(replay(HostState::Starting, &early)), Some(EXIT_SUCCESS));
}

#[test]
fn exit_app_from_starting_exits_with_zero() {
    assert_eq!(
        step(HostState::Starting, EXIT),
        (HostState::Exited { code: 0 }, HostAction::Exit { code: 0 })
    );
}

#[test]
fn window_close_shuts_down_normally() {
    assert_eq!(
        step(HostState::Running, HostEvent::WindowClosed),
        (HostState::Exited { code: 0 }, HostAction::Shutdown)
    );
    assert_eq!(
        step(HostState::Starting, HostEvent::WindowClosed),
        (HostState::Starting, HostAction::Ignore)
    );
}

#[test]
fn init_events_ignored_once_running() {
    assert_eq!(
        step(HostState::Running, HostEvent::RuntimeFailed),
        (HostState::Running, HostAction::Ignore)
    );
    assert_eq!(
        step(HostState::Running, HostEvent::RuntimeReady),
        (HostState::Running, HostAction::Ignore)
    );
}

#[test]
fn terminated_host_ignores_events() {
    let events = [HostEvent::RuntimeReady, HostEvent::RuntimeFailed, EXIT, HostEvent::WindowClosed];
    for e in events {
        assert_eq!(step(HostState::Aborted, e), (HostState::Aborted, HostAction::Ignore));
        let done = HostState::Exited { code: 0 };
        assert_eq!(step(done, e), (done, HostAction::Ignore));
    }
}

#[test]
fn empty_trace_keeps_state() {
    assert_eq!(replay(HostState::Starting, &Vec::new()), HostState::Starting);
    assert_eq!(replay(HostState::Running, &Vec::new()), HostState::Running);
}

#[test]
fn running_only_after_ready() {
    let trace = vec![HostEvent::WindowClosed, HostEvent::RuntimeReady];
    assert!(is_running(replay(HostState::Starting, &trace)));
    let no_ready = vec![HostEvent::WindowClosed, HostEvent::RuntimeFailed];
    assert!(!is_running(replay(HostState::Starting, &no_ready)));
}
