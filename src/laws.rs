use vstd::prelude::*;
use crate::lifecycle::{
    is_terminated, run, transition, Command, HostAction, HostEvent, HostState, EXIT_SUCCESS,
};

verus! {

/// Running a trace in two pieces is running it whole.
pub proof fn lemma_run_append(s: HostState, a: Seq<HostEvent>, b: Seq<HostEvent>)
    ensures
        run(s, a + b) == run(run(s, a), b),
    decreases b.len(),
{
    if b.len() > 0 {
        assert((a + b).drop_last() =~= a + b.drop_last());
        lemma_run_append(s, a, b.drop_last());
    } else {
        assert(a + b =~= a);
    }
}

/// The prefix of a trace one event longer is that event applied after the shorter one.
pub proof fn lemma_run_take_next(s: HostState, evs: Seq<HostEvent>, i: int)
    requires
        0 <= i < evs.len(),
    ensures
        run(s, evs.take(i + 1)) == transition(run(s, evs.take(i)), evs[i]).0,
{
    assert(evs.take(i + 1).drop_last() =~= evs.take(i));
}

/// A host that has ended stays as it is, whatever events follow: it cannot
/// be made to exit a second time.
pub proof fn lemma_terminated_is_final(s: HostState, evs: Seq<HostEvent>)
    requires
        is_terminated(s),
    ensures
        run(s, evs) == s,
    decreases evs.len(),
{
    if evs.len() > 0 {
        lemma_terminated_is_final(s, evs.drop_last());
    }
}

/// Invoking the exit action on a host that has not ended ends it with
/// status zero, and the action is an exit with status zero.
pub proof fn lemma_exit_app_ends_process(s: HostState)
    requires
        !is_terminated(s),
    ensures
        transition(s, HostEvent::Invoked(Command::ExitApp)) == (
            HostState::Exited { code: EXIT_SUCCESS },
            HostAction::Exit { code: EXIT_SUCCESS },
        ),
{
}

/// A normal exit reached from the start always carries status zero.
pub proof fn lemma_reachable_exit_is_success(evs: Seq<HostEvent>)
    ensures
        run(HostState::Starting, evs) is Exited ==> run(HostState::Starting, evs)
            == (HostState::Exited { code: EXIT_SUCCESS }),
    decreases evs.len(),
{
    if evs.len() > 0 {
        lemma_reachable_exit_is_success(evs.drop_last());
    }
}

/// Wherever in a trace the exit action is invoked, however often, and
/// whatever comes after, the host ends with status zero, unless it had
/// already aborted.
pub proof fn lemma_exit_app_anywhere(evs: Seq<HostEvent>, i: int)
    requires
        0 <= i < evs.len(),
        evs[i] == HostEvent::Invoked(Command::ExitApp),
        run(HostState::Starting, evs.take(i)) !is Aborted,
    ensures
        run(HostState::Starting, evs) == (HostState::Exited { code: EXIT_SUCCESS }),
        forall|j: int|
            i < j <= evs.len() ==> run(HostState::Starting, #[trigger] evs.take(j))
                == (HostState::Exited { code: EXIT_SUCCESS }),
{
    let done = HostState::Exited { code: EXIT_SUCCESS };
    let before = run(HostState::Starting, evs.take(i));
    lemma_reachable_exit_is_success(evs.take(i));
    lemma_run_take_next(HostState::Starting, evs, i);
    assert(run(HostState::Starting, evs.take(i + 1)) == done);
    assert forall|j: int| i < j <= evs.len() implies run(HostState::Starting, #[trigger] evs.take(j))
        == done by {
        let rest = evs.subrange(i + 1, j);
        assert(evs.take(j) =~= evs.take(i + 1) + rest);
        lemma_run_append(HostState::Starting, evs.take(i + 1), rest);
        lemma_terminated_is_final(done, rest);
    }
    assert(evs.take(evs.len() as int) =~= evs);
}

/// Initialization has two outcomes only: success enters the running state,
/// where the exit action is accepted, and failure aborts. No other event
/// brings a starting host into the running state.
pub proof fn lemma_init_is_all_or_nothing(e: HostEvent)
    ensures
        (transition(HostState::Starting, e).0 is Running) <==> e == HostEvent::RuntimeReady,
        e == HostEvent::RuntimeReady ==> transition(HostState::Starting, e) == (
            HostState::Running,
            HostAction::EnterEventLoop,
        ),
        e == HostEvent::RuntimeFailed ==> transition(HostState::Starting, e) == (
            HostState::Aborted,
            HostAction::Abort,
        ),
        transition(HostState::Running, HostEvent::Invoked(Command::ExitApp)).1 == (HostAction::Exit {
            code: EXIT_SUCCESS,
        }),
{
}

/// A host is running only after initialization succeeded: somewhere in its
/// trace the runtime reported ready while the host was still starting.
pub proof fn lemma_running_needs_ready(evs: Seq<HostEvent>)
    requires
        run(HostState::Starting, evs) is Running,
    ensures
        exists|i: int|
            0 <= i < evs.len() && evs[i] == HostEvent::RuntimeReady && run(
                HostState::Starting,
                #[trigger] evs.take(i),
            ) is Starting,
    decreases evs.len(),
{
    let n = evs.len() - 1;
    let prev = evs.drop_last();
    assert(evs.take(n) =~= prev);
    if run(HostState::Starting, prev) is Running {
        lemma_running_needs_ready(prev);
        let i = choose|i: int|
            0 <= i < prev.len() && prev[i] == HostEvent::RuntimeReady && run(
                HostState::Starting,
                #[trigger] prev.take(i),
            ) is Starting;
        assert(prev.take(i) =~= evs.take(i));
    }
}

/// Once initialization fails the host never reaches the running state: it
/// stays aborted through every later event.
pub proof fn lemma_failed_init_never_runs(evs: Seq<HostEvent>, i: int)
    requires
        0 <= i < evs.len(),
        evs[i] == HostEvent::RuntimeFailed,
        run(HostState::Starting, evs.take(i)) is Starting,
    ensures
        forall|j: int|
            i < j <= evs.len() ==> run(HostState::Starting, #[trigger] evs.take(j))
                == HostState::Aborted,
        run(HostState::Starting, evs) == HostState::Aborted,
{
    lemma_run_take_next(HostState::Starting, evs, i);
    assert forall|j: int| i < j <= evs.len() implies run(HostState::Starting, #[trigger] evs.take(j))
        == HostState::Aborted by {
        let rest = evs.subrange(i + 1, j);
        assert(evs.take(j) =~= evs.take(i + 1) + rest);
        lemma_run_append(HostState::Starting, evs.take(i + 1), rest);
        lemma_terminated_is_final(HostState::Aborted, rest);
    }
    assert(evs.take(evs.len() as int) =~= evs);
}

} // verus!
