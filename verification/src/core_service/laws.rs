//! What holds of turns as a whole, whatever the process, the user and the stream
//! do.

use vstd::prelude::*;

use crate::core_service::course::{
    advanced, begun, handled, lingered, noted_all, passing, received, ActionView, CourseView,
    GraceView, LineView, NewsView, Stage,
};
use crate::core_service::event::{
    has_cancellation, lemma_no_new_cancellation, without_completion, EventView,
};
use crate::core_service::service::{
    admission, live_request_id, mutated, query_ended, reload_taken, run_cancelled, run_ended, stop_of, taken_up,
    with_process, Admission, ChildStatus, ServiceCommand, ServiceFlags, StepKind, StopStep,
    TurnFollowUp,
};
use crate::core_service::turn::{
    cancellations_name_their_run, commit_of, error_with_stderr, fresh_process, serves, settled,
    Capabilities, ProcessView, RequestView, SignalView, TurnView,
};
use crate::core_service::wire::{
    control_tree, query_step, raw_input_is_optional, registry_tree, user_tree, QueryErrorView,
    QueryStepView, RegistryCommand, RegistrySignal,
};
use crate::core_service::writer::{
    writer_step, ApprovalResponse, Surroundings, Writer, WriterAction, WriterInput,
};
use crate::text::{decimal, trimmed};
use crate::tree::{json_read, json_tree, Tree};

verus! {

/// The live process takes a turn exactly when it runs and is bound to the mode,
/// the scope and the session that the turn asks for. Otherwise it is stopped, and
/// the process started in its place is bound to what the turn asks for.
pub proof fn turns_run_on_a_process_of_their_session(
    process: ProcessView,
    exited: bool,
    request: RequestView,
    expected_stop: bool,
)
    ensures
        ({
            let (course, step) = begun(Some(process), exited, request);
            let bound = process.session_id == request.session_id && process.workspace_scope
                == request.session_scope && process.approval_mode == request.mode;
            &&& step.action is Stop <==> exited || !bound
            &&& !(step.action is Stop) ==> course.process == Some(process)
            &&& step.action is Stop ==> {
                let (empty, spawn) = advanced(course, NewsView::Stopped, false, expected_stop);
                let (next, _) = advanced(empty, NewsView::Spawned(Ok(())), false, expected_stop);
                &&& course.process is None
                &&& spawn.action is Spawn
                &&& next.process is Some
                &&& next.process->0.session_id == request.session_id
                &&& next.process->0.workspace_scope == request.session_scope
                &&& next.process->0.approval_mode == request.mode
                &&& !next.process->0.initialized
            }
        }),
{
}

/// Two turns that one process can serve ask for the same mode, scope and session.
pub proof fn one_process_serves_one_session(
    process: ProcessView,
    first: RequestView,
    second: RequestView,
)
    requires
        serves(process, false, first),
    ensures
        serves(process, false, second) <==> first.session_id == second.session_id
            && first.session_scope == second.session_scope && first.mode == second.mode,
        !serves(process, true, second),
{
}

/// A process that was just started serves the turn it was started for, knows
/// nothing yet and was promised nothing.
pub proof fn fresh_processes_serve_their_turn(request: RequestView)
    ensures
        serves(fresh_process(request), false, request),
        !fresh_process(request).initialized,
        fresh_process(request).session_resumable is None,
        !fresh_process(request).capabilities.provider_initialize_seen,
        !fresh_process(request).capabilities.can_handle_approval_receipt,
{
}

/// A process that is there already is not started again, and a missing one is
/// started first.
pub proof fn missing_processes_are_started(exited: bool, request: RequestView)
    ensures
        begun(None, exited, request).1.action is Spawn,
        begun(None, exited, request).1.show.len() == 0,
        begun(None, exited, request).0.request == request,
{
}

/// A process is initialized before it gets the user's message, and only once.
pub proof fn initialization_comes_first(process: ProcessView, request: RequestView, expected_stop: bool)
    requires
        serves(process, false, request),
    ensures
        ({
            let (course, step) = begun(Some(process), false, request);
            let started = advanced(course, NewsView::Sent(Ok(())), false, expected_stop).1;
            &&& !process.initialized ==> step.action is SendInitialize && !course.turn.user_turn_sent
            &&& process.initialized ==> step.action == ActionView::SendUserTurn(
                process.capabilities.provider_initialize_seen,
            ) && course.turn.user_turn_sent
            &&& started.action is StartWriter
            &&& started.show == seq![
                EventView::StatusChanged(
                    request.run_id,
                    "starting"@,
                    "using persistent cosh-core runtime"@,
                ),
            ]
        }),
{
}

/// What the process announces is kept for later turns, and the user's message
/// follows the first announcement at once.
pub proof fn announcements_are_kept(
    c: CourseView,
    capabilities: Capabilities,
    cancelled: bool,
    expected_stop: bool,
)
    requires
        c.stage == Stage::Handling,
        c.process is Some,
    ensures
        ({
            let news = NewsView::Line(LineView::Initialized(Ok(capabilities)));
            let (next, step) = advanced(c, news, cancelled, expected_stop);
            let waited = c.turn.awaiting_initialize && !c.turn.user_turn_sent;
            &&& next.process is Some
            &&& next.process->0.capabilities == capabilities
            &&& next.process->0.session_id == c.process->0.session_id
            &&& next.process->0.initialized == (c.process->0.initialized || waited)
            &&& step.action is SendUserTurn <==> waited
            &&& !waited ==> step.action is Receive
            &&& next.turn.transport_error == c.turn.transport_error
        }),
{
}

/// A failed initialization, a broken line and a message that did not go out break
/// the transport with their own reason.
pub proof fn failures_keep_their_reason(c: CourseView, reason: Seq<char>, cancelled: bool, expected_stop: bool)
    ensures
        c.stage == Stage::Handling ==> {
            let init = NewsView::Line(LineView::Initialized(Err(reason)));
            let line = NewsView::Line(LineView::Broken(reason));
            &&& advanced(c, init, cancelled, expected_stop).0.turn.transport_error == Some(reason)
            &&& advanced(c, line, cancelled, expected_stop).0.turn.transport_error == Some(reason)
        },
        c.stage == Stage::Sending ==> advanced(
            c,
            NewsView::Sent(Err(reason)),
            cancelled,
            expected_stop,
        ).0.turn.transport_error == Some(reason),
        c.stage == Stage::Spawning ==> advanced(
            c,
            NewsView::Spawned(Err(reason)),
            cancelled,
            expected_stop,
        ).1.action == ActionView::End(Err(reason)),
        c.stage == Stage::Initializing || c.stage == Stage::Opening ==> advanced(
            c,
            NewsView::Sent(Err(reason)),
            cancelled,
            expected_stop,
        ).1.action == ActionView::End(Err(reason)),
        c.stage == Stage::Receiving ==> advanced(
            c,
            NewsView::Received(SignalView::Timeout(Some(reason), false)),
            cancelled,
            expected_stop,
        ).0.turn.transport_error == Some(reason),
{
}

/// A stream that ends without anybody having asked for it fails the turn: with the
/// reason of the stream, and with what the process said on its error output.
pub proof fn unexpected_ends_fail_with_their_reason(
    c: CourseView,
    reason: Seq<char>,
    stderr: Seq<char>,
    later: bool,
    stop_later: bool,
)
    requires
        c.stage == Stage::Receiving,
    ensures
        ({
            let end = NewsView::Received(SignalView::StreamError(reason));
            let (asked, step) = advanced(c, end, false, false);
            let told = advanced(asked, NewsView::Stderr(stderr), later, stop_later).0;
            &&& step.action is ReadStderr
            &&& told.turn.transport_error is Some
            &&& told.turn.transport_error->0.len() >= reason.len()
            &&& told.turn.transport_error->0.take(reason.len() as int) == reason
            &&& trimmed(stderr).len() == 0 ==> told.turn.transport_error->0 == reason
            &&& trimmed(stderr).len() > 0 ==> {
                let whole = told.turn.transport_error->0;
                whole.skip(whole.len() - trimmed(stderr).len()) == trimmed(stderr)
            }
        }),
{
    let whole = error_with_stderr(reason, stderr);
    assert(whole.take(reason.len() as int) =~= reason);
    assert(whole.skip(whole.len() - trimmed(stderr).len()) =~= trimmed(stderr)
        || trimmed(stderr).len() == 0);
}

/// An exited process and a closed stream fail the turn likewise, unless it was
/// cancelled; a process that still runs is waited for.
pub proof fn silent_processes_are_judged(c: CourseView, cancelled: bool, expected_stop: bool)
    requires
        c.stage == Stage::Receiving,
    ensures
        ({
            let waiting = NewsView::Received(SignalView::Timeout(None, false));
            let gone = NewsView::Received(SignalView::Timeout(None, true));
            let closed = NewsView::Received(SignalView::Disconnected);
            let line = NewsView::Received(SignalView::Line);
            &&& advanced(c, waiting, cancelled, expected_stop).1.action is Receive
            &&& advanced(c, waiting, cancelled, expected_stop).0.turn == c.turn
            &&& advanced(c, line, cancelled, expected_stop).1.action is Handle
            &&& advanced(c, gone, cancelled, expected_stop).1.action is ReadStderr <==> !cancelled
                && !expected_stop
            &&& advanced(c, closed, cancelled, expected_stop).1.action is ReadStderr <==> !cancelled
            &&& advanced(c, gone, cancelled, expected_stop).0.turn.teardown_break
                == (c.turn.teardown_break || (!cancelled && expected_stop))
            &&& advanced(c, closed, cancelled, expected_stop).0.turn.transport_error
                == c.turn.transport_error
        }),
{
}

/// Of the events of a line, those that end the turn are held back and all others
/// shown, each in the order in which they came.
pub proof fn events_are_shown_or_held(turn: TurnView, events: Seq<EventView>)
    ensures
        passing(events) == events.filter(|e: EventView| !ends_turn(e)),
        noted_all(turn, events).terminal_events == turn.terminal_events + events.filter(
            |e: EventView| ends_turn(e),
        ),
        noted_all(turn, events).completed <==> turn.completed || exists|i: int|
            0 <= i < events.len() && #[trigger] events[i] is AgentCompleted,
        noted_all(turn, events).failed <==> turn.failed || exists|i: int|
            0 <= i < events.len() && (#[trigger] events[i] is AgentFailed
                || events[i] is AgentCancelled),
        noted_all(turn, events).transport_error == turn.transport_error,
    decreases events.len(),
{
    reveal(Seq::filter);
    if events.len() > 0 {
        let rest = events.drop_last();
        events_are_shown_or_held(turn, rest);
        let last = events.last();
        assert(forall|i: int| 0 <= i < rest.len() ==> rest[i] == events[i]);
        assert(events[events.len() - 1] == last);
        if last is AgentCompleted {
            assert(noted_all(turn, events).completed);
        }
        if !noted_all(turn, rest).completed {
            assert forall|i: int| 0 <= i < rest.len() implies !(#[trigger] events[i] is AgentCompleted) by {
                assert(rest[i] == events[i]);
            }
        } else if !turn.completed {
            let i = choose|i: int| 0 <= i < rest.len() && #[trigger] rest[i] is AgentCompleted;
            assert(events[i] is AgentCompleted);
        }
        if !noted_all(turn, rest).failed {
            assert forall|i: int| 0 <= i < rest.len() implies !(#[trigger] events[i] is AgentFailed
                || events[i] is AgentCancelled) by {
                assert(rest[i] == events[i]);
            }
        } else if !turn.failed {
            let i = choose|i: int|
                0 <= i < rest.len() && (#[trigger] rest[i] is AgentFailed || rest[i] is AgentCancelled);
            assert(events[i] is AgentFailed || events[i] is AgentCancelled);
        }
        assert(turn.terminal_events + rest.filter(|e: EventView| ends_turn(e)).push(last)
            =~= (turn.terminal_events + rest.filter(|e: EventView| ends_turn(e))).push(last));
    } else {
        assert(turn.terminal_events + events.filter(|e: EventView| ends_turn(e))
            =~= turn.terminal_events);
        assert(passing(events) =~= events.filter(|e: EventView| !ends_turn(e)));
    }
}

/// Completion, failure and cancellation end a turn.
pub open spec fn ends_turn(event: EventView) -> bool {
    match event {
        EventView::AgentCompleted(_) => true,
        EventView::AgentFailed(_, _) => true,
        EventView::AgentCancelled(_, _) => true,
        EventView::StatusChanged(_, _, _) => false,
        EventView::Output(_) => false,
    }
}

/// Lines are taken until one ends the turn; behind that one there is a grace
/// period.
pub proof fn results_end_the_stream(
    c: CourseView,
    events: Seq<EventView>,
    cancelled: bool,
    expected_stop: bool,
)
    requires
        c.stage == Stage::Handling,
        c.turn.transport_error is None,
        c.turn.terminal_events.len() == 0,
    ensures
        ({
            let news = NewsView::Line(LineView::Events(events, None));
            let (next, step) = advanced(c, news, cancelled, expected_stop);
            let ending = events.filter(|e: EventView| ends_turn(e));
            &&& step.show == events.filter(|e: EventView| !ends_turn(e))
            &&& next.turn.terminal_events == ending
            &&& step.action is Receive <==> ending.len() == 0
            &&& step.action is Linger <==> ending.len() > 0
        }),
{
    events_are_shown_or_held(c.turn, events);
    assert(c.turn.terminal_events + events.filter(|e: EventView| ends_turn(e)) =~= events.filter(
        |e: EventView| ends_turn(e),
    ));
}

/// Dropping the completions drops nothing else.
pub proof fn only_completions_are_dropped(events: Seq<EventView>)
    ensures
        without_completion(events) == events.filter(|e: EventView| !(e is AgentCompleted)),
    decreases events.len(),
{
    reveal(Seq::filter);
    if events.len() > 0 {
        only_completions_are_dropped(events.drop_last());
    } else {
        assert(without_completion(events) =~= events.filter(|e: EventView| !(e is AgentCompleted)));
    }
}

/// Behind a result only a recommendation to compact is welcome: it is shown and
/// changes nothing. Any other output breaks the transport, and an ended stream
/// costs the process but not the turn.
pub proof fn output_behind_the_result_is_judged(
    c: CourseView,
    events: Seq<EventView>,
    cancelled: bool,
    expected_stop: bool,
)
    requires
        c.stage == Stage::Lingering,
        c.turn.transport_error is None,
    ensures
        ({
            let came = advanced(c, NewsView::Lingered(GraceView::Events(events)), cancelled, expected_stop);
            let silent = advanced(c, NewsView::Lingered(GraceView::Timeout), cancelled, expected_stop);
            let gone = advanced(c, NewsView::Lingered(GraceView::Disconnected), cancelled, expected_stop);
            let ended = advanced(
                c,
                NewsView::Lingered(GraceView::StreamError("cosh-core output reached EOF"@)),
                cancelled,
                expected_stop,
            );
            let welcome = events.len() > 0 && forall|i: int|
                0 <= i < events.len() ==> {
                    &&& #[trigger] events[i] is StatusChanged
                    &&& events[i]->StatusChanged_1.len() >= "compaction_recommended_v1:"@.len()
                    &&& events[i]->StatusChanged_1.take(
                        "compaction_recommended_v1:"@.len() as int,
                    ) == "compaction_recommended_v1:"@
                };
            &&& came.0.turn.transport_error is None <==> welcome
            &&& welcome ==> came.1.show == events && came.0.turn == c.turn
            &&& !welcome ==> came.1.show.len() == 0 && came.0.turn.transport_error == Some(
                "cosh-core emitted output after the terminal Agent result"@,
            )
            &&& silent.0.turn == c.turn
            &&& gone.0.turn == (TurnView { reset_after_turn: true, ..c.turn })
            &&& ended.0.turn == (TurnView { reset_after_turn: true, ..c.turn })
            &&& came.1.action is JoinWriter && silent.1.action is JoinWriter
            &&& gone.1.action is JoinWriter && ended.1.action is JoinWriter
        }),
{
    let came = advanced(c, NewsView::Lingered(GraceView::Events(events)), cancelled, expected_stop);
    let mark = "compaction_recommended_v1:"@;
    assert forall|i: int| 0 <= i < events.len() implies (#[trigger] events[i]).may_trail() == ({
        &&& events[i] is StatusChanged
        &&& events[i]->StatusChanged_1.len() >= mark.len()
        &&& events[i]->StatusChanged_1.take(mark.len() as int) == mark
    }) by {
        if events[i] is StatusChanged {
            let phase = events[i]->StatusChanged_1;
            if phase.len() >= mark.len() {
                assert(phase.take(mark.len() as int) =~= phase.subrange(0, mark.len() as int));
            }
        }
    }
}

/// The first failure of a turn is the one that is reported: a writer that fails
/// later does not replace it.
pub proof fn the_first_failure_counts(
    c: CourseView,
    failure: Option<Seq<char>>,
    cancelled: bool,
    expected_stop: bool,
)
    requires
        c.stage == Stage::Joining,
    ensures
        ({
            let (next, step) = advanced(c, NewsView::WriterJoined(failure), cancelled, expected_stop);
            &&& next.turn.transport_error == (if c.turn.transport_error is Some {
                c.turn.transport_error
            } else {
                failure
            })
            &&& next.turn.terminal_events == c.turn.terminal_events
            &&& next.had_result == (c.turn.terminal_events.len() > 0)
            &&& step.action == ActionView::FinishStream(!cancelled && !c.turn.teardown_break)
        }),
{
}

/// What the stream says about resuming the session is remembered by the process;
/// where it says nothing, what is known stays.
pub proof fn resumability_is_remembered(
    c: CourseView,
    events: Seq<EventView>,
    failure: Option<Seq<char>>,
    observed: Option<bool>,
    cancelled: bool,
    expected_stop: bool,
)
    requires
        c.stage == Stage::Finishing,
        c.process is Some,
    ensures
        ({
            let news = NewsView::StreamFinished(events, failure, observed);
            let (next, step) = advanced(c, news, cancelled, expected_stop);
            let known = next.process->0.session_resumable;
            &&& next.process is Some
            &&& observed is Some ==> known == observed
            &&& observed is None ==> known == c.process->0.session_resumable
            &&& step.action == ActionView::Judge(known)
            &&& c.finishes ==> step.show == events.filter(|e: EventView| !ends_turn(e))
            &&& !c.finishes ==> step.show.len() == 0
            &&& next.process->0.session_id == c.process->0.session_id
        }),
{
    events_are_shown_or_held(c.turn, events);
}

/// A turn that nobody gave up keeps its outcome: its events, and whether it
/// completed or failed. Only a transport that broke before any result takes the
/// completion away.
pub proof fn settling_keeps_what_happened(run_id: Seq<char>, turn: TurnView, had_result: bool, cancelled: bool)
    ensures
        ({
            let end = settled(run_id, turn, had_result, cancelled);
            let broken = turn.transport_error is Some && !had_result;
            &&& !cancelled && !turn.teardown_break && !broken ==> end == turn
            &&& end.transport_error == turn.transport_error
            &&& end.reset_after_turn == turn.reset_after_turn
            &&& !broken ==> end.completed == turn.completed && end.failed == turn.failed
            &&& broken ==> !end.completed && end.failed
            &&& !cancelled && !turn.teardown_break && broken ==> end.terminal_events
                == turn.terminal_events.filter(|e: EventView| !(e is AgentCompleted))
            &&& !cancelled && !turn.teardown_break && !has_cancellation(turn.terminal_events)
                ==> !has_cancellation(end.terminal_events)
        }),
{
    only_completions_are_dropped(turn.terminal_events);
    if !has_cancellation(turn.terminal_events) {
        lemma_no_new_cancellation(turn.terminal_events);
    }
}

/// An abort is told apart by who asked for it.
pub proof fn aborts_say_who_asked(run_id: Seq<char>, turn: TurnView, had_result: bool, cancelled: bool)
    requires
        cancelled || turn.teardown_break,
        !has_cancellation(turn.terminal_events),
    ensures
        settled(run_id, turn, had_result, cancelled).terminal_events.last()
            == EventView::AgentCancelled(
            run_id,
            if cancelled {
                "user requested cancellation"@
            } else {
                "cosh-core runtime shut down during turn"@
            },
        ),
{
    cancellations_name_their_run(run_id, turn, had_result, cancelled);
}

/// A session is committed as completed exactly when the turn was not given up and
/// either completed or failed in a way that keeps the session; as failed exactly
/// when it was given up or failed in a way that does not. The process is bound to
/// a session only if that can be resumed.
pub proof fn sessions_are_committed_by_outcome(
    turn: TurnView,
    cancelled: bool,
    retains: bool,
    resumable: Option<bool>,
)
    ensures
        ({
            let plan = commit_of(turn, cancelled, retains, resumable);
            let given_up = cancelled || turn.teardown_break;
            &&& plan.record_cancellation == given_up
            &&& plan.completed <==> !given_up && (turn.completed || retains)
            &&& plan.failed <==> given_up || (turn.failed && !retains)
            &&& plan.bind_session ==> resumable != Some(false)
            &&& !given_up && turn.completed && !turn.failed && resumable != Some(false)
                ==> plan.bind_session
            &&& !given_up && retains && resumable != Some(false) ==> plan.bind_session
            &&& turn.failed && (given_up || !retains) ==> !plan.bind_session
            &&& !turn.completed && (given_up || !retains) ==> !plan.bind_session
        }),
{
}

/// The commit is the one that the outcome asks for, and it binds the process to
/// the pending session only where the plan says so.
pub proof fn commits_bind_the_pending_session(
    c: CourseView,
    events: Seq<EventView>,
    pending: Option<Seq<char>>,
    retains: bool,
    cancelled: bool,
    expected_stop: bool,
)
    ensures
        c.stage == Stage::Judging ==> {
            let (next, step) = advanced(c, NewsView::Judged(retains), cancelled, expected_stop);
            let plan = commit_of(c.turn, cancelled, retains, c.process->0.session_resumable);
            step.action == ActionView::Commit(plan) && next.plan == plan && next.turn == c.turn
        },
        c.stage == Stage::Committing && c.process is Some ==> {
            let news = NewsView::Committed(events, pending);
            let (next, step) = advanced(c, news, cancelled, expected_stop);
            &&& step.action is Reload
            &&& next.process is Some
            &&& next.process->0.session_id == (if c.plan.bind_session {
                pending
            } else {
                c.process->0.session_id
            })
            &&& next.turn.terminal_events == events
            &&& next.turn.transport_error == c.turn.transport_error
        },
{
}

/// Behind a committed turn, the process serves the next turn of the session that
/// was committed, in the same mode and scope.
pub proof fn committed_sessions_go_on(
    c: CourseView,
    events: Seq<EventView>,
    pending: Option<Seq<char>>,
    next: RequestView,
)
    requires
        c.stage == Stage::Committing,
        c.plan.bind_session,
        c.process is Some,
        serves(c.process->0, false, c.request),
        next.mode == c.request.mode,
        next.session_scope == c.request.session_scope,
    ensures
        ({
            let after = advanced(c, NewsView::Committed(events, pending), false, false).0;
            after.process is Some && (serves(after.process->0, false, next) <==> next.session_id
                == pending)
        }),
{
}

/// At its end a turn shows the events that were held back. It fails exactly when
/// its transport broke, with that reason; otherwise it says whether the process
/// has to be replaced.
pub proof fn turns_end_with_what_was_held_back(
    c: CourseView,
    reload_failed: bool,
    cancelled: bool,
    expected_stop: bool,
)
    requires
        c.stage == Stage::Reloading,
    ensures
        ({
            let (next, step) = advanced(c, NewsView::Reloaded(reload_failed), cancelled, expected_stop);
            let replace = cancelled || c.turn.teardown_break || c.turn.reset_after_turn || reload_failed;
            &&& step.show == c.turn.terminal_events
            &&& c.turn.transport_error is Some ==> step.action == ActionView::End(
                Err(c.turn.transport_error->0),
            )
            &&& c.turn.transport_error is None ==> step.action == ActionView::End(Ok(replace))
            &&& next.process == c.process
        }),
{
}

/// Whether `next` is the same process as `before`, of the same session unless that
/// may change.
spec fn same_process(before: Option<ProcessView>, next: Option<ProcessView>, session: bool) -> bool {
    before is Some ==> {
        &&& next is Some
        &&& next->0.approval_mode == before->0.approval_mode
        &&& next->0.workspace_scope == before->0.workspace_scope
        &&& session ==> next->0.session_id == before->0.session_id
        &&& before->0.initialized ==> next->0.initialized
    }
}

proof fn lemma_lines_keep_the_process(c: CourseView, line: LineView)
    ensures
        handled(c, line).0.request == c.request,
        same_process(c.process, handled(c, line).0.process, true),
{
}

proof fn lemma_signals_keep_the_process(c: CourseView, signal: SignalView, cancelled: bool, expected_stop: bool)
    ensures
        received(c, signal, cancelled, expected_stop).0.request == c.request,
        received(c, signal, cancelled, expected_stop).0.process == c.process,
{
}

proof fn lemma_grace_keeps_the_process(c: CourseView, signal: GraceView)
    ensures
        lingered(c, signal).0.request == c.request,
        lingered(c, signal).0.process == c.process,
{
}

/// A step never changes what the turn asks for, nor the mode and scope of the
/// process that serves it; and the session of that process changes only in the
/// commit.
pub proof fn turns_keep_their_process(c: CourseView, news: NewsView, cancelled: bool, expected_stop: bool)
    requires
        c.stage != Stage::Spawning,
    ensures
        advanced(c, news, cancelled, expected_stop).0.request == c.request,
        c.process is Some ==> {
            let next = advanced(c, news, cancelled, expected_stop).0.process;
            &&& next is Some
            &&& next->0.approval_mode == c.process->0.approval_mode
            &&& next->0.workspace_scope == c.process->0.workspace_scope
            &&& c.stage != Stage::Committing ==> next->0.session_id == c.process->0.session_id
            &&& c.process->0.initialized ==> next->0.initialized
        },
{
    match (c.stage, news) {
        (Stage::Handling, NewsView::Line(line)) => lemma_lines_keep_the_process(c, line),
        (Stage::Receiving, NewsView::Received(signal)) => lemma_signals_keep_the_process(
            c,
            signal,
            cancelled,
            expected_stop,
        ),
        (Stage::Lingering, NewsView::Lingered(signal)) => lemma_grace_keeps_the_process(c, signal),
        _ => {},
    }
}

/// An idle service takes a turn, a busy one refuses it unless the turn that it
/// serves was cancelled; then one turn waits, and the cancellation is used up.
pub proof fn turns_are_admitted_one_by_one(flags: ServiceFlags)
    ensures
        ({
            let (next, answer) = admission(flags);
            &&& answer == Admission::Started <==> !flags.busy
            &&& answer == Admission::Queued <==> flags.busy && flags.cancel_pending
            &&& answer == Admission::Rejected ==> next == flags
            &&& next.busy
            &&& next.live == flags.live && next.reload_pending == flags.reload_pending
            &&& answer == Admission::Queued ==> !next.cancel_pending
            &&& answer == Admission::Started ==> next.cancel_pending == flags.cancel_pending
        }),
{
}

/// However a turn ends, the next one can start at once. The process outlives
/// exactly the turns that did not fail and did not ask for another one, and every
/// failure is told.
pub proof fn ended_turns_make_room(flags: ServiceFlags, result: Result<bool, String>)
    ensures
        ({
            let (next, follow) = run_ended(flags, result);
            &&& admission(next).1 == Admission::Started
            &&& !next.cancel_pending
            &&& next.live <==> flags.live && result == Ok::<bool, String>(false)
            &&& next.reload_pending == flags.reload_pending
            &&& follow is Keep <==> result == Ok::<bool, String>(false)
            &&& result matches Err(error) ==> follow == TurnFollowUp::Report(error)
        }),
        admission(query_ended(flags, true)).1 == Admission::Started,
        admission(query_ended(flags, false)).1 == Admission::Started,
        !query_ended(flags, true).live,
        query_ended(flags, false).live == flags.live,
{
}

/// Cancelling the turn that is served lets exactly one turn wait behind it.
pub proof fn a_cancelled_turn_has_one_successor(flags: ServiceFlags)
    requires
        flags.busy,
    ensures
        ({
            let waiting = admission(run_cancelled(flags));
            &&& waiting.1 == Admission::Queued
            &&& admission(waiting.0).1 == Admission::Rejected
            &&& run_cancelled(flags).live == flags.live
            &&& run_cancelled(flags).busy
        }),
{
}

/// A live process has to reload after its extensions were changed, once; a process
/// that is started later has nothing to catch up on.
pub proof fn reloads_are_replayed_once(flags: ServiceFlags)
    ensures
        flags.live ==> reload_taken(mutated(flags, true)).1,
        !reload_taken(reload_taken(mutated(flags, true)).0).1,
        mutated(flags, false) == flags,
        !flags.live ==> mutated(flags, true) == flags,
        !reload_taken(with_process(mutated(flags, true))).1,
        with_process(flags).live,
{
}

/// A receipt goes to exactly the processes that understand it.
pub proof fn receipts_need_a_process_that_takes_them(w: Writer, id: String, around: Surroundings)
    ensures
        around.receipt_capable ==> writer_step(w, WriterInput::Receipt(id), around).1
            == WriterAction::SendReceipt(id),
        !around.receipt_capable ==> !(writer_step(w, WriterInput::Receipt(id), around).1 is SendReceipt),
        writer_step(w, WriterInput::Receipt(id), around).0 == w,
{
}

/// Answers to questions are confirmed once they went out and reported if they did
/// not; every other message that does not go out ends the writer.
pub proof fn answers_are_accounted_for(w: Writer, id: String, around: Surroundings)
    ensures
        writer_step(w, WriterInput::AnswerSent(id, true), around).1 == WriterAction::Confirm(id),
        writer_step(w, WriterInput::AnswerSent(id, false), around).1 is Refuse,
        writer_step(w, WriterInput::ReceiptSent(false), around).1 is End,
        writer_step(w, WriterInput::DecisionSent(false), around).1 is End,
        writer_step(w, WriterInput::AuthSent(false), around).1 is End,
        writer_step(w, WriterInput::AuthArrived, around).1 is SendAuth,
{
}

/// A response goes out the way its kind asks for.
pub proof fn responses_keep_their_kind(w: Writer, response: ApprovalResponse, around: Surroundings)
    ensures
        writer_step(w, WriterInput::Response(response), around).1 == (if response.decision is Answer {
            WriterAction::SendAnswer(response)
        } else {
            WriterAction::SendDecision(response)
        }),
{
}

/// While the turn goes on, the writer goes on as long as a channel is open, and
/// looks at the channel that is.
pub proof fn open_channels_are_read(w: Writer, around: Surroundings)
    requires
        !around.done,
        !around.cancelled,
    ensures
        ({
            let rounds = seq![
                writer_step(w, WriterInput::Confirmed, around).1,
                writer_step(w, WriterInput::ReceiptSent(true), around).1,
                writer_step(w, WriterInput::DecisionSent(true), around).1,
                writer_step(w, WriterInput::AuthSent(true), around).1,
                writer_step(w, WriterInput::AuthEmpty, around).1,
            ];
            forall|i: int|
                0 <= i < rounds.len() ==> {
                    &&& w.approval_open ==> #[trigger] rounds[i] is Await
                    &&& !w.approval_open && w.auth_open ==> rounds[i] is PollAuth
                    &&& !w.approval_open && !w.auth_open ==> rounds[i] is End
                }
        }),
        w.auth_open ==> writer_step(w, WriterInput::Timeout, around).1 is PollAuth,
        !writer_step(w, WriterInput::Disconnected, around).0.approval_open,
        !writer_step(w, WriterInput::AuthDisconnected, around).0.auth_open,
{
}

/// A reply counts for a command exactly when it is a registry response that names
/// it; then it says whether the command succeeded, and nothing else ends the wait
/// before the deadline but a broken stream.
pub proof fn replies_are_matched_by_name(line: String, request_id: Seq<char>, deadline: u64, now: u64)
    requires
        now < deadline,
    ensures
        ({
            let step = query_step(RegistrySignal::Line(line), request_id, deadline, now);
            let reply = json_read(trimmed(line@));
            let ours = reply is Some && reply->0.text_at("type"@) == Some("registry_response"@)
                && reply->0.text_at("request_id"@) == Some(request_id);
            &&& step is Finish <==> ours
            &&& !ours ==> step == QueryStepView::Wait((deadline - now) as u64)
            &&& ours ==> {
                let good = reply->0.bool_at("success"@) == Some(true);
                &&& step->Finish_0 is Ok <==> good
                &&& good && reply->0.member("data"@) is Some ==> step->Finish_0->Ok_0
                    == reply->0.member("data"@)->0
                &&& good && reply->0.member("data"@) is None ==> step->Finish_0->Ok_0 is Null
                &&& !good ==> step->Finish_0->Err_0 is Response
                &&& !good && reply->0.text_at("error"@) is Some ==> step->Finish_0->Err_0.message()
                    == reply->0.text_at("error"@)->0
            }
        }),
{
}

/// A broken stream is a failure of the transport, never an answer of the core.
pub proof fn broken_streams_are_no_answers(error: String, request_id: Seq<char>, deadline: u64, now: u64)
    ensures
        query_step(RegistrySignal::StreamError(error), request_id, deadline, now)
            == QueryStepView::Finish(Err(QueryErrorView::Transport(error@))),
        query_step(RegistrySignal::Timeout, request_id, deadline, now) matches QueryStepView::Finish(
            Err(QueryErrorView::Transport(_)),
        ),
        query_step(RegistrySignal::Disconnected, request_id, deadline, now)
            matches QueryStepView::Finish(Err(QueryErrorView::Transport(_))),
{
}

/// A control request says what it is, names itself, and hands its fields on.
pub proof fn control_requests_carry_their_fields(
    subtype: Seq<char>,
    request_id: Seq<char>,
    fields: Map<Seq<char>, Tree>,
    key: Seq<char>,
)
    ensures
        ({
            let tree = control_tree(subtype, request_id, Tree::Object(fields));
            let request = tree.member("request"@);
            &&& tree.text_at("type"@) == Some("control_request"@)
            &&& tree.text_at("request_id"@) == Some(request_id)
            &&& request is Some
            &&& fields.contains_key(key) ==> request->0.member(key) == Some(fields[key])
            &&& !fields.contains_key("subtype"@) ==> request->0.text_at("subtype"@) == Some(subtype)
            &&& !fields.contains_key(key) && key != "subtype"@ ==> request->0.member(key) is None
            &&& control_tree(subtype, request_id, Tree::Null).member("request"@) == Some(
                Tree::Object(Map::empty().insert("subtype"@, Tree::Text(subtype))),
            )
        }),
{
    reveal_strlit("type");
    reveal_strlit("request_id");
    reveal_strlit("request");
    assert("type"@.len() == 4 && "request_id"@.len() == 10 && "request"@.len() == 7);
}

/// A user's message carries the text, the session and the directory that it was
/// given.
pub proof fn messages_carry_what_they_are_given(
    content: Seq<char>,
    raw: Option<Seq<char>>,
    session_id: Option<Seq<char>>,
    cwd: Seq<char>,
)
    ensures
        ({
            let tree = user_tree(content, raw, session_id, cwd);
            let message = tree.member("message"@);
            let context = tree.member("shell_context"@);
            &&& tree.text_at("type"@) == Some("user"@)
            &&& session_id is Some ==> tree.text_at("session_id"@) == session_id
            &&& session_id is None ==> tree.text_at("session_id"@) == Some("default"@)
            &&& message is Some && context is Some
            &&& message->0.text_at("role"@) == Some("user"@)
            &&& message->0.text_at("content"@) == Some(content)
            &&& message->0.text_at("raw_user_input"@) == raw
            &&& context->0.text_at("cwd"@) == Some(cwd)
        }),
{
    raw_input_is_optional(content, raw, session_id, cwd);
    reveal_strlit("type");
    reveal_strlit("message");
    reveal_strlit("parent_tool_use_id");
    reveal_strlit("session_id");
    reveal_strlit("shell_context");
    reveal_strlit("role");
    reveal_strlit("content");
    reveal_strlit("raw_user_input");
    reveal_strlit("cwd");
    reveal_strlit("env");
    reveal_strlit("last_exit_code");
    assert("type"@.len() == 4 && "message"@.len() == 7 && "parent_tool_use_id"@.len() == 18
        && "session_id"@.len() == 10 && "shell_context"@.len() == 13);
    assert("role"@.len() == 4 && "content"@.len() == 7 && "raw_user_input"@.len() == 14);
    assert("cwd"@[0] == 'c' && "env"@[0] == 'e' && "last_exit_code"@.len() == 14 && "cwd"@.len() == 3);
}

/// A registry command goes out with its own name, domain, action and parameters.
pub proof fn commands_carry_what_they_ask(command: RegistryCommand)
    ensures
        registry_tree(command).text_at("type"@) == Some("registry_request"@),
        registry_tree(command).text_at("request_id"@) == Some(command.request_id@),
        registry_tree(command).text_at("domain"@) == Some(command.domain@),
        registry_tree(command).text_at("action"@) == Some(command.action@),
        registry_tree(command).member("params"@) == Some(json_tree(command.params)),
{
    reveal_strlit("type");
    reveal_strlit("request_id");
    reveal_strlit("domain");
    reveal_strlit("action");
    reveal_strlit("params");
    assert("type"@.len() == 4 && "request_id"@.len() == 10);
    assert("domain"@[0] == 'd' && "action"@[0] == 'a' && "params"@[0] == 'p');
    assert("domain"@.len() == 6 && "action"@.len() == 6 && "params"@.len() == 6);
}

/// A run that was cancelled, or a process that was told to stop, while the process
/// started stops it again; any other start goes on.
pub proof fn unwanted_processes_are_stopped(c: CourseView, cancelled: bool, expected_stop: bool)
    requires
        c.stage == Stage::Spawning,
    ensures
        ({
            let (next, step) = advanced(c, NewsView::Spawned(Ok(())), cancelled, expected_stop);
            &&& step.action is Stop <==> cancelled || expected_stop
            &&& !cancelled && !expected_stop ==> step.action is SendInitialize
            &&& next.process is Some && next.process->0.session_id == c.request.session_id
        }),
{
}

/// Only a turn with a result and a sound transport is given a grace period; any other
/// one ends its writer at once.
pub proof fn only_results_are_lingered_on(c: CourseView, reason: Seq<char>)
    requires
        c.stage == Stage::Receiving,
    ensures
        ({
            let broken = NewsView::Received(SignalView::Timeout(Some(reason), false));
            let stopped = NewsView::Received(SignalView::StreamError(reason));
            &&& advanced(c, broken, false, false).1.action is JoinWriter
            &&& c.turn.terminal_events.len() == 0 ==> advanced(c, stopped, true, false).1.action is JoinWriter
            &&& c.turn.terminal_events.len() == 0 ==> advanced(c, stopped, false, true).1.action is JoinWriter
            &&& advanced(c, stopped, false, true).0.turn.teardown_break
            &&& advanced(c, stopped, true, false).0.turn.teardown_break == c.turn.teardown_break
            &&& c.turn.terminal_events.len() > 0 && c.turn.transport_error is None ==> advanced(
                c,
                stopped,
                true,
                false,
            ).1.action is Linger
        }),
{
}

/// A turn is run, a registry command gets through where there is a process, and a
/// shutdown stops the process that there is.
pub proof fn commands_are_taken_up_in_kind(flags: ServiceFlags, has_process: bool)
    ensures
        taken_up(flags, ServiceCommand::Run, has_process).1 == StepKind::RunTurn,
        taken_up(flags, ServiceCommand::Run, has_process).0.busy,
        taken_up(flags, ServiceCommand::Registry, true).1 == StepKind::Query,
        taken_up(flags, ServiceCommand::Registry, false).1 == StepKind::Refuse,
        taken_up(flags, ServiceCommand::Registry, has_process).0 == flags,
        taken_up(flags, ServiceCommand::Shutdown, true).1 == StepKind::StopProcess,
        taken_up(flags, ServiceCommand::Shutdown, false).1 == StepKind::Leave,
        !taken_up(flags, ServiceCommand::Shutdown, has_process).0.live,
{
}

/// A child that is to end is given its time and no more.
pub proof fn children_are_given_their_time(now: u64, deadline: u64)
    ensures
        stop_of(ChildStatus::Exited, now, deadline) == StopStep::Done,
        stop_of(ChildStatus::Running, now, deadline) == StopStep::Wait <==> now < deadline,
        stop_of(ChildStatus::Running, now, deadline) == StopStep::Kill <==> now >= deadline,
        stop_of(ChildStatus::Unknown, now, deadline) == StopStep::Kill,
{
}

/// A live command is named by its process and its number.
pub proof fn live_commands_are_named(pid: u32, number: u64)
    ensures
        live_request_id(pid, number) == "live-reg-"@ + decimal(pid as nat) + "-"@ + decimal(
            number as nat,
        ),
{
}

} // verus!
