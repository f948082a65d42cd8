//! The course of an agent turn, from the choice of the process to its report.
//!
//! The course asks for one piece of work after the other and is told how each
//! of them went. Whoever drives it owns the process, its streams and the
//! parsers of its lines.

use vstd::prelude::*;
use vstd::string::*;

use crate::core_service::event::{event_views, has_cancellation, AgentEvent, EventView};
use crate::core_service::turn::{
    aborted_turns_report_cancellation, all_trailing, bind_session, commit_of, commit_plan, error_with_stderr, fail_transport, finish_turn,
    fresh_process, must_replace, new_turn, note_resumable, on_event, on_grace, on_initialize, on_signal,
    on_user_turn, on_writer_failure, open_turn, process_error, serves, settle, settled,
    signal_meaning, spawned_process, turn_result, Capabilities, CommitPlan, GraceSignal, GraceStep,
    InitializeStep, ProcessState, ProcessView, RequestView, Signal, SignalStep, SignalStepView,
    SignalView, Turn, TurnRequest, TurnView,
};
use crate::text::opt_view;

verus! {

/// What the course waits for.
#[derive(Clone, Copy, Debug, PartialEq, Eq, Structural)]
pub enum Stage {
    /// The end of a process that does not serve this turn.
    Replacing,
    /// A new process.
    Spawning,
    /// The end of a process that started for a cancelled run.
    Stopping,
    /// The initialize request to be sent.
    Initializing,
    /// The user's message to be sent, before the first line.
    Opening,
    /// The response writer.
    Announcing,
    /// The next line.
    Receiving,
    /// The meaning of a line.
    Handling,
    /// The user's message to be sent, after the process was initialized.
    Sending,
    /// What the process said on its error output.
    Explaining,
    /// What comes behind the result.
    Lingering,
    /// The end of the response writer.
    Joining,
    /// The end of the stream.
    Finishing,
    /// Whether the session is retained.
    Judging,
    /// The commit of the session.
    Committing,
    /// A deferred reload.
    Reloading,
    /// Nothing.
    Finished,
}

/// A piece of work that the course asks for.
pub enum Action {
    /// Stop the process.
    Stop,
    /// Start a process.
    Spawn,
    /// Send the initialize request.
    SendInitialize,
    /// Replay a deferred reload and send the user's message. Says whether the
    /// turn first gets the capabilities that the process announced earlier.
    SendUserTurn(bool),
    /// Start the response writer.
    StartWriter,
    /// Wait for a line.
    Receive,
    /// Find out what the line means.
    Handle,
    /// Collect the error output.
    ReadStderr,
    /// Wait for the grace period behind the result.
    Linger,
    /// End the response writer.
    JoinWriter,
    /// End the stream; says whether its pending events still count.
    FinishStream(bool),
    /// Find out whether the failure keeps the session, given whether it can be
    /// resumed.
    Judge(Option<bool>),
    /// Commit the session.
    Commit(CommitPlan),
    /// Replay a deferred reload.
    Reload,
    /// Nothing; an answer to another question came in.
    Wait,
    /// The turn is over: its failure, or whether the process has to be
    /// replaced.
    End(Result<bool, String>),
}

/// What an [`Action`] says.
#[verifier::ext_equal]
pub enum ActionView {
    Stop,
    Spawn,
    SendInitialize,
    SendUserTurn(bool),
    StartWriter,
    Receive,
    Handle,
    ReadStderr,
    Linger,
    JoinWriter,
    FinishStream(bool),
    Judge(Option<bool>),
    Commit(CommitPlan),
    Reload,
    Wait,
    End(Result<bool, Seq<char>>),
}

impl View for Action {
    type V = ActionView;

    open spec fn view(&self) -> ActionView {
        match self {
            Action::Stop => ActionView::Stop,
            Action::Spawn => ActionView::Spawn,
            Action::SendInitialize => ActionView::SendInitialize,
            Action::SendUserTurn(seed) => ActionView::SendUserTurn(*seed),
            Action::StartWriter => ActionView::StartWriter,
            Action::Receive => ActionView::Receive,
            Action::Handle => ActionView::Handle,
            Action::ReadStderr => ActionView::ReadStderr,
            Action::Linger => ActionView::Linger,
            Action::JoinWriter => ActionView::JoinWriter,
            Action::FinishStream(run) => ActionView::FinishStream(*run),
            Action::Judge(known) => ActionView::Judge(*known),
            Action::Commit(plan) => ActionView::Commit(*plan),
            Action::Reload => ActionView::Reload,
            Action::Wait => ActionView::Wait,
            Action::End(Ok(reset)) => ActionView::End(Ok(*reset)),
            Action::End(Err(error)) => ActionView::End(Err(error@)),
        }
    }
}

/// The next step: show these events, then do the work.
pub struct Step {
    pub show: Vec<AgentEvent>,
    pub action: Action,
}

/// What a [`Step`] says.
#[verifier::ext_equal]
pub struct StepView {
    pub show: Seq<EventView>,
    pub action: ActionView,
}

impl View for Step {
    type V = StepView;

    open spec fn view(&self) -> StepView {
        StepView { show: event_views(self.show@), action: self.action@ }
    }
}

/// What a line means.
pub enum LineMeaning {
    /// It was a question or a control request, and is dealt with.
    Handled,
    /// It broke the protocol.
    Broken(String),
    /// It answers the initialize request.
    Initialized(Result<Capabilities, String>),
    /// It holds these events; the question gate refused what comes behind them
    /// for this reason, if it did.
    Events(Vec<AgentEvent>, Option<String>),
}

/// What a [`LineMeaning`] says.
pub enum LineView {
    Handled,
    Broken(Seq<char>),
    Initialized(Result<Capabilities, Seq<char>>),
    Events(Seq<EventView>, Option<Seq<char>>),
}

impl View for LineMeaning {
    type V = LineView;

    open spec fn view(&self) -> LineView {
        match self {
            LineMeaning::Handled => LineView::Handled,
            LineMeaning::Broken(e) => LineView::Broken(e@),
            LineMeaning::Initialized(Ok(c)) => LineView::Initialized(Ok(*c)),
            LineMeaning::Initialized(Err(e)) => LineView::Initialized(Err(e@)),
            LineMeaning::Events(events, failure) => LineView::Events(
                event_views(events@),
                opt_view(*failure),
            ),
        }
    }
}

/// What the grace period brought, by its view.
pub enum GraceView {
    StreamError(Seq<char>),
    Events(Seq<EventView>),
    Timeout,
    Disconnected,
}

/// What a [`GraceSignal`] says.
pub open spec fn grace_view(signal: GraceSignal) -> GraceView {
    match signal {
        GraceSignal::StreamError(e) => GraceView::StreamError(e@),
        GraceSignal::Events(events) => GraceView::Events(event_views(events@)),
        GraceSignal::Timeout => GraceView::Timeout,
        GraceSignal::Disconnected => GraceView::Disconnected,
    }
}

/// How a piece of work went.
pub enum Event {
    Stopped,
    Spawned(Result<(), String>),
    Sent(Result<(), String>),
    WriterStarted(Result<(), String>),
    Received(Signal),
    /// The process could not be inspected.
    InspectFailed(String),
    Line(LineMeaning),
    Stderr(String),
    Lingered(GraceSignal),
    /// The writer has ended, with this failure if it failed.
    WriterJoined(Option<String>),
    /// The stream has ended with these events, with this failure if one was
    /// refused, and with what it announced about resuming the session.
    StreamFinished(Vec<AgentEvent>, Option<String>, Option<bool>),
    /// Whether the failure keeps the session.
    Judged(bool),
    /// The session is committed: the events that end the turn, and the session
    /// that it left pending.
    Committed(Vec<AgentEvent>, Option<String>),
    /// Whether replaying the reload broke the process.
    Reloaded(bool),
}

/// What a failure or success says.
pub open spec fn done_view(r: Result<(), String>) -> Result<(), Seq<char>> {
    match r {
        Ok(_) => Ok(()),
        Err(e) => Err(e@),
    }
}

/// What an [`Event`] says.
pub enum NewsView {
    Stopped,
    Spawned(Result<(), Seq<char>>),
    Sent(Result<(), Seq<char>>),
    WriterStarted(Result<(), Seq<char>>),
    Received(SignalView),
    InspectFailed(Seq<char>),
    Line(LineView),
    Stderr(Seq<char>),
    Lingered(GraceView),
    WriterJoined(Option<Seq<char>>),
    StreamFinished(Seq<EventView>, Option<Seq<char>>, Option<bool>),
    Judged(bool),
    Committed(Seq<EventView>, Option<Seq<char>>),
    Reloaded(bool),
}

impl View for Event {
    type V = NewsView;

    open spec fn view(&self) -> NewsView {
        match self {
            Event::Stopped => NewsView::Stopped,
            Event::Spawned(r) => NewsView::Spawned(done_view(*r)),
            Event::Sent(r) => NewsView::Sent(done_view(*r)),
            Event::WriterStarted(r) => NewsView::WriterStarted(done_view(*r)),
            Event::Received(s) => NewsView::Received(s@),
            Event::InspectFailed(e) => NewsView::InspectFailed(e@),
            Event::Line(l) => NewsView::Line(l@),
            Event::Stderr(s) => NewsView::Stderr(s@),
            Event::Lingered(s) => NewsView::Lingered(grace_view(*s)),
            Event::WriterJoined(f) => NewsView::WriterJoined(opt_view(*f)),
            Event::StreamFinished(events, failure, observed) => NewsView::StreamFinished(
                event_views(events@),
                opt_view(*failure),
                *observed,
            ),
            Event::Judged(b) => NewsView::Judged(*b),
            Event::Committed(events, pending) => NewsView::Committed(
                event_views(events@),
                opt_view(*pending),
            ),
            Event::Reloaded(b) => NewsView::Reloaded(*b),
        }
    }
}

/// A turn on its way.
pub struct Course {
    stage: Stage,
    request: TurnRequest,
    process: Option<ProcessState>,
    turn: Turn,
    /// The failure that the error output may explain.
    failure: String,
    /// Whether the stream itself ended the turn.
    had_result: bool,
    /// Whether the pending events of the stream still count.
    finishes: bool,
    plan: CommitPlan,
}

/// What a [`Course`] holds.
#[verifier::ext_equal]
pub struct CourseView {
    pub stage: Stage,
    pub request: RequestView,
    pub process: Option<ProcessView>,
    pub turn: TurnView,
    pub failure: Seq<char>,
    pub had_result: bool,
    pub finishes: bool,
    pub plan: CommitPlan,
}

/// The view of a process that may be missing.
pub open spec fn maybe_process(p: Option<ProcessState>) -> Option<ProcessView> {
    match p {
        Some(x) => Some(x@),
        None => None,
    }
}

impl View for Course {
    type V = CourseView;

    closed spec fn view(&self) -> CourseView {
        CourseView {
            stage: self.stage,
            request: self.request@,
            process: maybe_process(self.process),
            turn: self.turn@,
            failure: self.failure@,
            had_result: self.had_result,
            finishes: self.finishes,
            plan: self.plan,
        }
    }
}

/// The commit of a session that was not judged yet.
pub open spec fn no_plan() -> CommitPlan {
    CommitPlan { record_cancellation: false, completed: false, failed: false, bind_session: false }
}

impl CourseView {
    /// Once a process is chosen, the course has it.
    pub open spec fn wf(self) -> bool {
        self.stage == Stage::Replacing || self.stage == Stage::Spawning || self.stage == Stage::Finished
            || self.process is Some
    }

    /// The same course, waiting for something else.
    pub open spec fn at(self, stage: Stage) -> CourseView {
        CourseView { stage, ..self }
    }

    /// The same course with its transport broken.
    pub open spec fn broken(self, message: Seq<char>) -> CourseView {
        CourseView { turn: self.turn.broken(message), ..self }
    }
}

/// Work without anything to show.
pub open spec fn quietly(action: ActionView) -> StepView {
    StepView { show: Seq::empty(), action }
}

/// The turn is over with a failure, before it had anything to report.
pub open spec fn refused(c: CourseView, error: Seq<char>) -> (CourseView, StepView) {
    (c.at(Stage::Finished), quietly(ActionView::End(Err(error))))
}

/// The event that tells the user that the turn starts.
pub open spec fn starting(run_id: Seq<char>) -> EventView {
    EventView::StatusChanged(run_id, "starting"@, "using persistent cosh-core runtime"@)
}

/// The turn is announced and its writer started.
pub open spec fn announced(c: CourseView) -> (CourseView, StepView) {
    (
        c.at(Stage::Announcing),
        StepView { show: seq![starting(c.request.run_id)], action: ActionView::StartWriter },
    )
}

/// The turn is opened: the process is initialized first if it has to be, and
/// one that was stopped again gets nothing.
pub open spec fn opened(c: CourseView, stopped: bool) -> (CourseView, StepView) {
    let process = c.process->0;
    let awaiting = !process.initialized && !stopped;
    let fresh = CourseView { turn: TurnView::opened(awaiting), ..c };
    if awaiting {
        (fresh.at(Stage::Initializing), quietly(ActionView::SendInitialize))
    } else if !stopped {
        (
            fresh.at(Stage::Opening),
            quietly(ActionView::SendUserTurn(process.capabilities.provider_initialize_seen)),
        )
    } else {
        announced(fresh)
    }
}

/// The first step of a turn: a process that does not serve it is stopped.
pub open spec fn begun(process: Option<ProcessView>, exited: bool, request: RequestView) -> (
    CourseView,
    StepView,
) {
    let c = CourseView {
        stage: Stage::Spawning,
        request,
        process: None,
        turn: TurnView::opened(false),
        failure: Seq::empty(),
        had_result: false,
        finishes: false,
        plan: no_plan(),
    };
    match process {
        Some(p) => if serves(p, exited, request) {
            opened(CourseView { process: Some(p), ..c }, false)
        } else {
            (c.at(Stage::Replacing), quietly(ActionView::Stop))
        },
        None => (c, quietly(ActionView::Spawn)),
    }
}

/// A new process is there. A run that was cancelled meanwhile stops it again.
pub open spec fn spawned(c: CourseView, cancelled: bool, expected_stop: bool) -> (CourseView, StepView) {
    let next = CourseView { process: Some(fresh_process(c.request)), ..c };
    if cancelled || expected_stop {
        (next.at(Stage::Stopping), quietly(ActionView::Stop))
    } else {
        opened(next, false)
    }
}

/// The next line is waited for.
pub open spec fn receiving(c: CourseView, show: Seq<EventView>) -> (CourseView, StepView) {
    (c.at(Stage::Receiving), StepView { show, action: ActionView::Receive })
}

/// No more lines are taken. Behind a result there is a grace period, unless the
/// transport broke.
pub open spec fn closing(c: CourseView, show: Seq<EventView>) -> (CourseView, StepView) {
    if c.turn.transport_error is None && c.turn.terminal_events.len() > 0 {
        (c.at(Stage::Lingering), StepView { show, action: ActionView::Linger })
    } else {
        joining(c, show)
    }
}

/// The response writer is ended.
pub open spec fn joining(c: CourseView, show: Seq<EventView>) -> (CourseView, StepView) {
    (c.at(Stage::Joining), StepView { show, action: ActionView::JoinWriter })
}

/// The error output is asked for an explanation.
pub open spec fn explaining(c: CourseView, failure: Seq<char>) -> (CourseView, StepView) {
    (CourseView { failure, ..c.at(Stage::Explaining) }, quietly(ActionView::ReadStderr))
}

/// The turn after the events of a line.
pub open spec fn noted_all(turn: TurnView, events: Seq<EventView>) -> TurnView
    decreases events.len(),
{
    if events.len() == 0 {
        turn
    } else {
        noted_all(turn, events.drop_last()).noted(events.last())
    }
}

/// The events that are shown at once: those that do not end the turn.
pub open spec fn passing(events: Seq<EventView>) -> Seq<EventView>
    decreases events.len(),
{
    if events.len() == 0 {
        Seq::empty()
    } else {
        let rest = passing(events.drop_last());
        if events.last().terminal() {
            rest
        } else {
            rest.push(events.last())
        }
    }
}

/// The turn after events and the refusal behind them.
pub open spec fn taken(turn: TurnView, events: Seq<EventView>, failure: Option<Seq<char>>) -> TurnView {
    match failure {
        Some(error) => noted_all(turn, events).broken(error),
        None => noted_all(turn, events),
    }
}

/// What came from the process is judged.
pub open spec fn received(c: CourseView, signal: SignalView, cancelled: bool, expected_stop: bool) -> (
    CourseView,
    StepView,
) {
    match signal_meaning(signal, cancelled, expected_stop) {
        SignalStepView::HandleLine => (c.at(Stage::Handling), quietly(ActionView::Handle)),
        SignalStepView::Wait => receiving(c, Seq::empty()),
        SignalStepView::Cancelled => closing(c, Seq::empty()),
        SignalStepView::TornDown => closing(
            CourseView { turn: TurnView { teardown_break: true, ..c.turn }, ..c },
            Seq::empty(),
        ),
        SignalStepView::Fail(message) => closing(c.broken(message), Seq::empty()),
        SignalStepView::FailWithStderr(message) => explaining(c, message),
    }
}

/// A line is taken in.
pub open spec fn handled(c: CourseView, line: LineView) -> (CourseView, StepView) {
    match line {
        LineView::Handled => receiving(c, Seq::empty()),
        LineView::Broken(error) => closing(c.broken(error), Seq::empty()),
        LineView::Initialized(Err(error)) => closing(c.broken(error), Seq::empty()),
        LineView::Initialized(Ok(capabilities)) => {
            let sends = c.turn.awaiting_initialize && !c.turn.user_turn_sent;
            let next = CourseView {
                process: Some(
                    ProcessView {
                        capabilities,
                        initialized: c.process->0.initialized || sends,
                        ..c.process->0
                    },
                ),
                ..c
            };
            if sends {
                (next.at(Stage::Sending), quietly(ActionView::SendUserTurn(false)))
            } else {
                receiving(next, Seq::empty())
            }
        },
        LineView::Events(events, failure) => {
            let next = CourseView { turn: taken(c.turn, events, failure), ..c };
            if next.turn.transport_error is None && next.turn.terminal_events.len() == 0 {
                receiving(next, passing(events))
            } else {
                closing(next, passing(events))
            }
        },
    }
}

/// What came behind the result is judged.
pub open spec fn lingered(c: CourseView, signal: GraceView) -> (CourseView, StepView) {
    match signal {
        GraceView::StreamError(error) => if error == "cosh-core output reached EOF"@ {
            joining(
                CourseView { turn: TurnView { reset_after_turn: true, ..c.turn }, ..c },
                Seq::empty(),
            )
        } else {
            explaining(c, error)
        },
        GraceView::Events(events) => if all_trailing(events) {
            joining(c, events)
        } else {
            joining(
                c.broken("cosh-core emitted output after the terminal Agent result"@),
                Seq::empty(),
            )
        },
        GraceView::Timeout => joining(c, Seq::empty()),
        GraceView::Disconnected => joining(
            CourseView { turn: TurnView { reset_after_turn: true, ..c.turn }, ..c },
            Seq::empty(),
        ),
    }
}

/// The writer has ended. Pending events of an aborted turn no longer count.
pub open spec fn joined(c: CourseView, failure: Option<Seq<char>>, cancelled: bool) -> (
    CourseView,
    StepView,
) {
    let turn = match (c.turn.transport_error, failure) {
        (None, Some(message)) => c.turn.broken(message),
        _ => c.turn,
    };
    let finishes = !turn.aborted(cancelled);
    (
        CourseView {
            turn,
            had_result: turn.terminal_events.len() > 0,
            finishes,
            ..c.at(Stage::Finishing)
        },
        quietly(ActionView::FinishStream(finishes)),
    )
}

/// The stream has ended, and the outcome of the turn is settled.
pub open spec fn finished(
    c: CourseView,
    events: Seq<EventView>,
    failure: Option<Seq<char>>,
    observed: Option<bool>,
    cancelled: bool,
) -> (CourseView, StepView) {
    let turn = if c.finishes {
        taken(c.turn, events, failure)
    } else {
        c.turn
    };
    let known = if observed is Some {
        observed
    } else {
        c.process->0.session_resumable
    };
    (
        CourseView {
            turn: settled(c.request.run_id, turn, c.had_result, cancelled),
            process: Some(ProcessView { session_resumable: known, ..c.process->0 }),
            ..c.at(Stage::Judging)
        },
        StepView {
            show: if c.finishes {
                passing(events)
            } else {
                Seq::empty()
            },
            action: ActionView::Judge(known),
        },
    )
}

/// How the session is committed.
pub open spec fn judged(c: CourseView, retains: bool, cancelled: bool) -> (CourseView, StepView) {
    let plan = commit_of(c.turn, cancelled, retains, c.process->0.session_resumable);
    (
        CourseView { plan, ..c.at(Stage::Committing) },
        quietly(ActionView::Commit(plan)),
    )
}

/// The session is committed, and the process bound to it.
pub open spec fn committed(c: CourseView, events: Seq<EventView>, pending: Option<Seq<char>>) -> (
    CourseView,
    StepView,
) {
    (
        CourseView {
            turn: TurnView { terminal_events: events, ..c.turn },
            process: Some(
                ProcessView {
                    session_id: if c.plan.bind_session {
                        pending
                    } else {
                        c.process->0.session_id
                    },
                    ..c.process->0
                },
            ),
            ..c.at(Stage::Reloading)
        },
        quietly(ActionView::Reload),
    )
}

/// The turn is over: only now the events that end it are shown.
pub open spec fn ended(c: CourseView, reload_failed: bool, cancelled: bool) -> (CourseView, StepView) {
    (
        CourseView {
            turn: TurnView { terminal_events: Seq::empty(), ..c.turn },
            ..c.at(Stage::Finished)
        },
        StepView {
            show: c.turn.terminal_events,
            action: ActionView::End(turn_result(c.turn, cancelled, reload_failed)),
        },
    )
}

/// One step of a turn. An answer to another question changes nothing.
pub open spec fn advanced(c: CourseView, news: NewsView, cancelled: bool, expected_stop: bool) -> (
    CourseView,
    StepView,
) {
    match (c.stage, news) {
        (Stage::Replacing, NewsView::Stopped) => (c.at(Stage::Spawning), quietly(ActionView::Spawn)),
        (Stage::Spawning, NewsView::Spawned(Ok(_))) => spawned(c, cancelled, expected_stop),
        (Stage::Spawning, NewsView::Spawned(Err(error))) => refused(c, error),
        (Stage::Stopping, NewsView::Stopped) => opened(c, true),
        (Stage::Initializing, NewsView::Sent(Ok(_))) => announced(c),
        (Stage::Initializing, NewsView::Sent(Err(error))) => refused(c, error),
        (Stage::Opening, NewsView::Sent(Ok(_))) => announced(c),
        (Stage::Opening, NewsView::Sent(Err(error))) => refused(c, error),
        (Stage::Announcing, NewsView::WriterStarted(Ok(_))) => receiving(c, Seq::empty()),
        (Stage::Announcing, NewsView::WriterStarted(Err(error))) => refused(c, error),
        (Stage::Receiving, NewsView::Received(signal)) => received(c, signal, cancelled, expected_stop),
        (Stage::Receiving, NewsView::InspectFailed(error)) => refused(
            c,
            "failed to inspect cosh-core: "@ + error,
        ),
        (Stage::Handling, NewsView::Line(line)) => handled(c, line),
        (Stage::Sending, NewsView::Sent(Ok(_))) => receiving(
            CourseView { turn: TurnView { user_turn_sent: true, ..c.turn }, ..c },
            Seq::empty(),
        ),
        (Stage::Sending, NewsView::Sent(Err(error))) => closing(c.broken(error), Seq::empty()),
        (Stage::Explaining, NewsView::Stderr(text)) => joining(
            c.broken(error_with_stderr(c.failure, text)),
            Seq::empty(),
        ),
        (Stage::Lingering, NewsView::Lingered(signal)) => lingered(c, signal),
        (Stage::Joining, NewsView::WriterJoined(failure)) => joined(c, failure, cancelled),
        (Stage::Finishing, NewsView::StreamFinished(events, failure, observed)) => finished(
            c,
            events,
            failure,
            observed,
            cancelled,
        ),
        (Stage::Judging, NewsView::Judged(retains)) => judged(c, retains, cancelled),
        (Stage::Committing, NewsView::Committed(events, pending)) => committed(c, events, pending),
        (Stage::Reloading, NewsView::Reloaded(failed)) => ended(c, failed, cancelled),
        _ => (c, quietly(ActionView::Wait)),
    }
}

fn nothing() -> (res: Vec<AgentEvent>)
    ensures
        event_views(res@) == Seq::<EventView>::empty(),
{
    let res: Vec<AgentEvent> = Vec::new();
    assert(event_views(res@) =~= Seq::empty());
    res
}

fn quiet(action: Action) -> (res: Step)
    ensures
        res@ == quietly(action@),
{
    Step { show: nothing(), action }
}

fn note_all(turn: &mut Turn, events: Vec<AgentEvent>) -> (shown: Vec<AgentEvent>)
    ensures
        final(turn)@ == noted_all(old(turn)@, event_views(events@)),
        event_views(shown@) == passing(event_views(events@)),
{
    let ghost given = event_views(events@);
    let ghost start = turn@;
    let mut rest = events;
    let mut out = nothing();
    let total: usize = rest.len();
    let mut i: usize = 0;
    assert(given.take(0) =~= Seq::empty());
    while i < total
        invariant
            i <= total == given.len(),
            rest@.len() == total - i,
            forall|j: int| 0 <= j < rest@.len() ==> (#[trigger] rest@[j])@ == given[i + j],
            turn@ == noted_all(start, given.take(i as int)),
            event_views(out@) == passing(given.take(i as int)),
        decreases total - i,
    {
        let event = rest.remove(0);
        proof {
            assert(event@ == given[i as int]);
            assert(given.take(i + 1).drop_last() =~= given.take(i as int));
            assert(given.take(i + 1).last() == given[i as int]);
        }
        if let Some(shown) = on_event(turn, event, Ok(())) {
            let ghost before = event_views(out@);
            out.push(shown);
            assert(event_views(out@) =~= before.push(given[i as int]));
        }
        i = i + 1;
    }
    assert(given.take(total as int) =~= given);
    out
}

fn take_events(turn: &mut Turn, events: Vec<AgentEvent>, failure: Option<String>) -> (shown: Vec<AgentEvent>)
    ensures
        final(turn)@ == taken(old(turn)@, event_views(events@), opt_view(failure)),
        event_views(shown@) == passing(event_views(events@)),
{
    let shown = note_all(turn, events);
    if let Some(error) = failure {
        fail_transport(turn, error);
    }
    shown
}

impl Course {
    /// Begins a turn with the process at hand, if there is one.
    pub fn begin(process: Option<ProcessState>, exited: bool, request: TurnRequest) -> (res: (Course, Step))
        ensures
            (res.0@, res.1@) == begun(maybe_process(process), exited, request@),
            res.0@.wf(),
    {
        let ghost expected = begun(maybe_process(process), exited, request@);
        let mut course = Course {
            stage: Stage::Spawning,
            request,
            process: None,
            turn: new_turn(false),
            failure: String::new(),
            had_result: false,
            finishes: false,
            plan: CommitPlan {
                record_cancellation: false,
                completed: false,
                failed: false,
                bind_session: false,
            },
        };
        assert(course.failure@ =~= Seq::empty());
        match process {
            Some(p) => {
                if must_replace(&p, exited, &course.request) {
                    course.stage = Stage::Replacing;
                    assert(course@ =~~= expected.0);
                    (course, quiet(Action::Stop))
                } else {
                    course.process = Some(p);
                    let step = course.open(false);
                    (course, step)
                }
            },
            None => {
                assert(course@ =~~= expected.0);
                (course, quiet(Action::Spawn))
            },
        }
    }

    /// The process of the turn.
    pub fn process(&self) -> (res: &Option<ProcessState>)
        ensures
            maybe_process(*res) == self@.process,
    {
        &self.process
    }

    /// The events that will end the turn.
    pub fn terminal_events(&self) -> (res: &Vec<AgentEvent>)
        ensures
            event_views(res@) == self@.turn.terminal_events,
    {
        &self.turn.terminal_events
    }

    /// The process, for the next turn.
    pub fn into_process(self) -> (res: Option<ProcessState>)
        ensures
            maybe_process(res) == self@.process,
    {
        self.process
    }

    fn refuse(&mut self, error: String) -> (res: Step)
        ensures
            (final(self)@, res@) == refused(old(self)@, error@),
            final(self)@.wf(),
    {
        self.stage = Stage::Finished;
        assert(self@ =~~= refused(old(self)@, error@).0);
        quiet(Action::End(Err(error)))
    }

    fn announce(&mut self) -> (res: Step)
        requires
            old(self)@.process is Some,
        ensures
            (final(self)@, res@) == announced(old(self)@),
            final(self)@.wf(),
    {
        self.stage = Stage::Announcing;
        assert(self@ =~~= announced(old(self)@).0);
        let mut show: Vec<AgentEvent> = Vec::new();
        show.push(
            AgentEvent::StatusChanged(
                self.request.run_id.clone(),
                "starting".to_owned(),
                "using persistent cosh-core runtime".to_owned(),
            ),
        );
        assert(event_views(show@) =~= seq![starting(self.request.run_id@)]);
        Step { show, action: Action::StartWriter }
    }

    fn open(&mut self, stopped: bool) -> (res: Step)
        requires
            old(self)@.process is Some,
        ensures
            (final(self)@, res@) == opened(old(self)@, stopped),
            final(self)@.wf(),
    {
        let ghost expected = opened(old(self)@, stopped);
        let (turn, opening) = match &self.process {
            Some(process) => open_turn(process, stopped),
            None => {
                assert(false);
                return quiet(Action::Wait);
            },
        };
        self.turn = turn;
        if opening.send_initialize {
            self.stage = Stage::Initializing;
            assert(self@ =~~= expected.0);
            quiet(Action::SendInitialize)
        } else if opening.send_user_turn {
            self.stage = Stage::Opening;
            assert(self@ =~~= expected.0);
            quiet(Action::SendUserTurn(opening.seed_capabilities))
        } else {
            let step = self.announce();
            assert(self@ =~~= expected.0);
            step
        }
    }

    fn receive(&mut self, show: Vec<AgentEvent>) -> (res: Step)
        requires
            old(self)@.process is Some,
        ensures
            (final(self)@, res@) == receiving(old(self)@, event_views(show@)),
            final(self)@.wf(),
    {
        self.stage = Stage::Receiving;
        assert(self@ =~~= receiving(old(self)@, event_views(show@)).0);
        Step { show, action: Action::Receive }
    }

    fn join(&mut self, show: Vec<AgentEvent>) -> (res: Step)
        requires
            old(self)@.process is Some,
        ensures
            (final(self)@, res@) == joining(old(self)@, event_views(show@)),
            final(self)@.wf(),
    {
        self.stage = Stage::Joining;
        assert(self@ =~~= joining(old(self)@, event_views(show@)).0);
        Step { show, action: Action::JoinWriter }
    }

    fn close(&mut self, show: Vec<AgentEvent>) -> (res: Step)
        requires
            old(self)@.process is Some,
        ensures
            (final(self)@, res@) == closing(old(self)@, event_views(show@)),
            final(self)@.wf(),
    {
        assert(self@.turn.terminal_events.len() == self.turn.terminal_events@.len());
        if self.turn.transport_error.is_none() && self.turn.terminal_events.len() > 0 {
            self.stage = Stage::Lingering;
            assert(self@ =~~= closing(old(self)@, event_views(show@)).0);
            Step { show, action: Action::Linger }
        } else {
            self.join(show)
        }
    }

    fn break_off(&mut self, message: String) -> (res: Step)
        requires
            old(self)@.process is Some,
        ensures
            (final(self)@, res@) == closing(old(self)@.broken(message@), Seq::empty()),
            final(self)@.wf(),
    {
        fail_transport(&mut self.turn, message);
        assert(self@ =~~= old(self)@.broken(message@));
        self.close(nothing())
    }

    fn explain(&mut self, message: String) -> (res: Step)
        requires
            old(self)@.process is Some,
        ensures
            (final(self)@, res@) == explaining(old(self)@, message@),
            final(self)@.wf(),
    {
        self.stage = Stage::Explaining;
        self.failure = message;
        assert(self@ =~~= explaining(old(self)@, message@).0);
        quiet(Action::ReadStderr)
    }

    fn on_spawned(&mut self, cancelled: bool, expected_stop: bool) -> (res: Step)
        ensures
            (final(self)@, res@) == spawned(old(self)@, cancelled, expected_stop),
            final(self)@.wf(),
    {
        let ghost next = CourseView { process: Some(fresh_process(old(self)@.request)), ..old(self)@ };
        self.process = Some(spawned_process(&self.request));
        assert(self@ =~~= next);
        if cancelled || expected_stop {
            self.stage = Stage::Stopping;
            assert(self@ =~~= next.at(Stage::Stopping));
            quiet(Action::Stop)
        } else {
            self.open(false)
        }
    }

    #[verifier::rlimit(40)]
    fn on_received(&mut self, signal: Signal, cancelled: bool, expected_stop: bool) -> (res: Step)
        requires
            old(self)@.process is Some,
        ensures
            (final(self)@, res@) == received(old(self)@, signal@, cancelled, expected_stop),
            final(self)@.wf(),
    {
        let ghost start = old(self)@;
        let step = on_signal(&mut self.turn, signal, cancelled, expected_stop);
        match step {
            SignalStep::HandleLine => {
                self.stage = Stage::Handling;
                assert(self@ =~~= start.at(Stage::Handling));
                quiet(Action::Handle)
            },
            SignalStep::Wait => {
                assert(self@ =~~= start);
                self.receive(nothing())
            },
            SignalStep::Cancelled => {
                assert(self@ =~~= start);
                self.close(nothing())
            },
            SignalStep::TornDown => {
                assert(self@ =~~= (CourseView {
                    turn: TurnView { teardown_break: true, ..start.turn },
                    ..start
                }));
                self.close(nothing())
            },
            SignalStep::Fail(message) => {
                assert(self@ =~~= start.broken(message@));
                self.close(nothing())
            },
            SignalStep::FailWithStderr(message) => {
                assert(self@ =~~= start);
                self.explain(message)
            },
        }
    }

    fn on_initialized(&mut self, response: Result<Capabilities, String>) -> (res: Step)
        requires
            old(self)@.process is Some,
        ensures
            (final(self)@, res@) == handled(
                old(self)@,
                LineView::Initialized(
                    match response {
                        Ok(c) => Ok(c),
                        Err(e) => Err(e@),
                    },
                ),
            ),
            final(self)@.wf(),
    {
        let ghost start = old(self)@;
        let mut step = InitializeStep::Continue;
        if let Some(mut process) = self.process.take() {
            step = on_initialize(&mut self.turn, &mut process, response);
            self.process = Some(process);
        }
        match step {
            InitializeStep::Stop => {
                assert(self@ =~~= start.broken(response->Err_0@));
                self.close(nothing())
            },
            InitializeStep::SendUserTurn => {
                self.stage = Stage::Sending;
                assert(self@ =~~= handled(start, LineView::Initialized(Ok(response->Ok_0))).0);
                quiet(Action::SendUserTurn(false))
            },
            InitializeStep::Continue => {
                let ghost next = CourseView {
                    process: Some(
                        ProcessView { capabilities: response->Ok_0, ..start.process->0 },
                    ),
                    ..start
                };
                assert(self@ =~~= next);
                self.receive(nothing())
            },
        }
    }

    fn on_line(&mut self, line: LineMeaning) -> (res: Step)
        requires
            old(self)@.process is Some,
        ensures
            (final(self)@, res@) == handled(old(self)@, line@),
            final(self)@.wf(),
    {
        match line {
            LineMeaning::Handled => self.receive(nothing()),
            LineMeaning::Broken(error) => self.break_off(error),
            LineMeaning::Initialized(response) => self.on_initialized(response),
            LineMeaning::Events(events, failure) => {
                let ghost views = event_views(events@);
                let shown = take_events(&mut self.turn, events, failure);
                assert(self@ =~~= (CourseView {
                    turn: taken(old(self)@.turn, views, opt_view(failure)),
                    ..old(self)@
                }));
                assert(self@.turn.terminal_events.len() == self.turn.terminal_events@.len());
                if self.turn.transport_error.is_none() && self.turn.terminal_events.len() == 0 {
                    self.receive(shown)
                } else {
                    self.close(shown)
                }
            },
        }
    }

    fn on_lingered(&mut self, signal: GraceSignal) -> (res: Step)
        requires
            old(self)@.process is Some,
        ensures
            (final(self)@, res@) == lingered(old(self)@, grace_view(signal)),
            final(self)@.wf(),
    {
        let ghost start = old(self)@;
        let step = on_grace(&mut self.turn, signal);
        match step {
            GraceStep::Done => {
                assert(self@ =~~= (CourseView { turn: self@.turn, ..start }));
                self.join(nothing())
            },
            GraceStep::Emit(events) => {
                assert(self@ =~~= start);
                self.join(events)
            },
            GraceStep::FailWithStderr(message) => {
                assert(self@ =~~= start);
                self.explain(message)
            },
        }
    }

    fn on_joined(&mut self, failure: Option<String>, cancelled: bool) -> (res: Step)
        requires
            old(self)@.process is Some,
        ensures
            (final(self)@, res@) == joined(old(self)@, opt_view(failure), cancelled),
            final(self)@.wf(),
    {
        on_writer_failure(&mut self.turn, failure);
        assert(self@.turn.terminal_events.len() == self.turn.terminal_events@.len());
        self.had_result = self.turn.terminal_events.len() > 0;
        self.finishes = !(cancelled || self.turn.teardown_break);
        self.stage = Stage::Finishing;
        assert(self@ =~~= joined(old(self)@, opt_view(failure), cancelled).0);
        quiet(Action::FinishStream(self.finishes))
    }

    fn on_finished(
        self,
        events: Vec<AgentEvent>,
        failure: Option<String>,
        observed: Option<bool>,
        cancelled: bool,
    ) -> (res: (Course, Step))
        requires
            self@.process is Some,
        ensures
            (res.0@, res.1@) == finished(
                self@,
                event_views(events@),
                opt_view(failure),
                observed,
                cancelled,
            ),
            res.0@.wf(),
    {
        let ghost expected = finished(
            self@,
            event_views(events@),
            opt_view(failure),
            observed,
            cancelled,
        );
        let mut turn = self.turn;
        let show: Vec<AgentEvent> = if self.finishes {
            take_events(&mut turn, events, failure)
        } else {
            nothing()
        };
        let mut known: Option<bool> = None;
        let process: Option<ProcessState> = match self.process {
            Some(mut p) => {
                known = note_resumable(&mut p, observed);
                Some(p)
            },
            None => None,
        };
        let turn = settle(self.request.run_id.as_str(), turn, self.had_result, cancelled);
        let next = Course {
            stage: Stage::Judging,
            request: self.request,
            process,
            turn,
            failure: self.failure,
            had_result: self.had_result,
            finishes: self.finishes,
            plan: self.plan,
        };
        assert(next@ =~~= expected.0);
        (next, Step { show, action: Action::Judge(known) })
    }

    fn on_judged(&mut self, retains: bool, cancelled: bool) -> (res: Step)
        requires
            old(self)@.process is Some,
        ensures
            (final(self)@, res@) == judged(old(self)@, retains, cancelled),
            final(self)@.wf(),
    {
        let known: Option<bool> = match &self.process {
            Some(process) => process.session_resumable,
            None => None,
        };
        self.plan = commit_plan(&self.turn, cancelled, retains, known);
        self.stage = Stage::Committing;
        assert(self@ =~~= judged(old(self)@, retains, cancelled).0);
        quiet(Action::Commit(self.plan))
    }

    fn on_committed(&mut self, events: Vec<AgentEvent>, pending: Option<String>) -> (res: Step)
        requires
            old(self)@.process is Some,
        ensures
            (final(self)@, res@) == committed(old(self)@, event_views(events@), opt_view(pending)),
            final(self)@.wf(),
    {
        if let Some(mut process) = self.process.take() {
            bind_session(&mut process, self.plan, pending);
            self.process = Some(process);
        }
        self.turn.terminal_events = events;
        self.stage = Stage::Reloading;
        assert(self@ =~~= committed(old(self)@, event_views(events@), opt_view(pending)).0);
        quiet(Action::Reload)
    }

    fn on_reloaded(self, failed: bool, cancelled: bool) -> (res: (Course, Step))
        ensures
            (res.0@, res.1@) == ended(self@, failed, cancelled),
            res.0@.wf(),
    {
        let ghost expected = ended(self@, failed, cancelled);
        let kept = Turn {
            awaiting_initialize: self.turn.awaiting_initialize,
            user_turn_sent: self.turn.user_turn_sent,
            completed: self.turn.completed,
            failed: self.turn.failed,
            terminal_events: nothing(),
            transport_error: self.turn.transport_error.clone(),
            teardown_break: self.turn.teardown_break,
            reset_after_turn: self.turn.reset_after_turn,
        };
        let mut turn = self.turn;
        let mut show = nothing();
        std::mem::swap(&mut show, &mut turn.terminal_events);
        let result = finish_turn(turn, cancelled, failed);
        let next = Course {
            stage: Stage::Finished,
            request: self.request,
            process: self.process,
            turn: kept,
            failure: self.failure,
            had_result: self.had_result,
            finishes: self.finishes,
            plan: self.plan,
        };
        assert(next@ =~~= expected.0);
        let step = Step { show, action: Action::End(result) };
        assert(step@ =~~= expected.1);
        (next, step)
    }

    /// Takes the turn one step on. `cancelled` and `expected_stop` say whether
    /// the run is cancelled, and whether its process was stopped on purpose, as
    /// of now.
    #[verifier::rlimit(60)]
    pub fn advance(self, event: Event, cancelled: bool, expected_stop: bool) -> (res: (Course, Step))
        requires
            self@.wf(),
        ensures
            (res.0@, res.1@) == advanced(self@, event@, cancelled, expected_stop),
            res.0@.wf(),
    {
        let mut course = self;
        match (course.stage, event) {
            (Stage::Replacing, Event::Stopped) => {
                course.stage = Stage::Spawning;
                assert(course@ =~~= self@.at(Stage::Spawning));
                (course, quiet(Action::Spawn))
            },
            (Stage::Spawning, Event::Spawned(result)) => {
                let step = match result {
                    Ok(_) => course.on_spawned(cancelled, expected_stop),
                    Err(error) => course.refuse(error),
                };
                (course, step)
            },
            (Stage::Stopping, Event::Stopped) => {
                let step = course.open(true);
                (course, step)
            },
            (Stage::Initializing, Event::Sent(result)) => {
                let step = match result {
                    Ok(_) => course.announce(),
                    Err(error) => course.refuse(error),
                };
                (course, step)
            },
            (Stage::Opening, Event::Sent(result)) => {
                let step = match result {
                    Ok(_) => course.announce(),
                    Err(error) => course.refuse(error),
                };
                (course, step)
            },
            (Stage::Announcing, Event::WriterStarted(result)) => {
                let step = match result {
                    Ok(_) => course.receive(nothing()),
                    Err(error) => course.refuse(error),
                };
                (course, step)
            },
            (Stage::Receiving, Event::Received(signal)) => {
                let step = course.on_received(signal, cancelled, expected_stop);
                (course, step)
            },
            (Stage::Receiving, Event::InspectFailed(error)) => {
                let message = "failed to inspect cosh-core: ".to_owned().concat(error.as_str());
                let step = course.refuse(message);
                (course, step)
            },
            (Stage::Handling, Event::Line(line)) => {
                let step = course.on_line(line);
                (course, step)
            },
            (Stage::Sending, Event::Sent(result)) => {
                let sent: bool = on_user_turn(&mut course.turn, result);
                let step = if sent {
                    assert(course@ =~~= (CourseView {
                        turn: TurnView { user_turn_sent: true, ..self@.turn },
                        ..self@
                    }));
                    course.receive(nothing())
                } else {
                    assert(course@ =~~= self@.broken(result->Err_0@));
                    course.close(nothing())
                };
                (course, step)
            },
            (Stage::Explaining, Event::Stderr(text)) => {
                let message = process_error(course.failure.as_str(), text.as_str());
                fail_transport(&mut course.turn, message);
                assert(course@ =~~= self@.broken(error_with_stderr(self@.failure, text@)));
                let step = course.join(nothing());
                (course, step)
            },
            (Stage::Lingering, Event::Lingered(signal)) => {
                let step = course.on_lingered(signal);
                (course, step)
            },
            (Stage::Joining, Event::WriterJoined(failure)) => {
                let step = course.on_joined(failure, cancelled);
                (course, step)
            },
            (Stage::Finishing, Event::StreamFinished(events, failure, observed)) => {
                course.on_finished(events, failure, observed, cancelled)
            },
            (Stage::Judging, Event::Judged(retains)) => {
                let step = course.on_judged(retains, cancelled);
                (course, step)
            },
            (Stage::Committing, Event::Committed(events, pending)) => {
                let step = course.on_committed(events, pending);
                (course, step)
            },
            (Stage::Reloading, Event::Reloaded(failed)) => course.on_reloaded(failed, cancelled),
            _ => (course, quiet(Action::Wait)),
        }
    }
}

proof fn lemma_passing_goes_on(events: Seq<EventView>)
    ensures
        forall|i: int| 0 <= i < passing(events).len() ==> !(#[trigger] passing(events)[i]).terminal(),
    decreases events.len(),
{
    if events.len() > 0 {
        let rest = passing(events.drop_last());
        lemma_passing_goes_on(events.drop_last());
        assert forall|i: int| 0 <= i < passing(events).len() implies !(#[trigger] passing(
            events,
        )[i]).terminal() by {
            if i < rest.len() {
                assert(passing(events)[i] == rest[i]);
            }
        }
    }
}

/// The events that end a turn are held back to its very end.
pub proof fn results_come_last(
    c: CourseView,
    news: NewsView,
    cancelled: bool,
    expected_stop: bool,
    i: int,
)
    requires
        0 <= i < advanced(c, news, cancelled, expected_stop).1.show.len(),
        advanced(c, news, cancelled, expected_stop).1.show[i].terminal(),
    ensures
        c.stage == Stage::Reloading,
        advanced(c, news, cancelled, expected_stop).1.action is End,
{
    match news {
        NewsView::Line(LineView::Events(events, _)) => {
            lemma_passing_goes_on(events);
        },
        NewsView::StreamFinished(events, _, _) => {
            lemma_passing_goes_on(events);
        },
        _ => {},
    }
}

/// A turn succeeds only once its session is committed.
pub proof fn success_follows_the_commit(c: CourseView, news: NewsView, cancelled: bool, expected_stop: bool)
    requires
        advanced(c, news, cancelled, expected_stop).1.action matches ActionView::End(Ok(_)),
    ensures
        c.stage == Stage::Reloading,
        c.turn.transport_error is None,
{
}

/// The user's message goes out once: never again once it was sent.
pub proof fn the_message_goes_out_once(c: CourseView, news: NewsView, cancelled: bool, expected_stop: bool)
    requires
        c.turn.user_turn_sent,
        c.stage != Stage::Spawning && c.stage != Stage::Stopping && c.stage != Stage::Replacing,
    ensures
        !(advanced(c, news, cancelled, expected_stop).1.action is SendUserTurn),
        advanced(c, news, cancelled, expected_stop).0.turn.user_turn_sent,
{
    match (c.stage, news) {
        (Stage::Handling, NewsView::Line(LineView::Events(events, _))) => {
            lemma_noted_keeps_sent(c.turn, events);
        },
        (Stage::Finishing, NewsView::StreamFinished(events, _, _)) => {
            lemma_noted_keeps_sent(c.turn, events);
        },
        _ => {},
    }
}

proof fn lemma_noted_keeps_sent(turn: TurnView, events: Seq<EventView>)
    ensures
        noted_all(turn, events).user_turn_sent == turn.user_turn_sent,
    decreases events.len(),
{
    if events.len() > 0 {
        lemma_noted_keeps_sent(turn, events.drop_last());
    }
}

/// A run that was cancelled while its process started sends nothing to it: the
/// process is stopped, and the turn then only waits for the end of its stream.
pub proof fn cancelled_starts_send_nothing(c: CourseView, expected_stop: bool, still_cancelled: bool)
    requires
        c.stage == Stage::Spawning,
    ensures
        ({
            let (stopping, first) = advanced(c, NewsView::Spawned(Ok(())), true, expected_stop);
            let (stopped, second) = advanced(stopping, NewsView::Stopped, still_cancelled, expected_stop);
            &&& first.action is Stop
            &&& second.action is StartWriter
            &&& stopped.turn.user_turn_sent
            &&& !stopped.turn.awaiting_initialize
        }),
{
}

/// A turn that is aborted when its stream ends reports a cancellation, and no
/// success.
pub proof fn aborted_courses_report_cancellation(
    c: CourseView,
    events: Seq<EventView>,
    failure: Option<Seq<char>>,
    observed: Option<bool>,
    expected_stop: bool,
)
    requires
        c.stage == Stage::Finishing,
    ensures
        ({
            let next = advanced(c, NewsView::StreamFinished(events, failure, observed), true, expected_stop).0;
            &&& has_cancellation(next.turn.terminal_events)
            &&& forall|i: int|
                0 <= i < next.turn.terminal_events.len() ==> !((
                #[trigger] next.turn.terminal_events[i]) is AgentCompleted)
        }),
{
    let turn = if c.finishes {
        taken(c.turn, events, failure)
    } else {
        c.turn
    };
    aborted_turns_report_cancellation(c.request.run_id, turn, c.had_result, true);
}

/// Once the transport broke, no more lines are taken.
pub proof fn broken_transports_take_no_lines(c: CourseView, news: NewsView, cancelled: bool, expected_stop: bool)
    requires
        c.stage == Stage::Handling || c.stage == Stage::Sending || c.stage == Stage::Lingering || c.stage
            == Stage::Explaining,
        advanced(c, news, cancelled, expected_stop).0.turn.transport_error is Some,
        !(advanced(c, news, cancelled, expected_stop).1.action is Wait),
        c.turn.transport_error is None,
    ensures
        advanced(c, news, cancelled, expected_stop).1.action is JoinWriter,
{
}

} // verus!
