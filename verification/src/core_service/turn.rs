//! One agent turn: reusing or replacing the process, the protocol loop, the
//! grace period behind the result, and how the turn ends.

use vstd::prelude::*;
use vstd::string::*;

use crate::core_service::event::{
    any_cancellation, drop_completion, event_views, has_cancellation, lemma_keeps_others,
    lemma_no_new_cancellation, lemma_without_completion, without_completion, AgentEvent, EventView,
};
use crate::text::{opt_view, same, trim, trimmed};

verus! {

/// What the core process announced about its control protocol.
#[derive(Clone, Copy, Debug, PartialEq, Eq, Structural)]
pub struct Capabilities {
    pub provider_initialize_seen: bool,
    pub can_handle_approval_receipt: bool,
}

/// How tool calls are approved.
#[derive(Clone, Copy, Debug, PartialEq, Eq, Structural)]
pub enum ApprovalMode {
    Recommend,
    Auto,
    Trust,
}

/// The running core process as far as turns depend on it.
#[derive(Clone, Debug)]
pub struct ProcessState {
    pub approval_mode: ApprovalMode,
    pub workspace_scope: String,
    pub session_id: Option<String>,
    pub initialized: bool,
    pub session_resumable: Option<bool>,
    pub capabilities: Capabilities,
}

/// What a [`ProcessState`] says.
#[verifier::ext_equal]
pub struct ProcessView {
    pub approval_mode: ApprovalMode,
    pub workspace_scope: Seq<char>,
    pub session_id: Option<Seq<char>>,
    pub initialized: bool,
    pub session_resumable: Option<bool>,
    pub capabilities: Capabilities,
}

impl View for ProcessState {
    type V = ProcessView;

    open spec fn view(&self) -> ProcessView {
        ProcessView {
            approval_mode: self.approval_mode,
            workspace_scope: self.workspace_scope@,
            session_id: opt_view(self.session_id),
            initialized: self.initialized,
            session_resumable: self.session_resumable,
            capabilities: self.capabilities,
        }
    }
}

/// What a turn asks of the process.
#[derive(Clone, Debug)]
pub struct TurnRequest {
    pub run_id: String,
    pub mode: ApprovalMode,
    pub session_scope: String,
    pub session_id: Option<String>,
}

/// What a [`TurnRequest`] says.
#[verifier::ext_equal]
pub struct RequestView {
    pub run_id: Seq<char>,
    pub mode: ApprovalMode,
    pub session_scope: Seq<char>,
    pub session_id: Option<Seq<char>>,
}

impl View for TurnRequest {
    type V = RequestView;

    open spec fn view(&self) -> RequestView {
        RequestView {
            run_id: self.run_id@,
            mode: self.mode,
            session_scope: self.session_scope@,
            session_id: opt_view(self.session_id),
        }
    }
}

/// A process serves a turn only in the same mode, scope and session, and only
/// while it runs.
pub open spec fn serves(process: ProcessView, exited: bool, request: RequestView) -> bool {
    !exited && process.approval_mode == request.mode && process.workspace_scope
        == request.session_scope && process.session_id == request.session_id
}

fn same_opt(a: &Option<String>, b: &Option<String>) -> (res: bool)
    ensures
        res == (opt_view(*a) == opt_view(*b)),
{
    match (a, b) {
        (Some(x), Some(y)) => same(x.as_str(), y.as_str()),
        (None, None) => true,
        _ => false,
    }
}

/// Whether the process has to be replaced before the turn.
pub fn must_replace(process: &ProcessState, exited: bool, request: &TurnRequest) -> (res: bool)
    ensures
        res == !serves(process@, exited, request@),
        !res <==> !exited && process.approval_mode == request.mode && process.workspace_scope@
            == request.session_scope@ && opt_view(process.session_id) == opt_view(request.session_id),
{
    process.approval_mode != request.mode || exited || !same(
        process.workspace_scope.as_str(),
        request.session_scope.as_str(),
    ) || !same_opt(&process.session_id, &request.session_id)
}

/// A process that was just started for a turn.
pub open spec fn fresh_process(request: RequestView) -> ProcessView {
    ProcessView {
        approval_mode: request.mode,
        workspace_scope: request.session_scope,
        session_id: request.session_id,
        initialized: false,
        session_resumable: None,
        capabilities: Capabilities {
            provider_initialize_seen: false,
            can_handle_approval_receipt: false,
        },
    }
}

/// A process that was just started for a turn.
pub fn spawned_process(request: &TurnRequest) -> (res: ProcessState)
    ensures
        res@ == fresh_process(request@),
{
    let res = ProcessState {
        approval_mode: request.mode,
        workspace_scope: request.session_scope.clone(),
        session_id: request.session_id.clone(),
        initialized: false,
        session_resumable: None,
        capabilities: Capabilities {
            provider_initialize_seen: false,
            can_handle_approval_receipt: false,
        },
    };
    assert(res@ =~~= fresh_process(request@));
    res
}

/// A turn in progress.
#[derive(Clone, Debug)]
pub struct Turn {
    pub awaiting_initialize: bool,
    pub user_turn_sent: bool,
    pub completed: bool,
    pub failed: bool,
    pub terminal_events: Vec<AgentEvent>,
    pub transport_error: Option<String>,
    /// The process died because the runtime tore it down.
    pub teardown_break: bool,
    pub reset_after_turn: bool,
}

/// What a [`Turn`] says.
#[verifier::ext_equal]
pub struct TurnView {
    pub awaiting_initialize: bool,
    pub user_turn_sent: bool,
    pub completed: bool,
    pub failed: bool,
    pub terminal_events: Seq<EventView>,
    pub transport_error: Option<Seq<char>>,
    pub teardown_break: bool,
    pub reset_after_turn: bool,
}

impl View for Turn {
    type V = TurnView;

    open spec fn view(&self) -> TurnView {
        TurnView {
            awaiting_initialize: self.awaiting_initialize,
            user_turn_sent: self.user_turn_sent,
            completed: self.completed,
            failed: self.failed,
            terminal_events: event_views(self.terminal_events@),
            transport_error: opt_view(self.transport_error),
            teardown_break: self.teardown_break,
            reset_after_turn: self.reset_after_turn,
        }
    }
}

/// What is sent to the process at the start of a turn.
#[derive(Clone, Copy, Debug, PartialEq, Eq, Structural)]
pub struct Opening {
    /// Ask the process to initialize; the user's message follows its answer.
    pub send_initialize: bool,
    /// Give the turn the capabilities that the process announced earlier.
    pub seed_capabilities: bool,
    /// Send the user's message right away.
    pub send_user_turn: bool,
}

impl TurnView {
    /// A turn before its first line.
    pub open spec fn opened(awaiting: bool) -> TurnView {
        TurnView {
            awaiting_initialize: awaiting,
            user_turn_sent: !awaiting,
            completed: false,
            failed: false,
            terminal_events: Seq::empty(),
            transport_error: None,
            teardown_break: false,
            reset_after_turn: false,
        }
    }

    /// The turn with a transport failure.
    pub open spec fn broken(self, message: Seq<char>) -> TurnView {
        TurnView { transport_error: Some(message), ..self }
    }

    /// The turn was given up by the user or by the runtime.
    pub open spec fn aborted(self, cancelled: bool) -> bool {
        cancelled || self.teardown_break
    }

    /// The turn after an event of its stream. The events that end the turn are
    /// held back.
    pub open spec fn noted(self, event: EventView) -> TurnView {
        TurnView {
            completed: self.completed || event is AgentCompleted,
            failed: self.failed || event is AgentFailed || event is AgentCancelled,
            terminal_events: if event.terminal() {
                self.terminal_events.push(event)
            } else {
                self.terminal_events
            },
            ..self
        }
    }
}

/// A turn before its first line.
pub fn new_turn(awaiting: bool) -> (res: Turn)
    ensures
        res@ == TurnView::opened(awaiting),
{
    let turn = Turn {
        awaiting_initialize: awaiting,
        user_turn_sent: !awaiting,
        completed: false,
        failed: false,
        terminal_events: Vec::new(),
        transport_error: None,
        teardown_break: false,
        reset_after_turn: false,
    };
    assert(turn@ =~~= TurnView::opened(awaiting));
    turn
}

/// Opens a turn. A run that was cancelled while its process started sends
/// nothing.
pub fn open_turn(process: &ProcessState, cancelled_after_spawn: bool) -> (res: (Turn, Opening))
    ensures
        res.0@ == TurnView::opened(!process.initialized && !cancelled_after_spawn),
        res.1 == (Opening {
            send_initialize: !process.initialized && !cancelled_after_spawn,
            seed_capabilities: process.initialized && process.capabilities.provider_initialize_seen
                && !cancelled_after_spawn,
            send_user_turn: process.initialized && !cancelled_after_spawn,
        }),
{
    let awaiting: bool = !process.initialized && !cancelled_after_spawn;
    let turn = new_turn(awaiting);
    let opening = Opening {
        send_initialize: awaiting,
        seed_capabilities: !awaiting && process.capabilities.provider_initialize_seen
            && !cancelled_after_spawn,
        send_user_turn: !awaiting && !cancelled_after_spawn,
    };
    (turn, opening)
}

/// What the output of the process brought.
pub enum Signal {
    Line,
    /// The stream ended or failed, for this reason.
    StreamError(String),
    /// Nothing came within the poll interval. The writer may have failed, and
    /// the process may have exited.
    Timeout(Option<String>, bool),
    Disconnected,
}

/// What a [`Signal`] says.
pub enum SignalView {
    Line,
    StreamError(Seq<char>),
    Timeout(Option<Seq<char>>, bool),
    Disconnected,
}

impl View for Signal {
    type V = SignalView;

    open spec fn view(&self) -> SignalView {
        match self {
            Signal::Line => SignalView::Line,
            Signal::StreamError(e) => SignalView::StreamError(e@),
            Signal::Timeout(w, exited) => SignalView::Timeout(opt_view(*w), *exited),
            Signal::Disconnected => SignalView::Disconnected,
        }
    }
}

/// What a signal means to the turn.
pub enum SignalStep {
    /// Handle the line.
    HandleLine,
    /// Wait on.
    Wait,
    /// The turn was cancelled.
    Cancelled,
    /// The runtime tore the process down.
    TornDown,
    /// The transport failed.
    Fail(String),
    /// The transport failed; the process may have said why on its error output.
    FailWithStderr(String),
}

/// What a [`SignalStep`] says.
pub enum SignalStepView {
    HandleLine,
    Wait,
    Cancelled,
    TornDown,
    Fail(Seq<char>),
    FailWithStderr(Seq<char>),
}

impl View for SignalStep {
    type V = SignalStepView;

    open spec fn view(&self) -> SignalStepView {
        match self {
            SignalStep::HandleLine => SignalStepView::HandleLine,
            SignalStep::Wait => SignalStepView::Wait,
            SignalStep::Cancelled => SignalStepView::Cancelled,
            SignalStep::TornDown => SignalStepView::TornDown,
            SignalStep::Fail(m) => SignalStepView::Fail(m@),
            SignalStep::FailWithStderr(m) => SignalStepView::FailWithStderr(m@),
        }
    }
}

/// What a signal means: an end of the process is a cancellation if the run was
/// cancelled, a teardown if it was stopped on purpose, and a failure otherwise.
pub open spec fn signal_meaning(signal: SignalView, cancelled: bool, expected_stop: bool) -> SignalStepView {
    match signal {
        SignalView::Line => SignalStepView::HandleLine,
        SignalView::StreamError(error) => if cancelled {
            SignalStepView::Cancelled
        } else if expected_stop {
            SignalStepView::TornDown
        } else {
            SignalStepView::FailWithStderr(error)
        },
        SignalView::Timeout(writer_failure, exited) => match writer_failure {
            Some(message) => SignalStepView::Fail(message),
            None => if !exited {
                SignalStepView::Wait
            } else if cancelled {
                SignalStepView::Cancelled
            } else if expected_stop {
                SignalStepView::TornDown
            } else {
                SignalStepView::FailWithStderr("cosh-core exited before completing the Agent turn"@)
            },
        },
        SignalView::Disconnected => if cancelled {
            SignalStepView::Cancelled
        } else {
            SignalStepView::FailWithStderr("cosh-core output stream disconnected"@)
        },
    }
}

/// Decides what a signal means to the turn.
pub fn on_signal(turn: &mut Turn, signal: Signal, cancelled: bool, expected_stop: bool) -> (step: SignalStep)
    ensures
        step@ == signal_meaning(signal@, cancelled, expected_stop),
        final(turn)@ == (TurnView {
            teardown_break: old(turn)@.teardown_break || step@ is TornDown,
            transport_error: match step@ {
                SignalStepView::Fail(m) => Some(m),
                _ => old(turn)@.transport_error,
            },
            ..old(turn)@
        }),
{
    let ghost before = turn@;
    let step: SignalStep = match signal {
        Signal::Line => SignalStep::HandleLine,
        Signal::StreamError(error) => {
            if cancelled {
                SignalStep::Cancelled
            } else if expected_stop {
                SignalStep::TornDown
            } else {
                SignalStep::FailWithStderr(error)
            }
        },
        Signal::Timeout(writer_failure, exited) => match writer_failure {
            Some(message) => SignalStep::Fail(message),
            None => {
                if !exited {
                    SignalStep::Wait
                } else if cancelled {
                    SignalStep::Cancelled
                } else if expected_stop {
                    SignalStep::TornDown
                } else {
                    SignalStep::FailWithStderr(
                        "cosh-core exited before completing the Agent turn".to_owned(),
                    )
                }
            },
        },
        Signal::Disconnected => {
            if cancelled {
                SignalStep::Cancelled
            } else {
                SignalStep::FailWithStderr("cosh-core output stream disconnected".to_owned())
            }
        },
    };
    match &step {
        SignalStep::TornDown => {
            turn.teardown_break = true;
        },
        SignalStep::Fail(message) => {
            turn.transport_error = Some(message.clone());
        },
        _ => {},
    }
    assert(turn@ =~~= (TurnView {
        teardown_break: before.teardown_break || step@ is TornDown,
        transport_error: match step@ {
            SignalStepView::Fail(m) => Some(m),
            _ => before.transport_error,
        },
        ..before
    }));
    step
}

/// A failure together with what the process said on its error output.
pub open spec fn error_with_stderr(message: Seq<char>, stderr: Seq<char>) -> Seq<char> {
    if trimmed(stderr).len() == 0 {
        message
    } else {
        message + "\nstderr tail:\n"@ + trimmed(stderr)
    }
}

/// A failure together with what the process said on its error output.
pub fn process_error(message: &str, stderr: &str) -> (res: String)
    ensures
        res@ == error_with_stderr(message@, stderr@),
{
    let tail = trim(stderr);
    if tail.as_str().is_empty() {
        message.to_owned()
    } else {
        message.to_owned().concat("\nstderr tail:\n").concat(tail.as_str())
    }
}

/// Records a transport failure.
pub fn fail_transport(turn: &mut Turn, message: String)
    ensures
        final(turn)@ == old(turn)@.broken(message@),
{
    let ghost before = turn@;
    turn.transport_error = Some(message);
    assert(turn@ =~~= before.broken(message@));
}

/// What follows the process's answer to the initialize request.
#[derive(Clone, Copy, Debug, PartialEq, Eq, Structural)]
pub enum InitializeStep {
    /// The turn cannot go on.
    Stop,
    /// Send the user's message.
    SendUserTurn,
    /// Wait on.
    Continue,
}

/// Takes the process's answer to the initialize request. It arrives once per
/// process, so the process keeps the capabilities for later turns.
pub fn on_initialize(
    turn: &mut Turn,
    process: &mut ProcessState,
    response: Result<Capabilities, String>,
) -> (step: InitializeStep)
    ensures
        match response {
            Err(error) => step == InitializeStep::Stop && final(turn)@ == old(turn)@.broken(error@)
                && final(process)@ == old(process)@,
            Ok(capabilities) => {
                let sends = old(turn)@.awaiting_initialize && !old(turn)@.user_turn_sent;
                &&& final(turn)@ == old(turn)@
                &&& step == (if sends {
                    InitializeStep::SendUserTurn
                } else {
                    InitializeStep::Continue
                })
                &&& final(process)@ == (ProcessView {
                    capabilities,
                    initialized: old(process)@.initialized || sends,
                    ..old(process)@
                })
            },
        },
{
    match response {
        Err(error) => {
            fail_transport(turn, error);
            InitializeStep::Stop
        },
        Ok(capabilities) => {
            process.capabilities = capabilities;
            if turn.awaiting_initialize && !turn.user_turn_sent {
                process.initialized = true;
                InitializeStep::SendUserTurn
            } else {
                InitializeStep::Continue
            }
        },
    }
}

/// Accounts for the user's message; says whether the turn goes on.
pub fn on_user_turn(turn: &mut Turn, sent: Result<(), String>) -> (goes_on: bool)
    ensures
        match sent {
            Ok(_) => goes_on && final(turn)@ == (TurnView { user_turn_sent: true, ..old(turn)@ }),
            Err(error) => !goes_on && final(turn)@ == old(turn)@.broken(error@),
        },
{
    let ghost before = turn@;
    match sent {
        Ok(_) => {
            turn.user_turn_sent = true;
            assert(turn@ =~~= (TurnView { user_turn_sent: true, ..before }));
            true
        },
        Err(error) => {
            fail_transport(turn, error);
            false
        },
    }
}

/// Takes an event of the stream. `observed` is what the question gate said to
/// it. Hands the event back if it is to be shown now.
pub fn on_event(turn: &mut Turn, event: AgentEvent, observed: Result<(), String>) -> (shown: Option<AgentEvent>)
    ensures
        match observed {
            Err(error) => shown is None && final(turn)@ == old(turn)@.broken(error@),
            Ok(_) => final(turn)@ == old(turn)@.noted(event@) && match shown {
                Some(e) => e == event && !event@.terminal(),
                None => event@.terminal(),
            },
        },
{
    let ghost before = turn@;
    if let Err(error) = observed {
        fail_transport(turn, error);
        return None;
    }
    match &event {
        AgentEvent::AgentCompleted(_) => {
            turn.completed = true;
        },
        AgentEvent::AgentFailed(_, _) => {
            turn.failed = true;
        },
        AgentEvent::AgentCancelled(_, _) => {
            turn.failed = true;
        },
        _ => {},
    }
    if event.is_terminal() {
        turn.terminal_events.push(event);
        assert(event_views(turn.terminal_events@) =~= before.terminal_events.push(event@));
        assert(turn@ =~~= before.noted(event@));
        None
    } else {
        assert(turn@ =~~= before.noted(event@));
        Some(event)
    }
}

/// What came within the grace period behind the result.
pub enum GraceSignal {
    /// The stream ended or failed, for this reason.
    StreamError(String),
    /// A line with these events.
    Events(Vec<AgentEvent>),
    Timeout,
    Disconnected,
}

/// What the grace period means.
pub enum GraceStep {
    Done,
    /// Show these events.
    Emit(Vec<AgentEvent>),
    /// The transport failed; the process may have said why on its error output.
    FailWithStderr(String),
}

/// Only a recommendation to compact may follow the result.
pub open spec fn all_trailing(events: Seq<EventView>) -> bool {
    events.len() > 0 && forall|i: int| 0 <= i < events.len() ==> (#[trigger] events[i]).may_trail()
}

fn only_trailing(events: &Vec<AgentEvent>) -> (res: bool)
    ensures
        res == all_trailing(event_views(events@)),
{
    if events.len() == 0 {
        return false;
    }
    let mut i: usize = 0;
    while i < events.len()
        invariant
            i <= events@.len(),
            forall|j: int| 0 <= j < i ==> (#[trigger] event_views(events@)[j]).may_trail(),
        decreases events@.len() - i,
    {
        if !events[i].is_trailing() {
            assert(!event_views(events@)[i as int].may_trail());
            return false;
        }
        i = i + 1;
    }
    true
}

/// Takes what came within the grace period: an ended stream asks for a new
/// process, anything but a trailing recommendation breaks the protocol.
pub fn on_grace(turn: &mut Turn, signal: GraceSignal) -> (step: GraceStep)
    ensures
        match signal {
            GraceSignal::StreamError(error) => if error@ == "cosh-core output reached EOF"@ {
                step is Done && final(turn)@ == (TurnView { reset_after_turn: true, ..old(turn)@ })
            } else {
                step matches GraceStep::FailWithStderr(m) && m@ == error@ && final(turn)@ == old(turn)@
            },
            GraceSignal::Events(events) => if all_trailing(event_views(events@)) {
                step == GraceStep::Emit(events) && final(turn)@ == old(turn)@
            } else {
                step is Done && final(turn)@ == old(turn)@.broken(
                    "cosh-core emitted output after the terminal Agent result"@,
                )
            },
            GraceSignal::Timeout => step is Done && final(turn)@ == old(turn)@,
            GraceSignal::Disconnected => step is Done && final(turn)@ == (TurnView {
                reset_after_turn: true,
                ..old(turn)@
            }),
        },
{
    let ghost before = turn@;
    match signal {
        GraceSignal::StreamError(error) => {
            if same(error.as_str(), "cosh-core output reached EOF") {
                turn.reset_after_turn = true;
                assert(turn@ =~~= (TurnView { reset_after_turn: true, ..before }));
                GraceStep::Done
            } else {
                GraceStep::FailWithStderr(error)
            }
        },
        GraceSignal::Events(events) => {
            if only_trailing(&events) {
                GraceStep::Emit(events)
            } else {
                fail_transport(
                    turn,
                    "cosh-core emitted output after the terminal Agent result".to_owned(),
                );
                GraceStep::Done
            }
        },
        GraceSignal::Timeout => GraceStep::Done,
        GraceSignal::Disconnected => {
            turn.reset_after_turn = true;
            assert(turn@ =~~= (TurnView { reset_after_turn: true, ..before }));
            GraceStep::Done
        },
    }
}

/// Records that the response writer failed, unless a failure is known already.
pub fn on_writer_failure(turn: &mut Turn, failure: Option<String>)
    ensures
        final(turn)@ == (match (old(turn)@.transport_error, failure) {
            (None, Some(message)) => old(turn)@.broken(message@),
            _ => old(turn)@,
        }),
{
    if turn.transport_error.is_none() {
        if let Some(message) = failure {
            fail_transport(turn, message);
        }
    }
}

/// Why an aborted turn reports its cancellation.
pub open spec fn abort_reason(cancelled: bool) -> Seq<char> {
    if cancelled {
        "user requested cancellation"@
    } else {
        "cosh-core runtime shut down during turn"@
    }
}

/// The turn once its outcome is settled. A broken transport without a result
/// is a failure. An aborted turn reports cancellation and never success, but a
/// real failure stays.
pub open spec fn settled(run_id: Seq<char>, turn: TurnView, had_result: bool, cancelled: bool) -> TurnView {
    let checked = if turn.transport_error is Some && !had_result {
        TurnView {
            terminal_events: without_completion(turn.terminal_events),
            completed: false,
            failed: true,
            ..turn
        }
    } else {
        turn
    };
    if turn.aborted(cancelled) {
        let kept = without_completion(checked.terminal_events);
        TurnView {
            terminal_events: if has_cancellation(kept) {
                kept
            } else {
                kept.push(EventView::AgentCancelled(run_id, abort_reason(cancelled)))
            },
            ..checked
        }
    } else {
        checked
    }
}

/// Settles the outcome of the turn. `had_result` says whether the stream itself
/// had ended the turn.
pub fn settle(run_id: &str, turn: Turn, had_result: bool, cancelled: bool) -> (res: Turn)
    ensures
        res@ == settled(run_id@, turn@, had_result, cancelled),
{
    let ghost start = turn@;
    let mut turn = turn;
    if turn.transport_error.is_some() && !had_result {
        turn.terminal_events = drop_completion(turn.terminal_events);
        turn.completed = false;
        turn.failed = true;
    }
    if cancelled || turn.teardown_break {
        turn.terminal_events = drop_completion(turn.terminal_events);
        if !any_cancellation(&turn.terminal_events) {
            let reason: String = if cancelled {
                "user requested cancellation".to_owned()
            } else {
                "cosh-core runtime shut down during turn".to_owned()
            };
            let ghost kept = event_views(turn.terminal_events@);
            turn.terminal_events.push(AgentEvent::AgentCancelled(run_id.to_owned(), reason));
            assert(event_views(turn.terminal_events@) =~= kept.push(
                EventView::AgentCancelled(run_id@, abort_reason(cancelled)),
            ));
        }
    }
    assert(turn@ =~~= settled(run_id@, start, had_result, cancelled));
    turn
}

/// How the session of the turn is committed.
#[derive(Clone, Copy, Debug, PartialEq, Eq, Structural)]
pub struct CommitPlan {
    /// Keep the pending session as an artifact of the cancellation.
    pub record_cancellation: bool,
    pub completed: bool,
    pub failed: bool,
    /// The process goes on in the session of this turn.
    pub bind_session: bool,
}

/// How a settled turn commits its session. A failure that keeps the transcript
/// resumable counts as completed; a cancellation never commits the session.
pub open spec fn commit_of(
    turn: TurnView,
    cancelled: bool,
    retains: bool,
    resumable: Option<bool>,
) -> CommitPlan {
    let retain = !turn.aborted(cancelled) && retains;
    let completed = turn.completed || retain;
    let failed = turn.failed && !retain;
    CommitPlan {
        record_cancellation: turn.aborted(cancelled),
        completed: !turn.aborted(cancelled) && completed,
        failed: turn.aborted(cancelled) || failed,
        bind_session: completed && !failed && resumable != Some(false),
    }
}

/// How a settled turn commits its session. `retains` says that the failure of
/// the turn keeps its transcript resumable.
pub fn commit_plan(turn: &Turn, cancelled: bool, retains: bool, resumable: Option<bool>) -> (res: CommitPlan)
    ensures
        res == commit_of(turn@, cancelled, retains, resumable),
{
    let aborted: bool = cancelled || turn.teardown_break;
    let retain: bool = !aborted && retains;
    let completed: bool = turn.completed || retain;
    let failed: bool = turn.failed && !retain;
    let stuck: bool = match resumable {
        Some(false) => true,
        _ => false,
    };
    CommitPlan {
        record_cancellation: aborted,
        completed: !aborted && completed,
        failed: aborted || failed,
        bind_session: completed && !failed && !stuck,
    }
}

/// Keeps what the stream announced about resuming the session; only the turn
/// that initialized the process hears it. Returns what is known now.
pub fn note_resumable(process: &mut ProcessState, observed: Option<bool>) -> (known: Option<bool>)
    ensures
        final(process)@ == (ProcessView {
            session_resumable: if observed is Some {
                observed
            } else {
                old(process)@.session_resumable
            },
            ..old(process)@
        }),
        known == final(process)@.session_resumable,
{
    if observed.is_some() {
        process.session_resumable = observed;
    }
    process.session_resumable
}

/// Binds the process to the session that its turn left pending.
pub fn bind_session(process: &mut ProcessState, plan: CommitPlan, pending: Option<String>)
    ensures
        final(process)@ == (ProcessView {
            session_id: if plan.bind_session {
                opt_view(pending)
            } else {
                old(process)@.session_id
            },
            ..old(process)@
        }),
{
    if plan.bind_session {
        process.session_id = pending;
    }
}

/// How a turn ends: its transport failure, or whether the process has to be
/// replaced.
pub open spec fn turn_result(turn: TurnView, cancelled: bool, reload_failed: bool) -> Result<bool, Seq<char>> {
    match turn.transport_error {
        Some(error) => Err(error),
        None => Ok(turn.aborted(cancelled) || turn.reset_after_turn || reload_failed),
    }
}

/// How a turn ends.
pub fn finish_turn(turn: Turn, cancelled: bool, reload_failed: bool) -> (res: Result<bool, String>)
    ensures
        match res {
            Ok(reset) => turn_result(turn@, cancelled, reload_failed) == Ok::<bool, Seq<char>>(reset),
            Err(error) => turn_result(turn@, cancelled, reload_failed) == Err::<bool, Seq<char>>(error@),
        },
{
    match turn.transport_error {
        Some(error) => Err(error),
        None => Ok(cancelled || turn.teardown_break || turn.reset_after_turn || reload_failed),
    }
}

/// An aborted turn never reports success, and always reports a cancellation.
pub proof fn aborted_turns_report_cancellation(
    run_id: Seq<char>,
    turn: TurnView,
    had_result: bool,
    cancelled: bool,
)
    requires
        turn.aborted(cancelled),
    ensures
        has_cancellation(settled(run_id, turn, had_result, cancelled).terminal_events),
        forall|i: int|
            0 <= i < settled(run_id, turn, had_result, cancelled).terminal_events.len() ==> !((
            #[trigger] settled(run_id, turn, had_result, cancelled).terminal_events[i]) is AgentCompleted),
{
    let checked = if turn.transport_error is Some && !had_result {
        without_completion(turn.terminal_events)
    } else {
        turn.terminal_events
    };
    let kept = without_completion(checked);
    lemma_without_completion(checked);
    let out = settled(run_id, turn, had_result, cancelled).terminal_events;
    if !has_cancellation(kept) {
        assert(out[kept.len() as int] is AgentCancelled);
    }
}

/// The cancellation that an aborted turn reports by itself names its run.
pub proof fn cancellations_name_their_run(
    run_id: Seq<char>,
    turn: TurnView,
    had_result: bool,
    cancelled: bool,
)
    requires
        turn.aborted(cancelled),
        !has_cancellation(turn.terminal_events),
    ensures
        settled(run_id, turn, had_result, cancelled).terminal_events.last()
            == EventView::AgentCancelled(run_id, abort_reason(cancelled)),
{
    lemma_no_new_cancellation(turn.terminal_events);
    lemma_no_new_cancellation(without_completion(turn.terminal_events));
}

/// A real failure survives an abort.
pub proof fn aborts_keep_real_failures(
    run_id: Seq<char>,
    turn: TurnView,
    had_result: bool,
    cancelled: bool,
    run: Seq<char>,
    reason: Seq<char>,
)
    requires
        turn.terminal_events.contains(EventView::AgentFailed(run, reason)),
    ensures
        settled(run_id, turn, had_result, cancelled).terminal_events.contains(EventView::AgentFailed(run, reason)),
{
    let event = EventView::AgentFailed(run, reason);
    lemma_keeps_others(turn.terminal_events, event);
    let once = without_completion(turn.terminal_events);
    lemma_keeps_others(once, event);
    let kept = if turn.transport_error is Some && !had_result {
        without_completion(once)
    } else {
        once
    };
    let i = choose|i: int| 0 <= i < kept.len() && kept[i] == event;
    let pushed = kept.push(EventView::AgentCancelled(run_id, abort_reason(cancelled)));
    assert(pushed[i] == event);
}

/// A transport that broke before any result is a failed turn, never a
/// completed one.
pub proof fn broken_transport_fails_the_turn(
    run_id: Seq<char>,
    turn: TurnView,
    cancelled: bool,
    reload_failed: bool,
)
    requires
        turn.transport_error is Some,
    ensures
        !settled(run_id, turn, false, cancelled).completed,
        settled(run_id, turn, false, cancelled).failed,
        turn_result(settled(run_id, turn, false, cancelled), cancelled, reload_failed) is Err,
{
}

/// A cancelled turn commits no session, and asks for a new process unless its
/// transport failed.
pub proof fn cancelled_turns_commit_nothing(
    turn: TurnView,
    cancelled: bool,
    retains: bool,
    resumable: Option<bool>,
    reload_failed: bool,
)
    requires
        turn.aborted(cancelled),
    ensures
        !commit_of(turn, cancelled, retains, resumable).completed,
        commit_of(turn, cancelled, retains, resumable).failed,
        turn_result(turn, cancelled, reload_failed) matches Ok(reset) ==> reset,
{
}

/// A controlled stop of the process is never a failure of the turn.
pub proof fn expected_stops_are_no_failures(error: Seq<char>, cancelled: bool)
    ensures
        signal_meaning(SignalView::StreamError(error), cancelled, true) is Cancelled || signal_meaning(
            SignalView::StreamError(error),
            cancelled,
            true,
        ) is TornDown,
        signal_meaning(SignalView::Timeout(None, true), cancelled, true) is Cancelled || signal_meaning(
            SignalView::Timeout(None, true),
            cancelled,
            true,
        ) is TornDown,
{
}

} // verus!
