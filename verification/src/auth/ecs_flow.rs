//! The ECS RAM role flow: preparing, checking, waiting, saving and cleaning up.
//!
//! Time is a monotonic clock in milliseconds. The flow decides; whoever drives
//! it starts and cancels the workers and hands back what they finished with.

use vstd::prelude::*;
use vstd::string::*;

use crate::auth::form::{
    AuthBackend, AuthPhase, AuthView, EcsRamRolePrepare, PhaseView, PrepareView, RuntimeAuthState,
    SysomMenu, SysomView,
};
use crate::i18n::{catalog, I18n, Language, MessageId};
use crate::text::{is_text, opt_view, push_char, same};
use crate::tree::{has_text, json_tree, text_at, Tree};
use crate::values::{NameSet, Values};

verus! {

/// Time between two checks.
pub const INTERVAL: u64 = 2_000;

/// Time that a role authorization may take.
pub const WAIT_LIMIT: u64 = 200_000;

/// Time that one probe, or its cleanup, may take.
pub const OPERATION_LIMIT: u64 = 5_000;

/// Time that saving the configuration may take.
pub const CONFIGURE_LIMIT: u64 = 12_000;

/// Where the flow stands.
#[derive(Clone, Copy, Debug, PartialEq, Eq, Structural)]
pub enum Stage {
    Preparing,
    Checking,
    Waiting,
    Submitting,
    Cancelling,
    TimedOut,
    Failed,
    Unknown,
    Editing,
}

impl Stage {
    /// The stages in which probes are made.
    pub open spec fn probes(self) -> bool {
        self == Stage::Preparing || self == Stage::Checking || self == Stage::Waiting
    }

    fn is_probing(self) -> (res: bool)
        ensures
            res == self.probes(),
    {
        self == Stage::Preparing || self == Stage::Checking || self == Stage::Waiting
    }
}

/// The worker that the flow waits for.
#[derive(Clone, Copy, Debug, PartialEq, Eq, Structural)]
pub enum Operation {
    /// A read-only probe, that prepares or verifies.
    Probe(bool),
    /// Saving the configuration.
    Configure,
}

/// Why a configuration was not saved.
#[derive(Clone, Debug)]
pub struct AuthConfigureFailure {
    pub message: String,
    pub code: Option<String>,
    /// The field of the form that the failure points at.
    pub focus: Option<String>,
}

/// What an [`AuthConfigureFailure`] says.
#[verifier::ext_equal]
pub struct FailureView {
    pub message: Seq<char>,
    pub code: Option<Seq<char>>,
    pub focus: Option<Seq<char>>,
}

impl View for AuthConfigureFailure {
    type V = FailureView;

    open spec fn view(&self) -> FailureView {
        FailureView {
            message: self.message@,
            code: opt_view(self.code),
            focus: opt_view(self.focus),
        }
    }
}

/// What a worker finished with.
pub enum Finished {
    Probe(Result<serde_json::Value, String>),
    Saved(Result<(), AuthConfigureFailure>),
}

/// What a [`Finished`] says.
pub enum FinishedView {
    Probe(Result<Tree, Seq<char>>),
    Saved(Result<(), FailureView>),
}

/// What the result of a probe says.
pub open spec fn probe_view(r: Result<serde_json::Value, String>) -> Result<Tree, Seq<char>> {
    match r {
        Ok(v) => Ok(json_tree(v)),
        Err(e) => Err(e@),
    }
}

/// What the result of a save says.
pub open spec fn saved_view(r: Result<(), AuthConfigureFailure>) -> Result<(), FailureView> {
    match r {
        Ok(_) => Ok(()),
        Err(e) => Err(e@),
    }
}

impl View for Finished {
    type V = FinishedView;

    open spec fn view(&self) -> FinishedView {
        match self {
            Finished::Probe(r) => FinishedView::Probe(probe_view(*r)),
            Finished::Saved(r) => FinishedView::Saved(saved_view(*r)),
        }
    }
}

/// A finished worker in terms of what it was started for.
pub enum Reply {
    Prepared(Result<serde_json::Value, String>),
    Verified(Result<serde_json::Value, String>),
    Configured(Result<(), AuthConfigureFailure>),
}

/// What a [`Reply`] says.
pub enum ReplyView {
    Prepared(Result<Tree, Seq<char>>),
    Verified(Result<Tree, Seq<char>>),
    Configured(Result<(), FailureView>),
}

impl View for Reply {
    type V = ReplyView;

    open spec fn view(&self) -> ReplyView {
        match self {
            Reply::Prepared(r) => ReplyView::Prepared(probe_view(*r)),
            Reply::Verified(r) => ReplyView::Verified(probe_view(*r)),
            Reply::Configured(r) => ReplyView::Configured(saved_view(*r)),
        }
    }
}

/// The flow of one form.
#[derive(Clone, Debug)]
pub struct EcsFlow {
    pub id: String,
    pub stage: Stage,
    pub operation: Option<Operation>,
    pub operation_deadline: Option<u64>,
    pub deadline: Option<u64>,
    pub next_check: u64,
    pub stop_stage: Stage,
    pub error: Option<String>,
    pub challenge: Option<EcsRamRolePrepare>,
    pub waiting_for_refresh: bool,
    pub cleanup_reported: bool,
}

/// What an [`EcsFlow`] says.
#[verifier::ext_equal]
pub struct FlowView {
    pub id: Seq<char>,
    pub stage: Stage,
    pub operation: Option<Operation>,
    pub operation_deadline: Option<u64>,
    pub deadline: Option<u64>,
    pub next_check: u64,
    pub stop_stage: Stage,
    pub error: Option<Seq<char>>,
    pub challenge: Option<PrepareView>,
    pub waiting_for_refresh: bool,
    pub cleanup_reported: bool,
}

impl View for EcsFlow {
    type V = FlowView;

    open spec fn view(&self) -> FlowView {
        FlowView {
            id: self.id@,
            stage: self.stage,
            operation: self.operation,
            operation_deadline: self.operation_deadline,
            deadline: self.deadline,
            next_check: self.next_check,
            stop_stage: self.stop_stage,
            error: opt_view(self.error),
            challenge: match self.challenge {
                Some(c) => Some(c@),
                None => None,
            },
            waiting_for_refresh: self.waiting_for_refresh,
            cleanup_reported: self.cleanup_reported,
        }
    }
}

/// A deadline that has come.
pub open spec fn due(deadline: Option<u64>, now: u64) -> bool {
    deadline is Some && now >= deadline->0
}

/// The clock value `d` milliseconds after `now`.
pub open spec fn after(now: u64, d: u64) -> u64 {
    (now + d) as u64
}

fn is_due(deadline: Option<u64>, now: u64) -> (res: bool)
    ensures
        res == due(deadline, now),
{
    match deadline {
        Some(d) => now >= d,
        None => false,
    }
}

impl FlowView {
    /// A new flow for the form `auth`: a challenge that is already on screen is
    /// checked, and its authorization may take the wait limit from now on.
    pub open spec fn started(auth: AuthView, now: u64) -> FlowView {
        let challenge = match auth.phase {
            PhaseView::AliyunEcsChallenge(p) => Some(p),
            _ => None,
        };
        FlowView {
            id: auth.id,
            stage: if challenge is Some {
                Stage::Checking
            } else {
                Stage::Preparing
            },
            operation: None,
            operation_deadline: None,
            deadline: if challenge is Some {
                Some(after(now, WAIT_LIMIT))
            } else {
                None
            },
            next_check: now,
            stop_stage: Stage::Cancelling,
            error: None,
            challenge,
            waiting_for_refresh: false,
            cleanup_reported: false,
        }
    }

    /// The flow on its way to `destination`: the worker gets the operation limit
    /// to end. Once stopping, only a cancellation changes the destination, and
    /// nothing changes the deadline.
    pub open spec fn stopped(self, destination: Stage, now: u64) -> FlowView {
        if self.stage == Stage::Cancelling {
            if destination == Stage::Cancelling {
                FlowView { stop_stage: Stage::Cancelling, ..self }
            } else {
                self
            }
        } else {
            FlowView {
                stage: Stage::Cancelling,
                stop_stage: destination,
                operation_deadline: Some(after(now, OPERATION_LIMIT)),
                ..self
            }
        }
    }

    /// Whether stopping cancels a probe.
    pub open spec fn stop_cancels(self) -> bool {
        self.stage != Stage::Cancelling && self.operation matches Some(Operation::Probe(_))
    }

    /// The reply that a finished worker means to this flow.
    pub open spec fn reply(self, finished: Option<FinishedView>) -> Option<ReplyView> {
        match (self.operation, finished) {
            (Some(Operation::Probe(true)), Some(FinishedView::Probe(r))) => Some(
                ReplyView::Prepared(r),
            ),
            (Some(Operation::Probe(false)), Some(FinishedView::Probe(r))) => Some(
                ReplyView::Verified(r),
            ),
            (Some(Operation::Configure), Some(FinishedView::Saved(r))) => Some(
                ReplyView::Configured(r),
            ),
            _ => None,
        }
    }

    /// The flow once it has taken the reply, if there is one.
    pub open spec fn taken(self, finished: Option<FinishedView>) -> FlowView {
        if self.reply(finished) is Some {
            FlowView { operation: None, operation_deadline: None, ..self }
        } else {
            self
        }
    }

    /// The flow of a form that left its field editor: verification restarts.
    pub open spec fn resumed(self, handled: bool, now: u64) -> FlowView {
        if self.stage == Stage::Editing && handled {
            FlowView {
                stage: Stage::Checking,
                deadline: Some(after(now, WAIT_LIMIT)),
                next_check: now,
                error: None,
                ..self
            }
        } else {
            self
        }
    }

    /// Where a shell exit or an expired deadline sends the flow. Closing can
    /// cancel a probe, never a save or its unknown result.
    pub open spec fn stop_reason(self, exited: bool, now: u64) -> Option<Stage> {
        if exited {
            if self.operation matches Some(Operation::Probe(_)) || self.stage.probes() || self.stage
                == Stage::Cancelling {
                Some(Stage::Cancelling)
            } else {
                None
            }
        } else if self.stage.probes() && due(self.deadline, now) {
            Some(Stage::TimedOut)
        } else if self.stage.probes() && due(self.operation_deadline, now) {
            Some(Stage::Failed)
        } else {
            None
        }
    }

    /// The flow after a shell exit or expired deadlines are accounted for.
    pub open spec fn settled(self, exited: bool, now: u64) -> FlowView {
        match self.stop_reason(exited, now) {
            Some(Stage::Failed) => FlowView {
                error: Some("ECS credential check timed out"@),
                ..self
            }.stopped(Stage::Failed, now),
            Some(destination) => self.stopped(destination, now),
            None => self,
        }
    }

    /// The flow after the reply is taken; a save that is overdue without one is
    /// of unknown outcome.
    pub open spec fn observed(self, finished: Option<FinishedView>, now: u64) -> FlowView {
        if self.reply(finished) is None && self.stage == Stage::Submitting && due(
            self.operation_deadline,
            now,
        ) {
            FlowView { stage: Stage::Unknown, ..self }
        } else {
            self.taken(finished)
        }
    }
}

impl EcsFlow {
    /// A new flow for the form `auth`.
    pub fn new(auth: &RuntimeAuthState, now: u64) -> (res: EcsFlow)
        requires
            now + WAIT_LIMIT <= u64::MAX,
        ensures
            res@ == FlowView::started(auth@, now),
    {
        let challenge: Option<EcsRamRolePrepare> = match &auth.phase {
            AuthPhase::AliyunEcsChallenge(p) => Some(p.copy()),
            _ => None,
        };
        let checking: bool = challenge.is_some();
        EcsFlow {
            id: auth.id.clone(),
            stage: if checking {
                Stage::Checking
            } else {
                Stage::Preparing
            },
            operation: None,
            operation_deadline: None,
            deadline: if checking {
                Some(now + WAIT_LIMIT)
            } else {
                None
            },
            next_check: now,
            stop_stage: Stage::Cancelling,
            error: None,
            challenge,
            waiting_for_refresh: false,
            cleanup_reported: false,
        }
    }

    /// Sends the flow to `destination`. Says whether its probe has to be
    /// cancelled.
    pub fn stop(&mut self, destination: Stage, now: u64) -> (cancel: bool)
        requires
            now + WAIT_LIMIT <= u64::MAX,
        ensures
            final(self)@ == old(self)@.stopped(destination, now),
            cancel == old(self)@.stop_cancels(),
    {
        if self.stage == Stage::Cancelling {
            if destination == Stage::Cancelling {
                self.stop_stage = Stage::Cancelling;
            }
            return false;
        }
        let cancel: bool = match self.operation {
            Some(Operation::Probe(_)) => true,
            _ => false,
        };
        self.stage = Stage::Cancelling;
        self.stop_stage = destination;
        self.operation_deadline = Some(now + OPERATION_LIMIT);
        cancel
    }
}

/// The form and its flow.
#[derive(Clone, Debug)]
pub struct AuthRuntime {
    pub state: Option<RuntimeAuthState>,
    pub ecs: Option<EcsFlow>,
    pub completed_ids: NameSet,
}

/// What an [`AuthRuntime`] says.
#[verifier::ext_equal]
pub struct RuntimeView {
    pub state: Option<AuthView>,
    pub ecs: Option<FlowView>,
    pub completed_ids: Set<Seq<char>>,
}

impl View for AuthRuntime {
    type V = RuntimeView;

    open spec fn view(&self) -> RuntimeView {
        RuntimeView {
            state: match self.state {
                Some(a) => Some(a@),
                None => None,
            },
            ecs: match self.ecs {
                Some(f) => Some(f@),
                None => None,
            },
            completed_ids: self.completed_ids@,
        }
    }
}

impl AuthRuntime {
    /// A form on screen is well formed.
    pub open spec fn wf(&self) -> bool {
        self.state is Some ==> self.state->0.wf()
    }
}

/// The phases that belong to the flow.
pub open spec fn handled(phase: PhaseView) -> bool {
    phase is PreparingMenu || phase is AliyunEcsPreparing || phase is AliyunEcsChallenge
}

/// Whether the flow drives this form.
pub fn handles(auth: &RuntimeAuthState) -> (res: bool)
    ensures
        res == handled(auth@.phase),
{
    match auth.phase {
        AuthPhase::PreparingMenu => true,
        AuthPhase::AliyunEcsPreparing => true,
        AuthPhase::AliyunEcsChallenge(_) => true,
        _ => false,
    }
}

/// Whether the flow rests at an outcome that the user can answer.
pub open spec fn offers_option(flow: Option<FlowView>) -> bool {
    match flow {
        Some(f) => f.operation is None && (f.stage == Stage::TimedOut || f.stage == Stage::Failed
            || f.stage == Stage::Unknown),
        None => false,
    }
}

/// How many options the panel offers.
pub fn option_count(runtime: &AuthRuntime) -> (res: usize)
    ensures
        res == (if offers_option(runtime@.ecs) {
            1int
        } else {
            0int
        }),
{
    match &runtime.ecs {
        Some(flow) => {
            if flow.operation.is_none() && (flow.stage == Stage::TimedOut || flow.stage == Stage::Failed
                || flow.stage == Stage::Unknown) {
                1
            } else {
                0
            }
        },
        None => 0,
    }
}

/// The headline of the panel.
pub open spec fn headline(flow: Option<FlowView>) -> MessageId {
    match flow {
        None => MessageId::AuthEcsChecking,
        Some(f) => match f.stage {
            Stage::Preparing => MessageId::AuthEcsChecking,
            Stage::Checking => MessageId::AuthEcsChecking,
            Stage::Waiting => if f.waiting_for_refresh {
                MessageId::AuthEcsRefreshing
            } else {
                MessageId::AuthEcsWaiting
            },
            Stage::Submitting => MessageId::AuthEcsSaving,
            Stage::Cancelling => if f.cleanup_reported {
                MessageId::AuthEcsCleanupFailed
            } else {
                MessageId::AuthEcsCancelling
            },
            Stage::TimedOut => MessageId::AuthEcsTimedOut,
            Stage::Unknown => if f.operation is Some {
                MessageId::AuthEcsCleanupFailed
            } else {
                MessageId::AuthEcsUnknown
            },
            _ => MessageId::AuthEcsFailed,
        },
    }
}

/// The stage that the panel shows.
pub open spec fn shown_stage(flow: Option<FlowView>) -> Stage {
    match flow {
        Some(f) => f.stage,
        None => Stage::Checking,
    }
}

/// The text of the panel: headline, error and, where cancelling is possible,
/// how to cancel.
pub open spec fn question_text(flow: Option<FlowView>, language: Language) -> Seq<char> {
    let head = catalog(language, headline(flow));
    let shown = match flow {
        Some(FlowView { error: Some(e), .. }) => head + seq!['\n'] + e,
        _ => head,
    };
    if shown_stage(flow) == Stage::Submitting || shown_stage(flow) == Stage::Cancelling {
        shown
    } else {
        shown + seq!['\n'] + catalog(language, MessageId::AuthEcsCancelHint)
    }
}

/// The panel shows the authorization code while a role is missing.
pub open spec fn shows_code(flow: Option<FlowView>) -> bool {
    (shown_stage(flow) == Stage::Waiting || shown_stage(flow) == Stage::TimedOut) && !(flow matches Some(
        f,
    ) && f.waiting_for_refresh)
}

/// The option that the panel offers.
pub open spec fn option_text(flow: Option<FlowView>, language: Language) -> Seq<char> {
    catalog(
        language,
        if shown_stage(flow) == Stage::Unknown {
            MessageId::AuthEcsReturn
        } else {
            MessageId::AuthEcsRetry
        },
    )
}

/// The panel: its text, its options and whether it shows the authorization code.
pub fn question(runtime: &AuthRuntime, language: Language) -> (res: (String, Vec<String>, bool))
    ensures
        res.0@ == question_text(runtime@.ecs, language),
        res.1@.len() == (if offers_option(runtime@.ecs) {
            1int
        } else {
            0int
        }),
        offers_option(runtime@.ecs) ==> res.1@[0]@ == option_text(runtime@.ecs, language),
        res.2 == shows_code(runtime@.ecs),
{
    let i18n = I18n::new(language);
    let (stage, refreshing, reported, running): (Stage, bool, bool, bool) = match &runtime.ecs {
        Some(flow) => (
            flow.stage,
            flow.waiting_for_refresh,
            flow.cleanup_reported,
            flow.operation.is_some(),
        ),
        None => (Stage::Checking, false, false, false),
    };
    let id: MessageId = match stage {
        Stage::Preparing => MessageId::AuthEcsChecking,
        Stage::Checking => MessageId::AuthEcsChecking,
        Stage::Waiting => if refreshing {
            MessageId::AuthEcsRefreshing
        } else {
            MessageId::AuthEcsWaiting
        },
        Stage::Submitting => MessageId::AuthEcsSaving,
        Stage::Cancelling => if reported {
            MessageId::AuthEcsCleanupFailed
        } else {
            MessageId::AuthEcsCancelling
        },
        Stage::TimedOut => MessageId::AuthEcsTimedOut,
        Stage::Unknown => if running {
            MessageId::AuthEcsCleanupFailed
        } else {
            MessageId::AuthEcsUnknown
        },
        _ => MessageId::AuthEcsFailed,
    };
    let mut text: String = i18n.t(id).to_owned();
    if let Some(flow) = &runtime.ecs {
        if let Some(error) = &flow.error {
            let ghost head = text@;
            push_char(&mut text, '\n');
            text.append(error.as_str());
            assert(text@ =~= head + seq!['\n'] + error@);
        }
    }
    if !(stage == Stage::Submitting || stage == Stage::Cancelling) {
        let ghost shown = text@;
        push_char(&mut text, '\n');
        text.append(i18n.t(MessageId::AuthEcsCancelHint));
        assert(text@ =~= shown + seq!['\n'] + catalog(language, MessageId::AuthEcsCancelHint));
    }
    let mut options: Vec<String> = Vec::new();
    if option_count(runtime) == 1 {
        options.push(
            i18n.t(
                if stage == Stage::Unknown {
                    MessageId::AuthEcsReturn
                } else {
                    MessageId::AuthEcsRetry
                },
            ).to_owned(),
        );
    }
    (text, options, (stage == Stage::Waiting || stage == Stage::TimedOut) && !refreshing)
}

/// The form after a redraw: a new capture, unless the flow is cancelling and
/// the submitted capture has to stay.
pub open spec fn redrawn(r: RuntimeView) -> RuntimeView {
    let cancelling = r.ecs matches Some(f) && f.stage == Stage::Cancelling;
    match r.state {
        Some(a) => if cancelling {
            r
        } else {
            RuntimeView {
                state: Some(
                    AuthView {
                        field_capture_revision: ((a.field_capture_revision + 1) % 0x1_0000_0000_0000_0000) as u64,
                        ..a
                    },
                ),
                ..r
            }
        },
        None => r,
    }
}

/// Accounts for a redraw of the panel.
pub fn redraw(runtime: &mut AuthRuntime)
    requires
        old(runtime).wf(),
    ensures
        final(runtime).wf(),
        final(runtime)@ == redrawn(old(runtime)@),
{
    let cancelling: bool = match &runtime.ecs {
        Some(flow) => flow.stage == Stage::Cancelling,
        None => false,
    };
    let ghost before = runtime@;
    if !cancelling {
        if let Some(mut auth) = runtime.state.take() {
            auth.field_capture_revision = auth.field_capture_revision.wrapping_add(1);
            runtime.state = Some(auth);
        }
    }
    assert(runtime@ =~~= redrawn(before));
}

/// The form with the challenge of `p` on screen; hand-entered keys are dropped.
pub open spec fn challenged(auth: AuthView, p: PrepareView) -> AuthView {
    AuthView {
        collected_values: auth.collected_values.insert("auth_source"@, "ecs_ram_role"@).remove(
            "access_key_id"@,
        ).remove("access_key_secret"@).remove("security_token"@),
        phase: PhaseView::AliyunEcsChallenge(p),
        ..auth
    }
}

/// Puts the challenge of `prepare` on screen.
pub fn set_challenge(auth: &mut RuntimeAuthState, prepare: EcsRamRolePrepare)
    requires
        old(auth).wf(),
    ensures
        final(auth).wf(),
        final(auth)@ == challenged(old(auth)@, prepare@),
{
    let ghost before = auth@;
    auth.collected_values.insert("auth_source", "ecs_ram_role");
    auth.collected_values.remove("access_key_id");
    auth.collected_values.remove("access_key_secret");
    auth.collected_values.remove("security_token");
    auth.phase = AuthPhase::AliyunEcsChallenge(prepare);
    assert(auth@ =~~= challenged(before, prepare@));
}

/// Takes the reply of a finished worker, if it belongs to the flow's operation.
pub fn take_reply(flow: &mut EcsFlow, finished: Option<Finished>) -> (res: Option<Reply>)
    ensures
        final(flow)@ == old(flow)@.taken(finished_view(finished)),
        match res {
            Some(r) => old(flow)@.reply(finished_view(finished)) == Some(r@),
            None => old(flow)@.reply(finished_view(finished)) is None,
        },
{
    let reply: Reply = match (flow.operation, finished) {
        (Some(Operation::Probe(prepare)), Some(Finished::Probe(result))) => {
            if prepare {
                Reply::Prepared(result)
            } else {
                Reply::Verified(result)
            }
        },
        (Some(Operation::Configure), Some(Finished::Saved(result))) => Reply::Configured(result),
        _ => {
            return None;
        },
    };
    flow.operation = None;
    flow.operation_deadline = None;
    Some(reply)
}

/// What an optional [`Finished`] says.
pub open spec fn finished_view(f: Option<Finished>) -> Option<FinishedView> {
    match f {
        Some(x) => Some(x@),
        None => None,
    }
}

/// What is left to do of a poll once a probe was attempted.
#[derive(Clone, Copy, Debug, PartialEq, Eq, Structural)]
pub struct PendingCheck {
    /// Whether the probe prepares; otherwise it verifies.
    pub prepare: bool,
    pub previous: Stage,
    pub was_waiting_for_refresh: bool,
    pub had_operation: bool,
    pub preparing_menu: bool,
    pub width_changed: bool,
    pub now: u64,
}

/// What has to be done after a poll.
pub enum PollStep {
    Idle,
    /// Draw the panel again.
    Redraw,
    /// Close the panel as cancelled.
    CancelPanel,
    /// Hand the prepare result to the provider menu and draw the panel again.
    FinishMenu(Result<serde_json::Value, String>),
    /// Close the panel and answer the running turn.
    SendResponse,
    /// Save the configuration.
    StartConfiguration,
    /// Close the panel: this provider is configured.
    Configured(String),
    /// Start a probe.
    StartProbe(PendingCheck),
}

/// What a [`PollStep`] says.
pub enum StepView {
    Idle,
    Redraw,
    CancelPanel,
    FinishMenu(Result<Tree, Seq<char>>),
    SendResponse,
    StartConfiguration,
    Configured(Seq<char>),
    StartProbe(PendingCheck),
}

impl View for PollStep {
    type V = StepView;

    open spec fn view(&self) -> StepView {
        match self {
            PollStep::Idle => StepView::Idle,
            PollStep::Redraw => StepView::Redraw,
            PollStep::CancelPanel => StepView::CancelPanel,
            PollStep::FinishMenu(r) => StepView::FinishMenu(probe_view(*r)),
            PollStep::SendResponse => StepView::SendResponse,
            PollStep::StartConfiguration => StepView::StartConfiguration,
            PollStep::Configured(label) => StepView::Configured(label@),
            PollStep::StartProbe(p) => StepView::StartProbe(*p),
        }
    }
}

/// The instance that a prepare result names.
pub open spec fn prepared_instance(value: Tree) -> Option<PrepareView> {
    match (value.text_at("instance_id"@), value.text_at("console_url"@)) {
        (Some(instance), Some(url)) => if value.text_at("mode"@) == Some("ecs_ram_role"@)
            && instance.len() > 0 && url.len() > 0 {
            Some(PrepareView { instance_id: instance, console_url: url })
        } else {
            None
        },
        _ => None,
    }
}

/// The form back at its hand-filled fields. An identifier that is already
/// known is not asked for again.
pub open spec fn manual_form(auth: AuthView) -> AuthView {
    let plain = AuthView {
        sysom: SysomView::Manual,
        collected_values: auth.collected_values.remove("auth_source"@),
        phase: PhaseView::FillingField,
        ..auth
    };
    let first = plain.editable_from(0);
    let at = if first < plain.provider().fields.len() && plain.provider().fields[first].name
        == "provider_id"@ && plain.collected_values.contains_key("provider_id"@) {
        plain.editable_from(first + 1)
    } else {
        first
    };
    AuthView { current_field: at, ..plain }.loaded()
}

/// The first shown field named `name`, from `start` on.
pub open spec fn focus_from(auth: AuthView, name: Seq<char>, start: int) -> Option<int>
    decreases auth.provider().fields.len() - start,
{
    if start < 0 || start >= auth.provider().fields.len() {
        None
    } else if auth.provider().fields[start].name == name && !auth.provider().fields[start].secret {
        Some(start)
    } else {
        focus_from(auth, name, start + 1)
    }
}

/// The field that a failed save points at.
pub open spec fn focus_index(auth: AuthView, failure: FailureView) -> Option<int> {
    match failure.focus {
        Some(name) => focus_from(auth, name, 0),
        None => None,
    }
}

/// The form once the identifier may be edited again.
pub open spec fn renamable(auth: AuthView, index: int) -> AuthView {
    if auth.provider().fields[index].name == "provider_id"@ && auth.editing_provider_name is None {
        AuthView { default_provider_id: false, ..auth }
    } else {
        auth
    }
}

/// Flow and form after a rejected save.
pub open spec fn rejected(flow: FlowView, auth: AuthView, failure: FailureView) -> (FlowView, AuthView) {
    let failed = FlowView { error: Some(failure.message), ..flow };
    match focus_index(auth, failure) {
        Some(index) => {
            let open = renamable(auth, index);
            if open.editable(index) {
                (
                    FlowView { stage: Stage::Editing, ..failed },
                    AuthView {
                        field_error: Some(failure.message),
                        ..AuthView {
                            phase: PhaseView::FillingField,
                            current_field: index,
                            ..open
                        }.loaded()
                    },
                )
            } else {
                (FlowView { stage: Stage::Failed, ..failed }, open)
            }
        },
        None => (
            FlowView {
                stage: if failure.code is None {
                    Stage::Unknown
                } else {
                    Stage::Failed
                },
                ..failed
            },
            auth,
        ),
    }
}

/// The reasons for which authorization is waited for.
pub open spec fn waits(value: Tree) -> bool {
    value.text_at("status"@) == Some("not_ready"@) && (value.text_at("reason"@) == Some(
        "role_missing"@,
    ) || value.text_at("reason"@) == Some("credentials_expired"@))
}

/// The runtime after the flow has taken a reply, and the step that ends the
/// poll, if the reply ends it.
pub open spec fn replied(
    r: RuntimeView,
    flow: FlowView,
    auth: AuthView,
    reply: ReplyView,
    preparing_menu: bool,
    now: u64,
) -> (RuntimeView, Option<StepView>) {
    let gone = RuntimeView { state: Some(auth), ecs: None, ..r };
    let kept = |f: FlowView| RuntimeView { state: Some(auth), ecs: Some(f), ..r };
    match reply {
        ReplyView::Prepared(result) => if preparing_menu {
            (gone, Some(StepView::FinishMenu(result)))
        } else {
            match result {
                Ok(value) => if value.text_at("mode"@) == Some("manual"@) {
                    (
                        redrawn(RuntimeView { state: Some(manual_form(auth)), ..gone }),
                        Some(StepView::Redraw),
                    )
                } else {
                    match prepared_instance(value) {
                        Some(p) => (
                            RuntimeView {
                                state: Some(challenged(auth, p)),
                                ecs: Some(
                                    FlowView {
                                        challenge: Some(p),
                                        deadline: Some(after(now, WAIT_LIMIT)),
                                        stage: Stage::Checking,
                                        next_check: now,
                                        ..flow
                                    },
                                ),
                                ..r
                            },
                            None,
                        ),
                        None => (kept(FlowView { stage: Stage::Failed, ..flow }), None),
                    }
                },
                Err(e) => (kept(FlowView { stage: Stage::Failed, error: Some(e), ..flow }), None),
            }
        },
        ReplyView::Verified(result) => match result {
            Ok(value) => if value.text_at("status"@) == Some("ready"@) {
                if auth.backend == AuthBackend::ActiveRun {
                    (gone, Some(StepView::SendResponse))
                } else {
                    (kept(flow), Some(StepView::StartConfiguration))
                }
            } else if waits(value) {
                (
                    kept(
                        FlowView {
                            stage: Stage::Waiting,
                            waiting_for_refresh: value.text_at("reason"@) == Some(
                                "credentials_expired"@,
                            ),
                            next_check: after(now, INTERVAL),
                            ..flow
                        },
                    ),
                    None,
                )
            } else {
                (
                    kept(
                        FlowView {
                            stage: Stage::Failed,
                            error: Some("Invalid ECS verification result"@),
                            ..flow
                        },
                    ),
                    None,
                )
            },
            Err(e) => (kept(FlowView { stage: Stage::Failed, error: Some(e), ..flow }), None),
        },
        ReplyView::Configured(result) => match result {
            Ok(_) => (
                RuntimeView {
                    state: None,
                    ecs: None,
                    completed_ids: r.completed_ids.insert(auth.id),
                },
                Some(StepView::Configured(auth.provider().label)),
            ),
            Err(failure) => if failure.code == Some("credential_source_unavailable"@) {
                (
                    kept(
                        FlowView {
                            stage: Stage::Checking,
                            waiting_for_refresh: false,
                            next_check: after(now, INTERVAL),
                            ..flow
                        },
                    ),
                    None,
                )
            } else {
                let (f, a) = rejected(flow, auth, failure);
                (RuntimeView { state: Some(a), ecs: Some(f), ..r }, None)
            },
        },
    }
}

/// How a poll ends that did not end early: a menu gets the failure of its
/// prepare; otherwise the panel is drawn again if it shows something else.
pub open spec fn concluded(r: RuntimeView, check: PendingCheck) -> (RuntimeView, StepView) {
    let flow = r.ecs->0;
    if check.preparing_menu && flow.stage == Stage::Failed && flow.operation is None {
        (
            RuntimeView { ecs: None, ..r },
            StepView::FinishMenu(
                Err(
                    match flow.error {
                        Some(e) => e,
                        None => "ECS menu prepare failed"@,
                    },
                ),
            ),
        )
    } else if check.previous != flow.stage || check.was_waiting_for_refresh
        != flow.waiting_for_refresh || (check.previous == Stage::Unknown && check.had_operation
        && flow.operation is None) || check.width_changed {
        (redrawn(r), StepView::Redraw)
    } else {
        (r, StepView::Idle)
    }
}

/// Whether a probe is due.
pub open spec fn probe_due(flow: FlowView, exited: bool, now: u64) -> bool {
    !exited && flow.operation is None && now >= flow.next_check && flow.stage.probes()
}

/// The form owns no flow of this identity.
pub open spec fn orphaned(r: RuntimeView) -> bool {
    r.ecs is Some && (r.state is None || r.state->0.id != r.ecs->0.id)
}

/// A flow without its form only cleans up after its worker.
pub open spec fn cleaned(r: RuntimeView, finished: Option<FinishedView>, now: u64) -> RuntimeView {
    let stopping = if r.ecs->0.stage != Stage::Cancelling {
        r.ecs->0.stopped(Stage::Cancelling, now)
    } else {
        r.ecs->0
    };
    let flow = stopping.taken(finished);
    RuntimeView {
        ecs: if flow.operation is Some {
            Some(
                FlowView {
                    cleanup_reported: flow.cleanup_reported || due(flow.operation_deadline, now),
                    ..flow
                },
            )
        } else {
            None
        },
        ..r
    }
}

/// The flow is over when the form went on without it.
pub open spec fn abandoned(auth: AuthView, flow: FlowView) -> bool {
    !handled(auth.phase) && flow.operation is None && (!(auth.phase is FillingField)
        || !(auth.collected_values.contains_key("auth_source"@)
        && auth.collected_values["auth_source"@] == "ecs_ram_role"@))
}

/// One poll: the runtime after it, whether a probe has to be cancelled, and
/// what to do next.
pub open spec fn polled(
    r: RuntimeView,
    finished: Option<FinishedView>,
    exited: bool,
    width_changed: bool,
    now: u64,
) -> (RuntimeView, bool, StepView) {
    if orphaned(r) {
        (cleaned(r, finished, now), r.ecs->0.stop_cancels(), StepView::Idle)
    } else if r.state is None || (!handled(r.state->0.phase) && r.ecs is None) {
        (r, false, StepView::Idle)
    } else {
        let auth = r.state->0;
        let start = match r.ecs {
            Some(f) => f,
            None => FlowView::started(auth, now),
        };
        let preparing_menu = auth.phase is PreparingMenu;
        let check = PendingCheck {
            prepare: false,
            previous: start.stage,
            was_waiting_for_refresh: start.waiting_for_refresh,
            had_operation: start.operation is Some,
            preparing_menu,
            width_changed,
            now,
        };
        if abandoned(auth, start) {
            (RuntimeView { ecs: None, ..r }, false, StepView::Idle)
        } else {
            driven(r, auth, start, check, finished, exited)
        }
    }
}

/// The part of a poll that moves the flow of the form on screen.
pub open spec fn driven(
    r: RuntimeView,
    auth: AuthView,
    start: FlowView,
    check: PendingCheck,
    finished: Option<FinishedView>,
    exited: bool,
) -> (RuntimeView, bool, StepView) {
    let now = check.now;
    let resumed = start.resumed(handled(auth.phase), now);
    let cancel = resumed.stop_reason(exited, now) is Some && resumed.stop_cancels();
    let settled = resumed.settled(exited, now);
    let (r2, step) = moved(
        r,
        auth,
        settled.observed(finished, now),
        settled.reply(finished),
        check,
        exited,
    );
    (r2, cancel, step)
}

/// The runtime and the next step once deadlines and replies are known: a
/// stopping flow waits for its worker and then goes where it was sent, any
/// other flow takes the reply.
pub open spec fn moved(
    r: RuntimeView,
    auth: AuthView,
    flow: FlowView,
    reply: Option<ReplyView>,
    check: PendingCheck,
    exited: bool,
) -> (RuntimeView, StepView) {
    if flow.stage == Stage::Cancelling {
        if flow.operation is None {
            if flow.stop_stage == Stage::Cancelling {
                (RuntimeView { ecs: None, ..r }, StepView::CancelPanel)
            } else {
                proceeded(
                    RuntimeView { ecs: Some(FlowView { stage: flow.stop_stage, ..flow }), ..r },
                    check,
                    exited,
                )
            }
        } else if !flow.cleanup_reported && due(flow.operation_deadline, check.now) {
            (
                redrawn(
                    RuntimeView { ecs: Some(FlowView { cleanup_reported: true, ..flow }), ..r },
                ),
                StepView::Redraw,
            )
        } else {
            proceeded(RuntimeView { ecs: Some(flow), ..r }, check, exited)
        }
    } else if reply is Some {
        let (r1, ended) = replied(r, flow, auth, reply->0, check.preparing_menu, check.now);
        match ended {
            Some(step) => (r1, step),
            None => proceeded(r1, check, exited),
        }
    } else {
        proceeded(RuntimeView { ecs: Some(flow), ..r }, check, exited)
    }
}

/// The last part of a poll: start the probe that is due, or conclude.
pub open spec fn proceeded(r: RuntimeView, check: PendingCheck, exited: bool) -> (
    RuntimeView,
    StepView,
) {
    if probe_due(r.ecs->0, exited, check.now) {
        (
            r,
            StepView::StartProbe(
                PendingCheck { prepare: r.ecs->0.stage == Stage::Preparing, ..check },
            ),
        )
    } else {
        concluded(r, check)
    }
}

/// The runtime once the probe that a poll asked for was attempted.
pub open spec fn attempted(r: RuntimeView, check: PendingCheck, started: bool) -> RuntimeView {
    RuntimeView {
        ecs: Some(
            if started {
                FlowView {
                    operation: Some(Operation::Probe(check.prepare)),
                    operation_deadline: Some(after(check.now, OPERATION_LIMIT)),
                    ..r.ecs->0
                }
            } else {
                FlowView {
                    stage: Stage::Failed,
                    error: Some("Unable to start ECS credential check"@),
                    ..r.ecs->0
                }
            },
        ),
        ..r
    }
}

fn manual_fields(auth: &mut RuntimeAuthState)
    requires
        old(auth).wf(),
    ensures
        final(auth).wf(),
        final(auth)@ == manual_form(old(auth)@),
{
    let ghost before = auth@;
    auth.sysom = SysomMenu::on_manual();
    auth.collected_values.remove("auth_source");
    auth.phase = AuthPhase::FillingField;
    let ghost plain = AuthView {
        sysom: SysomView::Manual,
        collected_values: before.collected_values.remove("auth_source"@),
        phase: PhaseView::FillingField,
        ..before
    };
    assert(auth@ =~~= plain);
    let first: usize = auth.first_editable_field();
    let named: bool = {
        let provider = auth.current_provider();
        first < provider.fields.len() && same(provider.fields[first].name.as_str(), "provider_id")
    };
    let at: usize = if named && auth.collected_values.contains_key("provider_id") {
        auth.editable_field_at_or_after(first + 1)
    } else {
        first
    };
    auth.current_field = at;
    assert(auth@ =~~= (AuthView { current_field: at as int, ..plain }));
    auth.load_current_field_input();
}

fn focused_field(auth: &RuntimeAuthState, name: &str) -> (res: Option<usize>)
    requires
        auth.wf(),
    ensures
        match res {
            Some(i) => focus_from(auth@, name@, 0) == Some(i as int) && i < auth@.provider().fields.len(),
            None => focus_from(auth@, name@, 0) is None,
        },
{
    let provider = auth.current_provider();
    let total: usize = provider.fields.len();
    let mut i: usize = 0;
    while i < total
        invariant
            auth.wf(),
            provider@ == auth@.provider(),
            total == provider.fields@.len(),
            i <= total,
            focus_from(auth@, name@, 0) == focus_from(auth@, name@, i as int),
        decreases total - i,
    {
        assert(auth@.provider().fields[i as int] == provider.fields@[i as int]@);
        if same(provider.fields[i].name.as_str(), name) && !provider.fields[i].secret {
            return Some(i);
        }
        i = i + 1;
    }
    None
}

fn reject_save(flow: &mut EcsFlow, auth: &mut RuntimeAuthState, failure: AuthConfigureFailure)
    requires
        old(auth).wf(),
    ensures
        final(auth).wf(),
        (final(flow)@, final(auth)@) == rejected(old(flow)@, old(auth)@, failure@),
{
    let ghost flow0 = flow@;
    let ghost auth0 = auth@;
    let index: Option<usize> = match &failure.focus {
        Some(name) => focused_field(auth, name.as_str()),
        None => None,
    };
    match index {
        Some(i) => {
            let identity: bool = {
                let provider = auth.current_provider();
                assert(auth@.provider().fields[i as int] == provider.fields@[i as int]@);
                same(provider.fields[i].name.as_str(), "provider_id")
            };
            if identity && auth.editing_provider_name.is_none() {
                auth.default_provider_id = false;
            }
            let ghost open = renamable(auth0, i as int);
            assert(auth@ =~~= open);
            if auth.field_is_editable(i) {
                auth.phase = AuthPhase::FillingField;
                auth.current_field = i;
                assert(auth@ =~~= (AuthView {
                    phase: PhaseView::FillingField,
                    current_field: i as int,
                    ..open
                }));
                auth.load_current_field_input();
                let ghost shown = auth@;
                auth.field_error = Some(failure.message.clone());
                assert(auth@ =~~= (AuthView { field_error: Some(failure.message@), ..shown }));
                flow.stage = Stage::Editing;
            } else {
                flow.stage = Stage::Failed;
            }
        },
        None => {
            flow.stage = if failure.code.is_none() {
                Stage::Unknown
            } else {
                Stage::Failed
            };
        },
    }
    flow.error = Some(failure.message);
    assert(flow@ =~~= rejected(flow0, auth0, failure@).0);
}

fn conclude(runtime: &mut AuthRuntime, check: PendingCheck) -> (step: PollStep)
    requires
        old(runtime).wf(),
        old(runtime).ecs is Some,
    ensures
        final(runtime).wf(),
        (final(runtime)@, step@) == concluded(old(runtime)@, check),
{
    let ghost before = runtime@;
    if let Some(flow) = runtime.ecs.take() {
        if check.preparing_menu && flow.stage == Stage::Failed && flow.operation.is_none() {
            let error: String = match flow.error {
                Some(e) => e,
                None => "ECS menu prepare failed".to_owned(),
            };
            assert(runtime@ =~~= (RuntimeView { ecs: None, ..before }));
            return PollStep::FinishMenu(Err(error));
        }
        let changed: bool = check.previous != flow.stage || check.was_waiting_for_refresh
            != flow.waiting_for_refresh || (check.previous == Stage::Unknown && check.had_operation
            && flow.operation.is_none());
        runtime.ecs = Some(flow);
        assert(runtime@ =~~= before);
        if changed || check.width_changed {
            redraw(runtime);
            return PollStep::Redraw;
        }
    }
    PollStep::Idle
}

fn proceed(runtime: &mut AuthRuntime, check: PendingCheck, exited: bool) -> (step: PollStep)
    requires
        old(runtime).wf(),
        old(runtime).ecs is Some,
    ensures
        final(runtime).wf(),
        (final(runtime)@, step@) == proceeded(old(runtime)@, check, exited),
{
    let ask: Option<bool> = match &runtime.ecs {
        Some(flow) => {
            if !exited && flow.operation.is_none() && check.now >= flow.next_check
                && flow.stage.is_probing() {
                Some(flow.stage == Stage::Preparing)
            } else {
                None
            }
        },
        None => None,
    };
    match ask {
        Some(prepare) => PollStep::StartProbe(
            PendingCheck {
                prepare,
                previous: check.previous,
                was_waiting_for_refresh: check.was_waiting_for_refresh,
                had_operation: check.had_operation,
                preparing_menu: check.preparing_menu,
                width_changed: check.width_changed,
                now: check.now,
            },
        ),
        None => conclude(runtime, check),
    }
}

/// Accounts for the probe that a poll asked for, and ends that poll.
pub fn probe_attempted(runtime: &mut AuthRuntime, check: PendingCheck, started: bool) -> (step: PollStep)
    requires
        old(runtime).wf(),
        old(runtime).ecs is Some,
        check.now + WAIT_LIMIT <= u64::MAX,
    ensures
        final(runtime).wf(),
        (final(runtime)@, step@) == concluded(attempted(old(runtime)@, check, started), check),
{
    let ghost before = runtime@;
    if let Some(mut flow) = runtime.ecs.take() {
        if started {
            flow.operation = Some(Operation::Probe(check.prepare));
            flow.operation_deadline = Some(check.now + OPERATION_LIMIT);
        } else {
            flow.stage = Stage::Failed;
            flow.error = Some("Unable to start ECS credential check".to_owned());
        }
        runtime.ecs = Some(flow);
    }
    assert(runtime@ =~~= attempted(before, check, started));
    conclude(runtime, check)
}

fn apply_reply(
    runtime: &mut AuthRuntime,
    flow: EcsFlow,
    auth: RuntimeAuthState,
    reply: Reply,
    preparing_menu: bool,
    now: u64,
) -> (ended: Option<PollStep>)
    requires
        auth.wf(),
        now + WAIT_LIMIT <= u64::MAX,
    ensures
        final(runtime).wf(),
        ended is None ==> final(runtime).ecs is Some,
        ({
            let (r, step) = replied(old(runtime)@, flow@, auth@, reply@, preparing_menu, now);
            final(runtime)@ == r && match ended {
                Some(s) => step == Some(s@),
                None => step is None,
            }
        }),
{
    let ghost start = runtime@;
    let ghost flow0 = flow@;
    let ghost auth0 = auth@;
    let ghost given = reply@;
    let ghost target = replied(start, flow0, auth0, given, preparing_menu, now);
    let mut flow = flow;
    let mut auth = auth;
    match reply {
        Reply::Prepared(result) => {
            if preparing_menu {
                runtime.state = Some(auth);
                runtime.ecs = None;
                assert(runtime@ =~~= target.0);
                return Some(PollStep::FinishMenu(result));
            }
            match result {
                Ok(value) => {
                    if has_text(&value, "mode", "manual") {
                        manual_fields(&mut auth);
                        runtime.state = Some(auth);
                        runtime.ecs = None;
                        let ghost shown = RuntimeView {
                            state: Some(manual_form(auth0)),
                            ecs: None,
                            ..start
                        };
                        assert(runtime@ =~~= shown);
                        redraw(runtime);
                        assert(runtime@ =~~= target.0);
                        return Some(PollStep::Redraw);
                    }
                    let instance = text_at(&value, "instance_id");
                    let url = text_at(&value, "console_url");
                    let mode: bool = has_text(&value, "mode", "ecs_ram_role");
                    let mut found: bool = false;
                    if let Some(instance_id) = instance {
                        if let Some(console_url) = url {
                            if mode && !instance_id.as_str().is_empty() && !console_url.as_str().is_empty() {
                                let prepare = EcsRamRolePrepare { instance_id, console_url };
                                let shown = prepare.copy();
                                set_challenge(&mut auth, shown);
                                flow.challenge = Some(prepare);
                                flow.deadline = Some(now + WAIT_LIMIT);
                                flow.stage = Stage::Checking;
                                flow.next_check = now;
                                found = true;
                            }
                        }
                    }
                    if !found {
                        flow.stage = Stage::Failed;
                    }
                },
                Err(error) => {
                    flow.stage = Stage::Failed;
                    flow.error = Some(error);
                },
            }
        },
        Reply::Verified(result) => {
            match result {
                Ok(value) => {
                    if has_text(&value, "status", "ready") {
                        if auth.backend == AuthBackend::ActiveRun {
                            runtime.state = Some(auth);
                            runtime.ecs = None;
                            assert(runtime@ =~~= target.0);
                            return Some(PollStep::SendResponse);
                        }
                        runtime.state = Some(auth);
                        runtime.ecs = Some(flow);
                        assert(runtime@ =~~= target.0);
                        return Some(PollStep::StartConfiguration);
                    }
                    let expired: bool = has_text(&value, "reason", "credentials_expired");
                    let missing: bool = has_text(&value, "reason", "role_missing");
                    if has_text(&value, "status", "not_ready") && (missing || expired) {
                        flow.stage = Stage::Waiting;
                        flow.waiting_for_refresh = expired;
                        flow.next_check = now + INTERVAL;
                    } else {
                        flow.stage = Stage::Failed;
                        flow.error = Some("Invalid ECS verification result".to_owned());
                    }
                },
                Err(error) => {
                    flow.stage = Stage::Failed;
                    flow.error = Some(error);
                },
            }
        },
        Reply::Configured(result) => {
            match result {
                Ok(_) => {
                    let label: String = auth.current_provider().label.clone();
                    runtime.completed_ids.insert(auth.id.as_str());
                    runtime.state = None;
                    runtime.ecs = None;
                    assert(runtime@ =~~= target.0);
                    return Some(PollStep::Configured(label));
                },
                Err(failure) => {
                    if is_text(&failure.code, "credential_source_unavailable") {
                        flow.stage = Stage::Checking;
                        flow.waiting_for_refresh = false;
                        flow.next_check = now + INTERVAL;
                    } else {
                        reject_save(&mut flow, &mut auth, failure);
                    }
                },
            }
        },
    }
    runtime.state = Some(auth);
    runtime.ecs = Some(flow);
    assert(runtime@ =~~= target.0);
    None
}

fn clean_orphan(runtime: &mut AuthRuntime, finished: Option<Finished>, now: u64) -> (cancel: bool)
    requires
        old(runtime).wf(),
        old(runtime).ecs is Some,
        now + WAIT_LIMIT <= u64::MAX,
    ensures
        final(runtime).wf(),
        final(runtime)@ == cleaned(old(runtime)@, finished_view(finished), now),
        cancel == old(runtime)@.ecs->0.stop_cancels(),
{
    let ghost r = runtime@;
    let ghost done = finished_view(finished);
    let mut cancel: bool = false;
    if let Some(mut flow) = runtime.ecs.take() {
        if flow.stage != Stage::Cancelling {
            cancel = flow.stop(Stage::Cancelling, now);
        }
        let _ = take_reply(&mut flow, finished);
        if flow.operation.is_some() {
            if is_due(flow.operation_deadline, now) {
                flow.cleanup_reported = true;
            }
            runtime.ecs = Some(flow);
        }
    }
    assert(runtime@ =~~= cleaned(r, done, now));
    cancel
}

fn is_abandoned(auth: &RuntimeAuthState, flow: &EcsFlow) -> (res: bool)
    requires
        auth.wf(),
    ensures
        res == abandoned(auth@, flow@),
{
    if handles(auth) || flow.operation.is_some() {
        return false;
    }
    let filling: bool = match auth.phase {
        AuthPhase::FillingField => true,
        _ => false,
    };
    let by_role: bool = match auth.collected_values.get("auth_source") {
        Some(source) => same(source.as_str(), "ecs_ram_role"),
        None => false,
    };
    !filling || !by_role
}

fn settle(flow: &mut EcsFlow, handled_now: bool, exited: bool, now: u64) -> (cancel: bool)
    requires
        now + WAIT_LIMIT <= u64::MAX,
    ensures
        final(flow)@ == old(flow)@.resumed(handled_now, now).settled(exited, now),
        cancel == (old(flow)@.resumed(handled_now, now).stop_reason(exited, now) is Some
            && old(flow)@.resumed(handled_now, now).stop_cancels()),
{
    let ghost start = flow@;
    if flow.stage == Stage::Editing && handled_now {
        flow.stage = Stage::Checking;
        flow.deadline = Some(now + WAIT_LIMIT);
        flow.next_check = now;
        flow.error = None;
    }
    let ghost resumed = start.resumed(handled_now, now);
    assert(flow@ =~~= resumed);
    if exited {
        let probing: bool = match flow.operation {
            Some(Operation::Probe(_)) => true,
            _ => false,
        };
        if probing || flow.stage.is_probing() || flow.stage == Stage::Cancelling {
            return flow.stop(Stage::Cancelling, now);
        }
    } else if flow.stage.is_probing() && is_due(flow.deadline, now) {
        return flow.stop(Stage::TimedOut, now);
    } else if flow.stage.is_probing() && is_due(flow.operation_deadline, now) {
        flow.error = Some("ECS credential check timed out".to_owned());
        assert(flow@ =~~= (FlowView { error: Some("ECS credential check timed out"@), ..resumed }));
        return flow.stop(Stage::Failed, now);
    }
    false
}

fn observe(flow: &mut EcsFlow, finished: Option<Finished>, now: u64) -> (reply: Option<Reply>)
    ensures
        final(flow)@ == old(flow)@.observed(finished_view(finished), now),
        match reply {
            Some(x) => old(flow)@.reply(finished_view(finished)) == Some(x@),
            None => old(flow)@.reply(finished_view(finished)) is None,
        },
{
    let reply: Option<Reply> = take_reply(flow, finished);
    if reply.is_none() && flow.stage == Stage::Submitting && is_due(flow.operation_deadline, now) {
        flow.stage = Stage::Unknown;
    }
    reply
}

/// The reply only adds to what the runtime remembers as completed.
proof fn lemma_replied_ignores(
    a: RuntimeView,
    b: RuntimeView,
    flow: FlowView,
    auth: AuthView,
    reply: ReplyView,
    preparing_menu: bool,
    now: u64,
)
    requires
        a.completed_ids == b.completed_ids,
    ensures
        replied(a, flow, auth, reply, preparing_menu, now) == replied(b, flow, auth, reply, preparing_menu, now),
{
    let x = replied(a, flow, auth, reply, preparing_menu, now);
    let y = replied(b, flow, auth, reply, preparing_menu, now);
    assert(x.0 =~~= y.0);
}

/// What an optional [`Reply`] says.
pub open spec fn reply_view(r: Option<Reply>) -> Option<ReplyView> {
    match r {
        Some(x) => Some(x@),
        None => None,
    }
}

/// Only the form and what is completed carry over into the next runtime.
proof fn lemma_moved_ignores(
    a: RuntimeView,
    b: RuntimeView,
    auth: AuthView,
    flow: FlowView,
    reply: Option<ReplyView>,
    check: PendingCheck,
    exited: bool,
)
    requires
        a.completed_ids == b.completed_ids,
    ensures
        moved(RuntimeView { state: Some(auth), ..a }, auth, flow, reply, check, exited) == moved(
            RuntimeView { state: Some(auth), ..b },
            auth,
            flow,
            reply,
            check,
            exited,
        ),
{
}

fn move_flow(
    runtime: &mut AuthRuntime,
    auth: RuntimeAuthState,
    flow: EcsFlow,
    reply: Option<Reply>,
    check: PendingCheck,
    exited: bool,
) -> (step: PollStep)
    requires
        auth.wf(),
        check.now + WAIT_LIMIT <= u64::MAX,
    ensures
        final(runtime).wf(),
        (final(runtime)@, step@) == moved(
            RuntimeView { state: Some(auth@), ..old(runtime)@ },
            auth@,
            flow@,
            reply_view(reply),
            check,
            exited,
        ),
        step is StartProbe ==> final(runtime).ecs is Some,
{
    let ghost r = RuntimeView { state: Some(auth@), ..runtime@ };
    let ghost seen = flow@;
    let mut flow = flow;
    if flow.stage == Stage::Cancelling {
        if flow.operation.is_none() {
            if flow.stop_stage == Stage::Cancelling {
                runtime.state = Some(auth);
                runtime.ecs = None;
                assert(runtime@ =~~= (RuntimeView { ecs: None, ..r }));
                return PollStep::CancelPanel;
            }
            flow.stage = flow.stop_stage;
        } else if !flow.cleanup_reported && is_due(flow.operation_deadline, check.now) {
            flow.cleanup_reported = true;
            runtime.state = Some(auth);
            runtime.ecs = Some(flow);
            assert(runtime@ =~~= (RuntimeView {
                ecs: Some(FlowView { cleanup_reported: true, ..seen }),
                ..r
            }));
            redraw(runtime);
            return PollStep::Redraw;
        }
        runtime.state = Some(auth);
        runtime.ecs = Some(flow);
        assert(runtime@ =~~= (RuntimeView {
            ecs: Some(
                if seen.operation is None {
                    FlowView { stage: seen.stop_stage, ..seen }
                } else {
                    seen
                },
            ),
            ..r
        }));
    } else if let Some(reply) = reply {
        let ghost gone = runtime@;
        let ended = apply_reply(runtime, flow, auth, reply, check.preparing_menu, check.now);
        proof {
            lemma_replied_ignores(gone, r, seen, auth@, reply@, check.preparing_menu, check.now);
        }
        if let Some(step) = ended {
            return step;
        }
    } else {
        runtime.state = Some(auth);
        runtime.ecs = Some(flow);
        assert(runtime@ =~~= (RuntimeView { ecs: Some(seen), ..r }));
    }
    proceed(runtime, check, exited)
}

/// One poll of the flow. `finished` is what its worker has ended with, if it
/// has ended; `width_changed` says that the panel on screen has another width
/// than the terminal now gives it. Returns whether the probe has to be
/// cancelled, and what to do next.
pub fn poll(
    runtime: &mut AuthRuntime,
    finished: Option<Finished>,
    exited: bool,
    width_changed: bool,
    now: u64,
) -> (res: (bool, PollStep))
    requires
        old(runtime).wf(),
        now + WAIT_LIMIT <= u64::MAX,
    ensures
        final(runtime).wf(),
        (final(runtime)@, res.0, res.1@) == polled(
            old(runtime)@,
            finished_view(finished),
            exited,
            width_changed,
            now,
        ),
        res.1 is StartProbe ==> final(runtime).ecs is Some,
{
    let ghost r = runtime@;
    let ghost done = finished_view(finished);
    let is_orphan: bool = match (&runtime.ecs, &runtime.state) {
        (Some(flow), Some(auth)) => !same(auth.id.as_str(), flow.id.as_str()),
        (Some(_), None) => true,
        _ => false,
    };
    if is_orphan {
        let cancel = clean_orphan(runtime, finished, now);
        return (cancel, PollStep::Idle);
    }
    let auth: RuntimeAuthState = match runtime.state.take() {
        Some(auth) => auth,
        None => {
            assert(runtime@ =~~= r);
            return (false, PollStep::Idle);
        },
    };
    let handled_now: bool = handles(&auth);
    if !handled_now && runtime.ecs.is_none() {
        runtime.state = Some(auth);
        assert(runtime@ =~~= r);
        return (false, PollStep::Idle);
    }
    let preparing_menu: bool = match auth.phase {
        AuthPhase::PreparingMenu => true,
        _ => false,
    };
    let mut flow: EcsFlow = match runtime.ecs.take() {
        Some(flow) => flow,
        None => EcsFlow::new(&auth, now),
    };
    let check = PendingCheck {
        prepare: false,
        previous: flow.stage,
        was_waiting_for_refresh: flow.waiting_for_refresh,
        had_operation: flow.operation.is_some(),
        preparing_menu,
        width_changed,
        now,
    };
    if is_abandoned(&auth, &flow) {
        runtime.state = Some(auth);
        assert(runtime@ =~~= (RuntimeView { ecs: None, ..r }));
        return (false, PollStep::Idle);
    }
    let cancel: bool = settle(&mut flow, handled_now, exited, now);
    let reply: Option<Reply> = observe(&mut flow, finished, now);
    let ghost gone = runtime@;
    let step = move_flow(runtime, auth, flow, reply, check, exited);
    proof {
        lemma_moved_ignores(gone, r, auth@, flow@, reply_view(reply), check, exited);
    }
    (cancel, step)
}

/// Cancelling by the user: a save runs to its end, an idle flow is dropped, a
/// probe is stopped first.
pub open spec fn cancelled(r: RuntimeView, now: u64) -> (RuntimeView, bool, bool) {
    match r.ecs {
        None => (r, false, false),
        Some(f) => if f.operation == Some(Operation::Configure) || f.stage == Stage::Submitting {
            (r, true, false)
        } else if f.operation is None {
            (RuntimeView { ecs: None, ..r }, false, false)
        } else {
            (
                redrawn(RuntimeView { ecs: Some(f.stopped(Stage::Cancelling, now)), ..r }),
                true,
                f.stop_cancels(),
            )
        },
    }
}

/// Cancels the flow. Returns whether the flow keeps the panel, and whether its
/// probe has to be cancelled.
pub fn cancel(runtime: &mut AuthRuntime, now: u64) -> (res: (bool, bool))
    requires
        old(runtime).wf(),
        now + WAIT_LIMIT <= u64::MAX,
    ensures
        final(runtime).wf(),
        (final(runtime)@, res.0, res.1) == cancelled(old(runtime)@, now),
{
    let ghost before = runtime@;
    match runtime.ecs.take() {
        None => {
            assert(runtime@ =~~= before);
            (false, false)
        },
        Some(mut flow) => {
            let saving: bool = match flow.operation {
                Some(Operation::Configure) => true,
                _ => false,
            };
            if saving || flow.stage == Stage::Submitting {
                runtime.ecs = Some(flow);
                assert(runtime@ =~~= before);
                return (true, false);
            }
            if flow.operation.is_none() {
                assert(runtime@ =~~= (RuntimeView { ecs: None, ..before }));
                return (false, false);
            }
            let ghost start = flow@;
            let stop_probe: bool = flow.stop(Stage::Cancelling, now);
            runtime.ecs = Some(flow);
            assert(runtime@ =~~= (RuntimeView {
                ecs: Some(start.stopped(Stage::Cancelling, now)),
                ..before
            }));
            redraw(runtime);
            (true, stop_probe)
        },
    }
}

/// What follows an answer to the panel.
#[derive(Clone, Copy, Debug, PartialEq, Eq, Structural)]
pub enum AnswerStep {
    Ignored,
    /// Clear the panel and open the provider management.
    ReturnToManagement,
    Redraw,
}

/// Answering the panel's option: an unknown outcome leads back to the provider
/// management, any other outcome starts over.
pub open spec fn answered(r: RuntimeView, now: u64) -> (RuntimeView, AnswerStep) {
    if !offers_option(r.ecs) {
        (r, AnswerStep::Ignored)
    } else {
        let f = r.ecs->0;
        if f.stage == Stage::Unknown {
            (RuntimeView { ecs: None, state: None, ..r }, AnswerStep::ReturnToManagement)
        } else {
            (
                redrawn(
                    RuntimeView {
                        ecs: Some(
                            FlowView {
                                stage: if f.challenge is Some {
                                    Stage::Checking
                                } else {
                                    Stage::Preparing
                                },
                                deadline: if f.challenge is Some {
                                    Some(after(now, WAIT_LIMIT))
                                } else {
                                    None
                                },
                                next_check: now,
                                error: None,
                                cleanup_reported: false,
                                ..f
                            },
                        ),
                        ..r
                    },
                ),
                AnswerStep::Redraw,
            )
        }
    }
}

/// Takes the user's answer to the panel's option.
pub fn answer(runtime: &mut AuthRuntime, now: u64) -> (step: AnswerStep)
    requires
        old(runtime).wf(),
        now + WAIT_LIMIT <= u64::MAX,
    ensures
        final(runtime).wf(),
        (final(runtime)@, step) == answered(old(runtime)@, now),
{
    let ghost before = runtime@;
    if option_count(runtime) == 0 {
        return AnswerStep::Ignored;
    }
    if let Some(mut flow) = runtime.ecs.take() {
        if flow.stage == Stage::Unknown {
            runtime.state = None;
            assert(runtime@ =~~= (RuntimeView { ecs: None, state: None, ..before }));
            return AnswerStep::ReturnToManagement;
        }
        let again: bool = flow.challenge.is_some();
        flow.stage = if again {
            Stage::Checking
        } else {
            Stage::Preparing
        };
        flow.deadline = if again {
            Some(now + WAIT_LIMIT)
        } else {
            None
        };
        flow.next_check = now;
        flow.error = None;
        flow.cleanup_reported = false;
        runtime.ecs = Some(flow);
    }
    redraw(runtime);
    assert(runtime@ =~~= answered(before, now).0);
    AnswerStep::Redraw
}

/// The values that are saved.
pub struct AuthResponse {
    pub request_id: String,
    pub provider_id: String,
    pub provider_type: Option<String>,
    pub values: Values,
    pub persist: bool,
}

/// What an [`AuthResponse`] says.
#[verifier::ext_equal]
pub struct ResponseView {
    pub request_id: Seq<char>,
    pub provider_id: Seq<char>,
    pub provider_type: Option<Seq<char>>,
    pub values: Map<Seq<char>, Seq<char>>,
    pub persist: bool,
}

impl View for AuthResponse {
    type V = ResponseView;

    open spec fn view(&self) -> ResponseView {
        ResponseView {
            request_id: self.request_id@,
            provider_id: self.provider_id@,
            provider_type: opt_view(self.provider_type),
            values: self.values@,
            persist: self.persist,
        }
    }
}

/// The values of the form, under the edited name, else the entered one, else
/// the template's own.
pub open spec fn response_of(auth: AuthView) -> ResponseView {
    ResponseView {
        request_id: auth.request_id,
        provider_id: match auth.editing_provider_name {
            Some(name) => name,
            None => if auth.collected_values.contains_key("provider_id"@) {
                auth.collected_values["provider_id"@]
            } else {
                auth.provider().id
            },
        },
        provider_type: Some(auth.provider().id),
        values: auth.collected_values,
        persist: true,
    }
}

/// The flow that a save starts from.
pub open spec fn saving_flow(r: RuntimeView, now: u64) -> FlowView {
    match r.ecs {
        Some(f) => f,
        None => FlowView::started(r.state->0, now),
    }
}

/// Whether a save can be started: the shell is there, a form is, and nothing runs.
pub open spec fn may_save(r: RuntimeView, exited: bool, now: u64) -> bool {
    !exited && r.state is Some && saving_flow(r, now).operation is None
}

/// Starts to save the form, unless the shell is gone, there is no form or a
/// worker is still running. Returns what has to be saved.
pub fn start_configuration(runtime: &mut AuthRuntime, exited: bool, now: u64) -> (res: Option<AuthResponse>)
    requires
        old(runtime).wf(),
        now + WAIT_LIMIT <= u64::MAX,
    ensures
        final(runtime).wf(),
        res is Some <==> may_save(old(runtime)@, exited, now),
        res is Some <==> !exited && old(runtime)@.state is Some && saving_flow(
            old(runtime)@,
            now,
        ).operation is None,
        res is Some ==> res->0@ == response_of(old(runtime)@.state->0) && final(runtime)@ == (
        RuntimeView { ecs: Some(saving_flow(old(runtime)@, now)), ..old(runtime)@ }),
        res is None ==> final(runtime)@ == old(runtime)@,
{
    let ghost before = runtime@;
    if exited {
        return None;
    }
    let auth: RuntimeAuthState = match runtime.state.take() {
        Some(auth) => auth,
        None => {
            assert(runtime@ =~~= before);
            return None;
        },
    };
    let flow: EcsFlow = match runtime.ecs.take() {
        Some(flow) => flow,
        None => EcsFlow::new(&auth, now),
    };
    if flow.operation.is_some() {
        runtime.state = Some(auth);
        runtime.ecs = Some(flow);
        assert(runtime@ =~~= before);
        return None;
    }
    let provider_id: String = match &auth.editing_provider_name {
        Some(name) => name.clone(),
        None => match auth.collected_values.get("provider_id") {
            Some(id) => id.clone(),
            None => auth.current_provider().id.clone(),
        },
    };
    let response = AuthResponse {
        request_id: auth.request_id.clone(),
        provider_id,
        provider_type: Some(auth.current_provider().id.clone()),
        values: auth.collected_values.copy(),
        persist: true,
    };
    runtime.state = Some(auth);
    runtime.ecs = Some(flow);
    assert(runtime@ =~~= (RuntimeView { ecs: Some(saving_flow(before, now)), ..before }));
    assert(response@ =~~= response_of(before.state->0));
    Some(response)
}

/// The runtime once the save worker was started, or could not be.
pub open spec fn save_attempted(r: RuntimeView, started: bool, now: u64) -> RuntimeView {
    let flow = r.ecs->0;
    redrawn(
        if started {
            RuntimeView {
                state: match flow.challenge {
                    Some(p) => Some(challenged(r.state->0, p)),
                    None => r.state,
                },
                ecs: Some(
                    FlowView {
                        operation: Some(Operation::Configure),
                        operation_deadline: Some(after(now, CONFIGURE_LIMIT)),
                        stage: Stage::Submitting,
                        ..flow
                    },
                ),
                ..r
            }
        } else {
            RuntimeView {
                ecs: Some(
                    FlowView {
                        stage: Stage::Failed,
                        error: Some("Unable to start configuration worker"@),
                        ..flow
                    },
                ),
                ..r
            }
        },
    )
}

/// Accounts for the save worker.
pub fn configuration_attempted(runtime: &mut AuthRuntime, started: bool, now: u64)
    requires
        old(runtime).wf(),
        old(runtime).state is Some,
        old(runtime).ecs is Some,
        now + WAIT_LIMIT <= u64::MAX,
    ensures
        final(runtime).wf(),
        final(runtime)@ == save_attempted(old(runtime)@, started, now),
{
    let ghost before = runtime@;
    if let Some(mut flow) = runtime.ecs.take() {
        if started {
            flow.operation = Some(Operation::Configure);
            flow.operation_deadline = Some(now + CONFIGURE_LIMIT);
            flow.stage = Stage::Submitting;
            if let Some(challenge) = &flow.challenge {
                if let Some(mut auth) = runtime.state.take() {
                    set_challenge(&mut auth, challenge.copy());
                    runtime.state = Some(auth);
                }
            }
        } else {
            flow.stage = Stage::Failed;
            flow.error = Some("Unable to start configuration worker".to_owned());
        }
        runtime.ecs = Some(flow);
    }
    redraw(runtime);
    assert(runtime@ =~~= save_attempted(before, started, now));
}

/// Drops the flow. Says whether a probe has to be cancelled.
pub fn shutdown(runtime: &mut AuthRuntime) -> (cancel: bool)
    ensures
        final(runtime)@ == (RuntimeView { ecs: None, ..old(runtime)@ }),
        cancel == (old(runtime)@.ecs matches Some(f) && f.operation matches Some(Operation::Probe(_))),
{
    let ghost before = runtime@;
    let cancel: bool = match runtime.ecs.take() {
        Some(flow) => match flow.operation {
            Some(Operation::Probe(_)) => true,
            _ => false,
        },
        None => false,
    };
    assert(runtime@ =~~= (RuntimeView { ecs: None, ..before }));
    cancel
}

/// Once stopping, a flow keeps its cleanup deadline; a cancellation overrides
/// any other destination, and nothing overrides a cancellation.
pub proof fn cancellation_has_the_last_word(flow: FlowView, first: Stage, then: Stage, t1: u64, t2: u64)
    ensures
        flow.stopped(first, t1).stopped(Stage::Cancelling, t2).stop_stage == Stage::Cancelling,
        flow.stopped(first, t1).stopped(then, t2).operation_deadline == flow.stopped(
            first,
            t1,
        ).operation_deadline,
        flow.stopped(Stage::Cancelling, t1).stopped(then, t2) == flow.stopped(Stage::Cancelling, t1),
{
}

/// Whether a step starts a probe or a save, or answers a running turn.
spec fn starts_something(step: StepView) -> bool {
    step is StartProbe || step is StartConfiguration || step is SendResponse
}

/// Once the shell has gone, only a save that was under way is still waited for.
proof fn lemma_exit_stops_probes(flow: FlowView, finished: Option<FinishedView>, now: u64)
    ensures
        ({
            let settled = flow.settled(true, now);
            let reply = settled.reply(finished);
            settled.stage == Stage::Cancelling || reply is None || reply->0 is Configured
        }),
{
}

proof fn lemma_exit_proceeds(r: RuntimeView, check: PendingCheck)
    ensures
        !starts_something(proceeded(r, check, true).1),
{
}

proof fn lemma_saved_starts_nothing(
    r: RuntimeView,
    flow: FlowView,
    auth: AuthView,
    reply: ReplyView,
    preparing_menu: bool,
    now: u64,
)
    requires
        reply is Configured,
    ensures
        ({
            let step = replied(r, flow, auth, reply, preparing_menu, now).1;
            step is Some ==> !starts_something(step->0)
        }),
{
}

proof fn lemma_exit_moves(
    r: RuntimeView,
    auth: AuthView,
    flow: FlowView,
    reply: Option<ReplyView>,
    check: PendingCheck,
)
    requires
        flow.stage == Stage::Cancelling || reply is None || reply->0 is Configured,
    ensures
        !starts_something(moved(r, auth, flow, reply, check, true).1),
{
    let stopped = FlowView { stage: flow.stop_stage, ..flow };
    lemma_exit_proceeds(RuntimeView { ecs: Some(stopped), ..r }, check);
    lemma_exit_proceeds(RuntimeView { ecs: Some(flow), ..r }, check);
    if flow.stage != Stage::Cancelling && reply is Some {
        let told = reply->0;
        lemma_saved_starts_nothing(r, flow, auth, told, check.preparing_menu, check.now);
        lemma_exit_proceeds(
            replied(r, flow, auth, told, check.preparing_menu, check.now).0,
            check,
        );
    }
}

/// A poll after the shell has gone starts nothing: no probe, no save and no
/// answer to a running turn.
pub proof fn shell_exit_starts_nothing(
    r: RuntimeView,
    finished: Option<FinishedView>,
    width_changed: bool,
    now: u64,
)
    ensures
        ({
            let step = polled(r, finished, true, width_changed, now).2;
            !(step is StartProbe) && !(step is StartConfiguration) && !(step is SendResponse)
        }),
{
    if !orphaned(r) && r.state is Some && (handled(r.state->0.phase) || r.ecs is Some) {
        let auth = r.state->0;
        let start = match r.ecs {
            Some(f) => f,
            None => FlowView::started(auth, now),
        };
        let check = PendingCheck {
            prepare: false,
            previous: start.stage,
            was_waiting_for_refresh: start.waiting_for_refresh,
            had_operation: start.operation is Some,
            preparing_menu: auth.phase is PreparingMenu,
            width_changed,
            now,
        };
        let resumed = start.resumed(handled(auth.phase), now);
        let settled = resumed.settled(true, now);
        lemma_exit_stops_probes(resumed, finished, now);
        lemma_exit_moves(r, auth, settled.observed(finished, now), settled.reply(finished), check);
    }
}

/// The same poll never drops a save, nor the question whether it succeeded.
pub proof fn shell_exit_keeps_a_save(r: RuntimeView, width_changed: bool, now: u64)
    requires
        !orphaned(r),
        r.state is Some,
        r.ecs is Some,
        r.ecs->0.stage == Stage::Submitting || r.ecs->0.stage == Stage::Unknown,
        r.ecs->0.operation == Some(Operation::Configure),
    ensures
        ({
            let (after, cancel, step) = polled(r, None, true, width_changed, now);
            &&& !cancel
            &&& after.ecs is Some
            &&& after.ecs->0.operation == Some(Operation::Configure)
            &&& after.ecs->0.stage == Stage::Submitting || after.ecs->0.stage == Stage::Unknown
            &&& !(step is CancelPanel)
        }),
{
}

/// A cancelled flow never comes back: whatever its worker ends with, it either
/// keeps cleaning up or closes the panel.
pub proof fn cancelled_flow_never_returns(
    r: RuntimeView,
    finished: Option<FinishedView>,
    exited: bool,
    width_changed: bool,
    now: u64,
)
    requires
        r.ecs is Some,
        r.ecs->0.stage == Stage::Cancelling,
        r.ecs->0.stop_stage == Stage::Cancelling,
    ensures
        ({
            let (after, cancel, step) = polled(r, finished, exited, width_changed, now);
            &&& !cancel
            &&& step is Idle || step is Redraw || step is CancelPanel
            &&& after.ecs matches Some(f) ==> f.stage == Stage::Cancelling && f.stop_stage
                == Stage::Cancelling
            &&& after.completed_ids == r.completed_ids
        }),
{
}

/// A check whose time is up discards what its probe found, even a ready role.
pub proof fn expired_check_discards_its_result(
    r: RuntimeView,
    finished: Option<FinishedView>,
    width_changed: bool,
    now: u64,
)
    requires
        !orphaned(r),
        r.state is Some,
        r.ecs is Some,
        r.ecs->0.stage.probes(),
        r.ecs->0.operation matches Some(Operation::Probe(_)),
        due(r.ecs->0.deadline, now) || due(r.ecs->0.operation_deadline, now),
        r.ecs->0.reply(finished) is Some,
        !(r.state->0.phase is PreparingMenu),
    ensures
        ({
            let (after, cancel, step) = polled(r, finished, false, width_changed, now);
            &&& step is Redraw
            &&& cancel
            &&& after.ecs is Some
            &&& after.ecs->0.operation is None
            &&& after.ecs->0.stage == (if due(r.ecs->0.deadline, now) {
                Stage::TimedOut
            } else {
                Stage::Failed
            })
        }),
{
}

/// A flow that rests at an outcome stays there, and starts nothing.
pub proof fn outcomes_are_final(r: RuntimeView, exited: bool, now: u64)
    requires
        !orphaned(r),
        r.state is Some,
        handled(r.state->0.phase),
        !(r.state->0.phase is PreparingMenu),
        offers_option(r.ecs),
    ensures
        polled(r, None, exited, false, now) == (r, false, StepView::Idle),
{
    let out = polled(r, None, exited, false, now);
    assert(out.0 =~~= r);
}

proof fn lemma_moved_saves(
    r: RuntimeView,
    auth: AuthView,
    flow: FlowView,
    reply: Option<ReplyView>,
    check: PendingCheck,
    exited: bool,
)
    requires
        moved(r, auth, flow, reply, check, exited).1 is StartConfiguration || moved(
            r,
            auth,
            flow,
            reply,
            check,
            exited,
        ).1 is SendResponse,
    ensures
        flow.stage != Stage::Cancelling,
        reply matches Some(ReplyView::Verified(Ok(value))) && value.text_at("status"@) == Some("ready"@),
{
}

/// A save is only started by a probe that found the role ready.
pub proof fn only_a_ready_role_is_saved(
    r: RuntimeView,
    finished: Option<FinishedView>,
    exited: bool,
    width_changed: bool,
    now: u64,
)
    requires
        polled(r, finished, exited, width_changed, now).2 is StartConfiguration || polled(
            r,
            finished,
            exited,
            width_changed,
            now,
        ).2 is SendResponse,
    ensures
        r.ecs is Some,
        r.ecs->0.operation == Some(Operation::Probe(false)),
        finished matches Some(FinishedView::Probe(Ok(value))) && value.text_at("status"@) == Some(
            "ready"@,
        ),
{
    let auth = r.state->0;
    let start = match r.ecs {
        Some(f) => f,
        None => FlowView::started(auth, now),
    };
    let check = PendingCheck {
        prepare: false,
        previous: start.stage,
        was_waiting_for_refresh: start.waiting_for_refresh,
        had_operation: start.operation is Some,
        preparing_menu: auth.phase is PreparingMenu,
        width_changed,
        now,
    };
    let settled = start.resumed(handled(auth.phase), now).settled(exited, now);
    assert(polled(r, finished, exited, width_changed, now) == driven(r, auth, start, check, finished, exited));
    lemma_moved_saves(
        r,
        auth,
        settled.observed(finished, now),
        settled.reply(finished),
        check,
        exited,
    );
    assert(settled.operation == start.operation);
}

/// Cleaning up after a flow of another form leaves the form on screen alone.
pub proof fn stale_cleanup_spares_the_form(
    r: RuntimeView,
    finished: Option<FinishedView>,
    exited: bool,
    width_changed: bool,
    now: u64,
)
    requires
        orphaned(r),
    ensures
        polled(r, finished, exited, width_changed, now).0.state == r.state,
        polled(r, finished, exited, width_changed, now).0.completed_ids == r.completed_ids,
        polled(r, finished, exited, width_changed, now).2 is Idle,
{
}

/// Waiting on does not extend the time that an authorization may take.
pub proof fn waiting_keeps_the_deadline(
    r: RuntimeView,
    flow: FlowView,
    auth: AuthView,
    value: Tree,
    preparing_menu: bool,
    now: u64,
)
    requires
        waits(value),
    ensures
        replied(r, flow, auth, ReplyView::Verified(Ok(value)), preparing_menu, now).0.ecs matches Some(f)
            && f.deadline == flow.deadline && f.stage == Stage::Waiting,
{
    reveal_strlit("ready");
    reveal_strlit("not_ready");
    assert("ready"@.len() != "not_ready"@.len());
}

/// The user cannot cancel a save.
pub proof fn a_save_cannot_be_cancelled(r: RuntimeView, now: u64)
    requires
        r.ecs is Some,
        r.ecs->0.operation == Some(Operation::Configure) || r.ecs->0.stage == Stage::Submitting,
    ensures
        cancelled(r, now) == (r, true, false),
{
}

/// A save that is confirmed late still settles the question of its outcome.
pub proof fn late_success_settles_an_unknown_save(
    r: RuntimeView,
    exited: bool,
    width_changed: bool,
    now: u64,
)
    requires
        !orphaned(r),
        r.state is Some,
        r.ecs is Some,
        r.ecs->0.stage == Stage::Unknown || r.ecs->0.stage == Stage::Submitting,
        r.ecs->0.operation == Some(Operation::Configure),
    ensures
        ({
            let (after, cancel, step) = polled(
                r,
                Some(FinishedView::Saved(Ok(()))),
                exited,
                width_changed,
                now,
            );
            &&& step is Configured
            &&& after.state is None
            &&& after.ecs is None
            &&& after.completed_ids.contains(r.state->0.id)
        }),
{
}

} // verus!
