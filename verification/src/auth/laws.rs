//! What holds of authentication with the role of an ECS instance, whatever the
//! form holds and the workers report.

use vstd::prelude::*;

use crate::auth::ecs_flow::{
    answered, attempted, cancelled, cleaned, concluded, driven, due, focus_from, focus_index, handled, headline, manual_form,
    may_save, moved, offers_option, orphaned, polled, prepared_instance, question_text, redrawn, renamable,
    rejected, replied, response_of, save_attempted, saving_flow, shows_code, waits,
    AnswerStep, FailureView, FinishedView, FlowView, Operation, PendingCheck, ReplyView, RuntimeView, Stage,
    StepView, CONFIGURE_LIMIT, INTERVAL, OPERATION_LIMIT, WAIT_LIMIT,
};
use crate::auth::form::{AuthBackend, AuthView, PhaseView, PrepareView, SysomView};
use crate::auth::registry::{prepare_answer, probe_answer};
use crate::ecs_metadata::{CredentialStatus, NotReadyReason};
use crate::i18n::{catalog, Language, MessageId};
use crate::tree::Tree;

verus! {

/// A form is on screen whose flow waits for a worker within all its deadlines.
pub open spec fn under_way(r: RuntimeView, operation: Operation, now: u64) -> bool {
    &&& !orphaned(r)
    &&& r.state is Some
    &&& !(r.state->0.phase is PreparingMenu)
    &&& r.ecs is Some
    &&& r.ecs->0.operation == Some(operation)
    &&& r.ecs->0.stage.probes() || (operation == Operation::Configure && r.ecs->0.stage
        == Stage::Submitting)
    &&& !due(r.ecs->0.deadline, now)
    &&& !due(r.ecs->0.operation_deadline, now)
}

/// A verification that fails ends the check: the flow rests at the failure, which
/// is shown, and no further probe is started.
pub proof fn failed_verifications_end_the_check(
    r: RuntimeView,
    error: Seq<char>,
    width_changed: bool,
    now: u64,
)
    requires
        under_way(r, Operation::Probe(false), now) || under_way(r, Operation::Probe(true), now),
    ensures
        ({
            let (after, cancel, step) = polled(
                r,
                Some(FinishedView::Probe(Err(error))),
                false,
                width_changed,
                now,
            );
            &&& step is Redraw
            &&& !cancel
            &&& after.ecs is Some
            &&& after.ecs->0.stage == Stage::Failed
            &&& after.ecs->0.error == Some(error)
            &&& after.ecs->0.operation is None
            &&& after.state is Some
            &&& after.state->0.collected_values == r.state->0.collected_values
            &&& after.completed_ids == r.completed_ids
        }),
{
}

/// A verification answers in one of three ways: the role is ready, it is waited
/// for, or the check has failed. It is waited for exactly where the instance is
/// not ready because its role is missing or its credentials expired.
pub proof fn verifications_are_taken_at_their_word(
    r: RuntimeView,
    value: Tree,
    width_changed: bool,
    now: u64,
)
    requires
        under_way(r, Operation::Probe(false), now),
        now + WAIT_LIMIT <= u64::MAX,
    ensures
        ({
            let (after, _, step) = polled(
                r,
                Some(FinishedView::Probe(Ok(value))),
                false,
                width_changed,
                now,
            );
            let status = value.text_at("status"@);
            let reason = value.text_at("reason"@);
            let missing = status == Some("not_ready"@) && reason == Some("role_missing"@);
            let expired = status == Some("not_ready"@) && reason == Some("credentials_expired"@);
            &&& status == Some("ready"@) && r.state->0.backend == AuthBackend::ActiveRun
                ==> step is SendResponse && after.ecs is None
            &&& status == Some("ready"@) && r.state->0.backend != AuthBackend::ActiveRun
                ==> step is StartConfiguration && after.ecs is Some
            &&& missing || expired ==> {
                &&& after.ecs is Some
                &&& after.ecs->0.stage == Stage::Waiting
                &&& after.ecs->0.waiting_for_refresh == expired
                &&& after.ecs->0.next_check == now + INTERVAL
                &&& after.ecs->0.deadline == r.ecs->0.deadline
                &&& after.ecs->0.operation is None
            }
            &&& status != Some("ready"@) && !missing && !expired ==> {
                &&& after.ecs is Some
                &&& after.ecs->0.stage == Stage::Failed
                &&& after.ecs->0.error == Some("Invalid ECS verification result"@)
                &&& step is Redraw
            }
            &&& step is StartConfiguration || step is SendResponse ==> status == Some("ready"@)
            &&& after.completed_ids == r.completed_ids
        }),
{
    reveal_strlit("ready");
    reveal_strlit("not_ready");
    reveal_strlit("role_missing");
    reveal_strlit("credentials_expired");
    assert("ready"@.len() == 5 && "not_ready"@.len() == 9);
    assert("role_missing"@.len() == 12 && "credentials_expired"@.len() == 19);
}

/// A stopping flow goes nowhere but to an end.
pub open spec fn stops_at_an_end(r: RuntimeView) -> bool {
    r.ecs matches Some(f) ==> f.stop_stage == Stage::Cancelling || f.stop_stage == Stage::TimedOut
        || f.stop_stage == Stage::Failed
}

proof fn lemma_replies_wait(
    r: RuntimeView,
    flow: FlowView,
    auth: AuthView,
    reply: ReplyView,
    preparing_menu: bool,
    now: u64,
)
    requires
        replied(r, flow, auth, reply, preparing_menu, now).0.ecs is Some,
        flow.stop_stage == Stage::Cancelling || flow.stop_stage == Stage::TimedOut || flow.stop_stage
            == Stage::Failed,
    ensures
        ({
            let next = replied(r, flow, auth, reply, preparing_menu, now).0.ecs->0;
            &&& next.stop_stage == flow.stop_stage
            &&& next.stage == Stage::Waiting && flow.stage != Stage::Waiting
                ==> (reply matches ReplyView::Verified(Ok(value)) && value.text_at("status"@) == Some(
                "not_ready"@,
            ) && (value.text_at("reason"@) == Some("role_missing"@) || value.text_at("reason"@) == Some(
                "credentials_expired"@,
            )))
        }),
{
}

proof fn lemma_moves_wait(
    r: RuntimeView,
    auth: AuthView,
    flow: FlowView,
    reply: Option<ReplyView>,
    check: PendingCheck,
    exited: bool,
)
    requires
        flow.stop_stage == Stage::Cancelling || flow.stop_stage == Stage::TimedOut || flow.stop_stage
            == Stage::Failed,
        moved(r, auth, flow, reply, check, exited).0.ecs is Some,
    ensures
        ({
            let next = moved(r, auth, flow, reply, check, exited).0.ecs->0;
            &&& next.stop_stage == Stage::Cancelling || next.stop_stage == Stage::TimedOut
                || next.stop_stage == Stage::Failed
            &&& next.stage == Stage::Waiting && flow.stage != Stage::Waiting ==> (reply matches Some(
                ReplyView::Verified(Ok(value)),
            ) && value.text_at("status"@) == Some("not_ready"@) && (value.text_at("reason"@) == Some(
                "role_missing"@,
            ) || value.text_at("reason"@) == Some("credentials_expired"@)))
        }),
{
    if flow.stage != Stage::Cancelling && reply is Some {
        let told = replied(r, flow, auth, reply->0, check.preparing_menu, check.now);
        if told.0.ecs is Some {
            lemma_replies_wait(r, flow, auth, reply->0, check.preparing_menu, check.now);
        }
    }
}

/// A flow waits for authorization only because a verification said so: one that
/// was running, succeeded, and found the role missing or the credentials expired.
pub proof fn only_verifications_make_a_flow_wait(
    r: RuntimeView,
    finished: Option<FinishedView>,
    exited: bool,
    width_changed: bool,
    now: u64,
)
    requires
        stops_at_an_end(r),
    ensures
        ({
            let after = polled(r, finished, exited, width_changed, now).0;
            &&& stops_at_an_end(after)
            &&& after.ecs is Some && after.ecs->0.stage == Stage::Waiting && !(r.ecs is Some
                && r.ecs->0.stage == Stage::Waiting) ==> {
                &&& r.ecs is Some
                &&& r.ecs->0.operation == Some(Operation::Probe(false))
                &&& finished matches Some(FinishedView::Probe(Ok(value))) && value.text_at("status"@)
                    == Some("not_ready"@) && (value.text_at("reason"@) == Some("role_missing"@)
                    || value.text_at("reason"@) == Some("credentials_expired"@))
            }
        }),
{
    if !orphaned(r) && r.state is Some && (handled(r.state->0.phase) || r.ecs is Some) {
        let auth = r.state->0;
        let start = match r.ecs {
            Some(f) => f,
            None => FlowView::started(auth, now),
        };
        let check = PendingCheck {
            prepare: false,
            previous: start.stage,
            was_waiting_for_refresh: start.waiting_for_refresh,
            had_operation: start.operation is Some,
            preparing_menu: auth.phase is PreparingMenu,
            width_changed,
            now,
        };
        let settled = start.resumed(handled(auth.phase), now).settled(exited, now);
        let flow = settled.observed(finished, now);
        if driven(r, auth, start, check, finished, exited).0.ecs is Some {
            lemma_moves_wait(r, auth, flow, settled.reply(finished), check, exited);
        }
    }
}

/// A preparation sends the form on: to its fields where the instance has no role,
/// to the challenge of the instance where it has one, and to a failure otherwise.
pub proof fn preparations_send_the_form_on(r: RuntimeView, value: Tree, width_changed: bool, now: u64)
    requires
        under_way(r, Operation::Probe(true), now),
        now + WAIT_LIMIT <= u64::MAX,
    ensures
        ({
            let (after, _, step) = polled(
                r,
                Some(FinishedView::Probe(Ok(value))),
                false,
                width_changed,
                now,
            );
            let mode = value.text_at("mode"@);
            let instance = value.text_at("instance_id"@);
            let url = value.text_at("console_url"@);
            let known = mode == Some("ecs_ram_role"@) && instance is Some && instance->0.len() > 0
                && url is Some && url->0.len() > 0;
            &&& mode == Some("manual"@) ==> {
                &&& after.ecs is None
                &&& step is Redraw
                &&& after.state is Some
                &&& after.state->0.phase is FillingField
                &&& !after.state->0.collected_values.contains_key("auth_source"@)
            }
            &&& known ==> {
                &&& after.ecs is Some
                &&& after.ecs->0.challenge is Some
                &&& after.ecs->0.challenge->0.instance_id == instance->0
                &&& after.ecs->0.challenge->0.console_url == url->0
                &&& after.ecs->0.deadline == Some((now + WAIT_LIMIT) as u64)
                &&& after.ecs->0.stage == Stage::Checking
                &&& after.state is Some
                &&& after.state->0.phase is AliyunEcsChallenge
                &&& after.state->0.collected_values.contains_key("auth_source"@)
                &&& after.state->0.collected_values["auth_source"@] == "ecs_ram_role"@
                &&& !after.state->0.collected_values.contains_key("access_key_id"@)
                &&& !after.state->0.collected_values.contains_key("access_key_secret"@)
                &&& !after.state->0.collected_values.contains_key("security_token"@)
                &&& step is StartProbe && !step->StartProbe_0.prepare
            }
            &&& mode != Some("manual"@) && !known ==> {
                &&& after.ecs is Some
                &&& after.ecs->0.stage == Stage::Failed
                &&& step is Redraw
            }
        }),
{
    reveal_strlit("manual");
    reveal_strlit("ecs_ram_role");
    reveal_strlit("auth_source");
    reveal_strlit("access_key_id");
    reveal_strlit("access_key_secret");
    reveal_strlit("security_token");
    assert("manual"@.len() == 6 && "ecs_ram_role"@.len() == 12);
    assert("auth_source"@.len() == 11 && "access_key_id"@.len() == 13 && "access_key_secret"@.len()
        == 17 && "security_token"@.len() == 14);
}

/// A menu that waited for a preparation gets its result as it is.
pub proof fn menus_get_the_preparation(
    r: RuntimeView,
    result: Result<Tree, Seq<char>>,
    width_changed: bool,
    now: u64,
)
    requires
        !orphaned(r),
        r.state is Some,
        r.state->0.phase is PreparingMenu,
        r.ecs is Some,
        r.ecs->0.operation == Some(Operation::Probe(true)),
        r.ecs->0.stage == Stage::Preparing,
        !due(r.ecs->0.deadline, now),
        !due(r.ecs->0.operation_deadline, now),
    ensures
        ({
            let (after, _, step) = polled(
                r,
                Some(FinishedView::Probe(result)),
                false,
                width_changed,
                now,
            );
            step == StepView::FinishMenu(result) && after.ecs is None && after.state == r.state
        }),
{
}

/// A save that succeeded ends the flow and its form, and the form counts as done.
/// One that failed is answered by its reason: unavailable credentials are checked
/// again, and a failure without a code or a field leaves the outcome open.
pub proof fn saves_are_answered(r: RuntimeView, failure: FailureView, width_changed: bool, now: u64)
    requires
        under_way(r, Operation::Configure, now),
        r.ecs->0.stage == Stage::Submitting,
        now + WAIT_LIMIT <= u64::MAX,
    ensures
        ({
            let (after, _, step) = polled(
                r,
                Some(FinishedView::Saved(Ok(()))),
                false,
                width_changed,
                now,
            );
            &&& step == StepView::Configured(r.state->0.provider().label)
            &&& after.state is None && after.ecs is None
            &&& after.completed_ids == r.completed_ids.insert(r.state->0.id)
        }),
        ({
            let (after, _, step) = polled(
                r,
                Some(FinishedView::Saved(Err(failure))),
                false,
                width_changed,
                now,
            );
            let again = failure.code == Some("credential_source_unavailable"@);
            &&& !(step is Configured)
            &&& after.completed_ids == r.completed_ids
            &&& after.state is Some
            &&& after.ecs is Some
            &&& after.ecs->0.operation is None
            &&& again ==> after.ecs->0.stage == Stage::Checking && after.ecs->0.next_check == now
                + INTERVAL
            &&& !again ==> after.ecs->0.error == Some(failure.message)
            &&& !again && failure.focus is None ==> after.ecs->0.stage == (if failure.code is None {
                Stage::Unknown
            } else {
                Stage::Failed
            })
            &&& !again && failure.focus is Some ==> after.ecs->0.stage == Stage::Editing
                || after.ecs->0.stage == Stage::Failed || after.ecs->0.stage == Stage::Unknown
            &&& after.ecs->0.stage == Stage::Editing ==> {
                &&& after.state->0.phase is FillingField
                &&& after.state->0.field_error == Some(failure.message)
            }
        }),
{
}

/// The field that a failure points at is the first one of that name that is not
/// secret.
pub proof fn failures_point_at_their_field(auth: AuthView, name: Seq<char>, start: int)
    requires
        0 <= start,
    ensures
        ({
            let fields = auth.provider().fields;
            match focus_from(auth, name, start) {
                Some(i) => start <= i < fields.len() && fields[i].name == name && !fields[i].secret
                    && forall|k: int| start <= k < i ==> fields[k].name != name || #[trigger] fields[k].secret,
                None => forall|k: int|
                    start <= k < fields.len() ==> fields[k].name != name || #[trigger] fields[k].secret,
            }
        }),
    decreases auth.provider().fields.len() - start,
{
    if start < auth.provider().fields.len() {
        let here = auth.provider().fields[start];
        if !(here.name == name && !here.secret) {
            failures_point_at_their_field(auth, name, start + 1);
        }
    }
}

/// A probe starts exactly when none runs, its time has come and the flow is
/// checking; it prepares exactly as long as the instance is not known.
pub proof fn probes_start_when_due(r: RuntimeView, width_changed: bool, now: u64)
    requires
        !orphaned(r),
        r.state is Some,
        handled(r.state->0.phase),
        r.ecs is Some,
        r.ecs->0.stage.probes(),
        r.ecs->0.operation is None,
        !due(r.ecs->0.deadline, now),
        !due(r.ecs->0.operation_deadline, now),
    ensures
        ({
            let (after, cancel, step) = polled(r, None, false, width_changed, now);
            &&& !cancel
            &&& step is StartProbe <==> now >= r.ecs->0.next_check
            &&& step is StartProbe ==> (step->StartProbe_0.prepare <==> r.ecs->0.stage
                == Stage::Preparing)
            &&& after.ecs == r.ecs
        }),
{
}

/// A probe that was started is waited for no longer than its limit; one that could
/// not be started fails the check.
pub proof fn started_probes_are_limited(r: RuntimeView, check: PendingCheck)
    requires
        r.ecs is Some,
        check.now + OPERATION_LIMIT <= u64::MAX,
    ensures
        attempted(r, check, true).ecs is Some,
        attempted(r, check, true).ecs->0.operation == Some(Operation::Probe(check.prepare)),
        attempted(r, check, true).ecs->0.operation_deadline == Some(
            (check.now + OPERATION_LIMIT) as u64,
        ),
        attempted(r, check, true).ecs->0.stage == r.ecs->0.stage,
        attempted(r, check, false).ecs is Some,
        attempted(r, check, false).ecs->0.stage == Stage::Failed,
        attempted(r, check, false).ecs->0.error is Some,
        attempted(r, check, false).ecs->0.operation == r.ecs->0.operation,
        attempted(r, check, true).state == r.state,
        attempted(r, check, false).state == r.state,
{
}

/// A save without an answer in its time is of unknown outcome, never a failure.
pub proof fn overdue_saves_are_unknown(r: RuntimeView, exited: bool, width_changed: bool, now: u64)
    requires
        !orphaned(r),
        r.state is Some,
        r.ecs is Some,
        r.ecs->0.stage == Stage::Submitting,
        r.ecs->0.operation == Some(Operation::Configure),
    ensures
        ({
            let (after, cancel, step) = polled(r, None, exited, width_changed, now);
            &&& !cancel
            &&& after.ecs is Some
            &&& after.ecs->0.stage == (if due(r.ecs->0.operation_deadline, now) {
                Stage::Unknown
            } else {
                Stage::Submitting
            })
            &&& after.ecs->0.operation == Some(Operation::Configure)
            &&& due(r.ecs->0.operation_deadline, now) ==> step is Redraw
        }),
{
}

/// A check whose time is up without a result is stopped: its probe is cancelled,
/// and the flow ends as timed out or failed once the probe has ended.
pub proof fn overdue_checks_are_stopped(r: RuntimeView, width_changed: bool, now: u64)
    requires
        !orphaned(r),
        r.state is Some,
        handled(r.state->0.phase) || r.ecs->0.operation is Some,
        r.ecs is Some,
        r.ecs->0.stage.probes(),
        r.ecs->0.operation matches Some(Operation::Probe(_)),
        due(r.ecs->0.deadline, now) || due(r.ecs->0.operation_deadline, now),
        now + OPERATION_LIMIT <= u64::MAX,
    ensures
        ({
            let (after, cancel, _) = polled(r, None, false, width_changed, now);
            &&& cancel
            &&& after.ecs is Some
            &&& after.ecs->0.stage == Stage::Cancelling
            &&& after.ecs->0.stop_stage == (if due(r.ecs->0.deadline, now) {
                Stage::TimedOut
            } else {
                Stage::Failed
            })
            &&& after.ecs->0.operation == r.ecs->0.operation
        }),
{
}

/// The user can try again where the flow rests at a failure: a known instance is
/// checked anew with a new time limit, an unknown one is prepared anew. Where the
/// outcome is unknown, the only way is back.
pub proof fn answers_try_again(r: RuntimeView, now: u64)
    requires
        r.ecs is Some,
        now + WAIT_LIMIT <= u64::MAX,
    ensures
        ({
            let (after, step) = answered(r, now);
            let resting = r.ecs->0.operation is None;
            let failed = resting && (r.ecs->0.stage == Stage::Failed || r.ecs->0.stage
                == Stage::TimedOut);
            let unknown = resting && r.ecs->0.stage == Stage::Unknown;
            &&& !failed && !unknown ==> after == r && step == AnswerStep::Ignored
            &&& unknown ==> step == AnswerStep::ReturnToManagement && after.ecs is None
                && after.state is None
            &&& failed ==> {
                &&& step == AnswerStep::Redraw
                &&& after.ecs is Some
                &&& after.ecs->0.error is None
                &&& after.ecs->0.next_check == now
                &&& after.ecs->0.challenge == r.ecs->0.challenge
                &&& r.ecs->0.challenge is Some ==> after.ecs->0.stage == Stage::Checking
                    && after.ecs->0.deadline == Some((now + WAIT_LIMIT) as u64)
                &&& r.ecs->0.challenge is None ==> after.ecs->0.stage == Stage::Preparing
                    && after.ecs->0.deadline is None
                &&& after.ecs->0.operation is None
            }
            &&& after.completed_ids == r.completed_ids
        }),
{
}

/// Cancelling a flow closes it at once where nothing runs, and stops a probe that
/// does.
pub proof fn cancelling_stops_the_probe(r: RuntimeView, now: u64)
    ensures
        r.ecs is None ==> cancelled(r, now) == (r, false, false),
        r.ecs is Some && r.ecs->0.operation is None && r.ecs->0.stage != Stage::Submitting ==> {
            let (after, handled, cancel) = cancelled(r, now);
            after.ecs is None && after.state == r.state && !handled && !cancel
        },
        r.ecs is Some && r.ecs->0.operation is Some && r.ecs->0.operation->0 is Probe && r.ecs->0.stage
            != Stage::Submitting ==> {
            let (after, handled, cancel) = cancelled(r, now);
            &&& handled
            &&& cancel <==> r.ecs->0.stage != Stage::Cancelling
            &&& after.ecs is Some
            &&& after.ecs->0.stage == Stage::Cancelling
            &&& after.ecs->0.stop_stage == Stage::Cancelling
            &&& after.ecs->0.operation == r.ecs->0.operation
        },
{
}

/// A save that was started is waited for within its limit, and the form holds the
/// role and no key; one that could not be started is a failure.
pub proof fn started_saves_are_limited(r: RuntimeView, now: u64)
    requires
        r.ecs is Some,
        r.state is Some,
        r.ecs->0.stage != Stage::Cancelling,
        now + CONFIGURE_LIMIT <= u64::MAX,
    ensures
        ({
            let started = save_attempted(r, true, now);
            &&& started.ecs is Some && started.state is Some
            &&& started.ecs->0.stage == Stage::Submitting
            &&& started.ecs->0.operation == Some(Operation::Configure)
            &&& started.ecs->0.operation_deadline == Some((now + CONFIGURE_LIMIT) as u64)
            &&& r.ecs->0.challenge is Some ==> {
                let values = started.state->0.collected_values;
                &&& values.contains_key("auth_source"@) && values["auth_source"@] == "ecs_ram_role"@
                &&& !values.contains_key("access_key_id"@)
                &&& !values.contains_key("access_key_secret"@)
                &&& !values.contains_key("security_token"@)
            }
        }),
        ({
            let failed = save_attempted(r, false, now);
            &&& failed.ecs is Some
            &&& failed.ecs->0.stage == Stage::Failed
            &&& failed.ecs->0.error == Some("Unable to start configuration worker"@)
            &&& failed.ecs->0.operation == r.ecs->0.operation
        }),
{
    reveal_strlit("auth_source");
    reveal_strlit("access_key_id");
    reveal_strlit("access_key_secret");
    reveal_strlit("security_token");
    assert("auth_source"@.len() == 11 && "access_key_id"@.len() == 13 && "access_key_secret"@.len()
        == 17 && "security_token"@.len() == 14);
}

/// What is saved is what the form holds, under the name that the form edits, or
/// else the name that the user chose, or else that of the provider.
pub proof fn saves_hold_the_form(auth: AuthView)
    ensures
        ({
            let response = response_of(auth);
            let chosen = auth.collected_values.contains_key("provider_id"@);
            &&& response.values == auth.collected_values
            &&& response.request_id == auth.request_id
            &&& response.provider_type == Some(auth.provider().id)
            &&& response.persist
            &&& auth.editing_provider_name is Some ==> response.provider_id
                == auth.editing_provider_name->0
            &&& auth.editing_provider_name is None && chosen ==> response.provider_id
                == auth.collected_values["provider_id"@]
            &&& auth.editing_provider_name is None && !chosen ==> response.provider_id
                == auth.provider().id
        }),
{
}

/// A failure is on the screen of the flow that rests at it, and so is the way on.
pub proof fn failures_are_shown(flow: FlowView, language: Language)
    requires
        flow.stage == Stage::Failed || flow.stage == Stage::TimedOut || flow.stage == Stage::Unknown,
        flow.operation is None,
    ensures
        offers_option(Some(flow)),
        headline(Some(flow)) == (match flow.stage {
            Stage::TimedOut => MessageId::AuthEcsTimedOut,
            Stage::Unknown => MessageId::AuthEcsUnknown,
            _ => MessageId::AuthEcsFailed,
        }),
        flow.error is Some ==> question_text(Some(flow), language) == catalog(
            language,
            headline(Some(flow)),
        ) + seq!['\n'] + flow.error->0 + seq!['\n'] + catalog(language, MessageId::AuthEcsCancelHint),
{
}

/// While something is under way there is nothing to choose. Only a flow that waits
/// for an authorization, or waited too long for one, shows the code.
pub proof fn waiting_screens_offer_nothing(flow: FlowView)
    ensures
        flow.operation is Some ==> !offers_option(Some(flow)),
        flow.stage.probes() || flow.stage == Stage::Submitting || flow.stage == Stage::Cancelling
            ==> !offers_option(Some(flow)),
        shows_code(Some(flow)) <==> (flow.stage == Stage::Waiting || flow.stage == Stage::TimedOut)
            && !flow.waiting_for_refresh,
        flow.stage == Stage::Waiting ==> headline(Some(flow)) == (if flow.waiting_for_refresh {
            MessageId::AuthEcsRefreshing
        } else {
            MessageId::AuthEcsWaiting
        }),
        flow.stage == Stage::Submitting ==> headline(Some(flow)) == MessageId::AuthEcsSaving,
        flow.stage == Stage::Preparing || flow.stage == Stage::Checking ==> headline(Some(flow))
            == MessageId::AuthEcsChecking,
        flow.stage == Stage::Cancelling && !flow.cleanup_reported ==> headline(Some(flow))
            == MessageId::AuthEcsCancelling,
{
}

/// A new flow checks the instance that is on screen, and prepares where there is
/// none.
pub proof fn new_flows_start_where_the_form_is(auth: AuthView, now: u64)
    requires
        now + WAIT_LIMIT <= u64::MAX,
    ensures
        ({
            let flow = FlowView::started(auth, now);
            &&& flow.id == auth.id
            &&& flow.operation is None && flow.error is None
            &&& flow.next_check == now
            &&& auth.phase is AliyunEcsChallenge ==> flow.stage == Stage::Checking && flow.deadline
                == Some((now + WAIT_LIMIT) as u64) && flow.challenge == Some(
                auth.phase->AliyunEcsChallenge_0,
            )
            &&& !(auth.phase is AliyunEcsChallenge) ==> flow.stage == Stage::Preparing
                && flow.deadline is None && flow.challenge is None
        }),
{
}

/// A deadline has come from its own time on, and what has none never comes.
pub proof fn deadlines_come_at_their_time(deadline: u64, now: u64)
    ensures
        due(Some(deadline), now) <==> now >= deadline,
        !due(None, now),
{
}

/// The flow belongs to the screens of the instance and of the menu, and to no other.
pub proof fn flows_belong_to_their_screens(phase: PhaseView)
    ensures
        handled(phase) <==> phase is PreparingMenu || phase is AliyunEcsPreparing
            || phase is AliyunEcsChallenge,
        !handled(PhaseView::FillingField) && !handled(PhaseView::SelectingProvider) && !handled(
            PhaseView::ManagingProviders,
        ),
{
}

/// Manual credentials are entered from the first field on that is still open: behind
/// the identifier if that is known.
pub proof fn manual_forms_open_at_the_first_field(auth: AuthView)
    ensures
        ({
            let form = manual_form(auth);
            let first = form.editable_from(0);
            let known = first < form.provider().fields.len() && form.provider().fields[first].name
                == "provider_id"@ && form.collected_values.contains_key("provider_id"@);
            &&& form.phase is FillingField
            &&& form.sysom is Manual
            &&& !form.collected_values.contains_key("auth_source"@)
            &&& !known ==> form.current_field == first
            &&& known ==> form.current_field == form.editable_from(first + 1)
            &&& form.provider() == auth.provider()
        }),
{
    let plain = AuthView {
        sysom: SysomView::Manual,
        collected_values: auth.collected_values.remove("auth_source"@),
        phase: PhaseView::FillingField,
        ..auth
    };
    lemma_same_open_fields(plain, manual_form(auth), 0);
    lemma_same_open_fields(plain, manual_form(auth), plain.editable_from(0) + 1);
}

proof fn lemma_same_open_fields(a: AuthView, b: AuthView, start: int)
    requires
        a.provider() == b.provider(),
        a.default_provider_id == b.default_provider_id,
        a.editing_provider_name == b.editing_provider_name,
    ensures
        a.editable_from(start) == b.editable_from(start),
    decreases a.provider().fields.len() - start,
{
    if start < a.provider().fields.len() {
        assert(a.editable(start) == b.editable(start));
        if !a.editable(start) {
            lemma_same_open_fields(a, b, start + 1);
        }
    }
}

/// A failed identifier becomes editable again unless the form edits a provider that
/// is there; no other field changes that.
pub proof fn only_failed_identifiers_open_up(auth: AuthView, index: int)
    requires
        0 <= index < auth.provider().fields.len(),
    ensures
        ({
            let after = renamable(auth, index);
            let identity = auth.provider().fields[index].name == "provider_id"@;
            &&& identity && auth.editing_provider_name is None ==> !after.default_provider_id
                && after.editable(index)
            &&& !identity || auth.editing_provider_name is Some ==> after == auth
        }),
{
}

/// What the core answers about an instance is understood by the flow: an instance that
/// is not ready is waited for, and its role is asked for by name.
pub proof fn answers_of_the_core_are_understood(
    request_id: Seq<char>,
    reason: NotReadyReason,
    instance: Seq<char>,
    url: Seq<char>,
)
    requires
        instance.len() > 0,
        url.len() > 0,
    ensures
        waits(probe_answer(request_id, Ok(CredentialStatus::NotReady(reason))).data->0),
        !waits(probe_answer(request_id, Ok(CredentialStatus::Ready)).data->0),
        prepared_instance(prepare_answer(request_id, Ok(Some((instance, url)))).data->0) == Some(
            PrepareView { instance_id: instance, console_url: url },
        ),
        prepared_instance(prepare_answer(request_id, Ok(None)).data->0) is None,
{
    reveal_strlit("status");
    reveal_strlit("reason");
    reveal_strlit("ready");
    reveal_strlit("not_ready");
    reveal_strlit("mode");
    reveal_strlit("instance_id");
    reveal_strlit("console_url");
    reveal_strlit("values");
    assert("status"@[0] == 's' && "reason"@[0] == 'r');
    assert("ready"@.len() == 5 && "not_ready"@.len() == 9);
    assert("mode"@.len() == 4 && "instance_id"@.len() == 11 && "console_url"@.len() == 11
        && "values"@.len() == 6);
    assert("instance_id"@[0] == 'i' && "console_url"@[0] == 'c');
}

/// A panel that is drawn again asks for its input anew, unless it is being closed.
pub proof fn drawn_panels_ask_anew(r: RuntimeView)
    requires
        r.state is Some,
    ensures
        ({
            let after = redrawn(r);
            let closing = r.ecs is Some && r.ecs->0.stage == Stage::Cancelling;
            &&& after.ecs == r.ecs && after.completed_ids == r.completed_ids
            &&& after.state is Some
            &&& closing ==> after == r
            &&& !closing && r.state->0.field_capture_revision < u64::MAX
                ==> after.state->0.field_capture_revision == r.state->0.field_capture_revision + 1
            &&& after.state->0.phase == r.state->0.phase
            &&& after.state->0.collected_values == r.state->0.collected_values
        }),
{
}

/// A flow whose form is gone waits for its worker and is then gone too.
pub proof fn orphaned_flows_wait_for_their_worker(r: RuntimeView, finished: Option<FinishedView>, now: u64)
    requires
        orphaned(r),
    ensures
        ({
            let after = cleaned(r, finished, now);
            let ended = r.ecs->0.reply(finished) is Some || r.ecs->0.operation is None;
            &&& after.ecs is None <==> ended
            &&& !ended ==> after.ecs->0.stage == Stage::Cancelling && after.ecs->0.operation
                == r.ecs->0.operation
            &&& after.state == r.state
        }),
{
}

/// A save can be started whenever there is a form and nothing runs, but not once the
/// shell has gone.
pub proof fn idle_forms_can_be_saved(r: RuntimeView, now: u64)
    ensures
        r.state is Some && r.ecs is None ==> may_save(r, false, now),
        r.state is Some && r.ecs is Some ==> (may_save(r, false, now) <==> r.ecs->0.operation is None),
        r.state is None ==> !may_save(r, false, now),
        !may_save(r, true, now),
        r.ecs is Some ==> saving_flow(r, now) == r.ecs->0,
{
}

/// A save that was rejected for a field leads back to that field if it can be edited,
/// and rests at the failure otherwise; the message is shown in either case.
pub proof fn rejected_saves_lead_to_their_field(flow: FlowView, auth: AuthView, failure: FailureView)
    ensures
        ({
            let (next, form) = rejected(flow, auth, failure);
            let index = focus_index(auth, failure);
            &&& next.error == Some(failure.message)
            &&& index is Some && renamable(auth, index->0).editable(index->0) ==> {
                &&& next.stage == Stage::Editing
                &&& form.phase is FillingField
                &&& form.current_field == index->0
                &&& form.field_error == Some(failure.message)
            }
            &&& index is Some && !renamable(auth, index->0).editable(index->0) ==> next.stage
                == Stage::Failed
            &&& index is None && failure.code is Some ==> next.stage == Stage::Failed && form == auth
            &&& index is None && failure.code is None ==> next.stage == Stage::Unknown && form == auth
            &&& form.collected_values == auth.collected_values
            &&& next.operation == flow.operation && next.challenge == flow.challenge
        }),
{
}

/// A panel is drawn again exactly if it shows something else than before or its width
/// changed; a menu whose preparation failed is told so.
pub proof fn changed_panels_are_drawn_again(r: RuntimeView, check: PendingCheck)
    requires
        r.ecs is Some,
    ensures
        ({
            let (after, step) = concluded(r, check);
            let flow = r.ecs->0;
            let menu = check.preparing_menu && flow.stage == Stage::Failed && flow.operation is None;
            let other = flow.stage != check.previous || flow.waiting_for_refresh
                != check.was_waiting_for_refresh || check.width_changed || (check.previous
                == Stage::Unknown && check.had_operation && flow.operation is None);
            &&& menu ==> after.ecs is None && step is FinishMenu && step->FinishMenu_0 is Err && (
            flow.error is Some ==> step->FinishMenu_0->Err_0 == flow.error->0)
            &&& !menu ==> (step is Redraw <==> other)
            &&& !menu && !other ==> step is Idle && after == r
            &&& !menu ==> after.ecs == r.ecs
        }),
{
}

} // verus!
