use cosh::auth::ecs_flow::{
    answer, cancel, configuration_attempted, handles, option_count, poll, probe_attempted,
    question, redraw, set_challenge, shutdown, start_configuration, AnswerStep,
    AuthConfigureFailure, AuthRuntime, EcsFlow, Finished, Operation, PollStep, Stage,
    CONFIGURE_LIMIT, INTERVAL, OPERATION_LIMIT, WAIT_LIMIT,
};
use cosh::auth::form::{
    begin_new_provider, begin_sysom_shortcut, providers_with_provider_id_field, AuthBackend,
    AuthFieldInfo, AuthPhase, AuthProviderInfo, EcsRamRolePrepare, ExistingProvider,
    RuntimeAuthState, SysomMenu,
};
use cosh::auth::navigation::{
    handle_auth_answer, management_entry, record_field_submission,
    restore_after_failed_submission_at, step_back, AnswerOutcome, AuthManagementEntry,
    FieldSubmission,
};
use cosh::i18n::{I18n, Language, MessageId};
use cosh::values::{NameSet, Values};
use serde_json::Value;

fn json(text: &str) -> Value {
    serde_json::from_str(text).expect("json")
}

fn field(name: &str, label: &str, secret: bool) -> AuthFieldInfo {
    AuthFieldInfo {
        name: name.to_string(),
        label: label.to_string(),
        hint: None,
        secret,
        required: true,
        placeholder: None,
    }
}

fn provider(id: &str, fields: Vec<AuthFieldInfo>) -> AuthProviderInfo {
    AuthProviderInfo {
        id: id.to_string(),
        label: id.to_string(),
        description: None,
        description_zh_cn: None,
        builtin_base_url: None,
        fields,
    }
}

fn slash_auth_state(ids: &[&str], sysom: SysomMenu) -> RuntimeAuthState {
    RuntimeAuthState {
        id: "auth-slash".to_string(),
        request_id: "auth-slash".to_string(),
        phase: AuthPhase::ManagingProviders,
        providers: ids.iter().map(|id| provider(id, Vec::new())).collect(),
        selected_provider: 0,
        current_field: 0,
        collected_values: Values::new(),
        field_input: String::new(),
        field_error: None,
        field_capture_revision: 0,
        existing_providers: Vec::new(),
        editing_provider_name: None,
        default_provider_id: false,
        from_sysom_shortcut: false,
        error_message: None,
        backend: AuthBackend::CoreRegistry,
        sysom,
    }
}

fn saved_dashscope() -> ExistingProvider {
    ExistingProvider {
        name: "prod".to_string(),
        provider_type: "dashscope".to_string(),
        source: "user".to_string(),
    }
}

fn ecs_prepare() -> EcsRamRolePrepare {
    EcsRamRolePrepare {
        instance_id: "i-test".to_string(),
        console_url: "https://example.invalid/authorize".to_string(),
    }
}

fn selecting(id: &str) -> RuntimeAuthState {
    let mut auth = slash_auth_state(&[id], SysomMenu::on_manual());
    auth.phase = AuthPhase::SelectingProvider;
    auth.providers[0].fields = vec![
        field("provider_id", "Provider ID", false),
        field("base_url", "Base URL", false),
        field("model", "Model", false),
        field("api_key", "API Key", true),
    ];
    auth
}

fn answer_selected_row(auth: &mut RuntimeAuthState) {
    assert_eq!(handle_auth_answer(auth, ""), AnswerOutcome::Moved);
}

fn current(auth: &RuntimeAuthState) -> &str {
    auth.current_field_info().expect("field").name.as_str()
}

fn value<'a>(auth: &'a RuntimeAuthState, key: &str) -> Option<&'a str> {
    auth.collected_values.get(key).map(String::as_str)
}

#[test]
fn default_name_is_skipped_in_forward_and_backward_navigation() {
    let mut auth = selecting("openai_compat");
    answer_selected_row(&mut auth);
    handle_auth_answer(&mut auth, "https://example.invalid");
    assert_eq!(current(&auth), "model");
    step_back(&mut auth);
    assert_eq!(current(&auth), "base_url");
    step_back(&mut auth);
    assert!(matches!(auth.phase, AuthPhase::SelectingProvider));
    assert_eq!(value(&auth, "provider_id"), Some("openai_compat"));
}

#[test]
fn default_name_is_preserved_by_generic_and_field_failure_recovery() {
    for focus in [None, Some("model"), Some("missing_field")] {
        let mut auth = selecting("openai_compat");
        answer_selected_row(&mut auth);
        auth.collected_values.insert("api_key", "secret");
        restore_after_failed_submission_at(&mut auth, focus);
        assert_eq!(value(&auth, "provider_id"), Some("openai_compat"));
        assert_eq!(
            current(&auth),
            if focus == Some("model") {
                "model"
            } else {
                "base_url"
            }
        );
        assert!(!auth.collected_values.contains_key("api_key"));
        while matches!(auth.phase, AuthPhase::FillingField) {
            assert_ne!(current(&auth), "provider_id");
            step_back(&mut auth);
        }
    }
}

#[test]
fn default_name_survives_a_real_submission_failure() {
    let mut auth = selecting("dashscope");
    auth.providers[0].fields.truncate(2);
    answer_selected_row(&mut auth);
    assert_eq!(
        handle_auth_answer(&mut auth, "https://example.invalid"),
        AnswerOutcome::Submit
    );
    restore_after_failed_submission_at(&mut auth, None);
    assert_eq!(current(&auth), "base_url");
    assert_eq!(value(&auth, "provider_id"), Some("dashscope"));
}

#[test]
fn each_source_blocks_same_type_or_cross_type_name_reuse() {
    for id in [
        "aliyun",
        "dashscope",
        "coding_plan",
        "token_plan",
        "openai_compat",
    ] {
        for source in ["user", "system", "runtime"] {
            for (name, provider_type) in [("prod", id), (id, "other_type")] {
                let mut auth = selecting(id);
                auth.existing_providers = vec![ExistingProvider {
                    name: name.into(),
                    provider_type: provider_type.into(),
                    source: source.into(),
                }];
                answer_selected_row(&mut auth);
                assert_eq!(current(&auth), "provider_id");
                assert!(!auth.collected_values.contains_key("provider_id"));
                let field = auth.current_field_info().cloned().unwrap();
                assert_eq!(
                    record_field_submission(&mut auth, Some(&field), name),
                    FieldSubmission::Rejected,
                    "{id}/{source}/{name}"
                );
                assert!(auth.field_error.as_deref().unwrap().contains("already"));
                assert_eq!(
                    record_field_submission(&mut auth, Some(&field), "new-name"),
                    FieldSubmission::Accepted
                );
            }
        }
    }
}

#[test]
fn occupied_default_name_is_not_offered_as_a_placeholder() {
    let mut auth = selecting("dashscope");
    auth.providers[0].fields[0].placeholder = Some("dashscope".into());
    auth.existing_providers = vec![ExistingProvider {
        name: "dashscope".into(),
        provider_type: "other_type".into(),
        ..saved_dashscope()
    }];
    answer_selected_row(&mut auth);
    assert_eq!(auth.current_field_info().unwrap().placeholder, None);
    assert!(auth.field_error.as_deref().unwrap().contains("already"));
}

#[test]
fn typed_template_name_remains_editable_when_same_type_already_exists() {
    let mut auth = selecting("dashscope");
    auth.existing_providers = vec![saved_dashscope()];
    answer_selected_row(&mut auth);
    handle_auth_answer(&mut auth, "dashscope");
    step_back(&mut auth);
    assert_eq!(current(&auth), "provider_id");
    assert_eq!(auth.field_input, "dashscope");
}

#[test]
fn template_switch_discards_previous_identity_and_secrets() {
    let mut auth = selecting("dashscope");
    let mut other = auth.providers[0].clone();
    other.id = "coding_plan".into();
    auth.providers.push(other);
    answer_selected_row(&mut auth);
    auth.collected_values.insert("api_key", "secret");
    step_back(&mut auth);
    assert!(matches!(auth.phase, AuthPhase::SelectingProvider));
    auth.selected_provider = 1;
    answer_selected_row(&mut auth);
    assert_eq!(value(&auth, "provider_id"), Some("coding_plan"));
    assert!(!auth.collected_values.contains_key("api_key"));
    step_back(&mut auth);
    auth.existing_providers = vec![saved_dashscope()];
    auth.selected_provider = 0;
    answer_selected_row(&mut auth);
    assert_eq!(current(&auth), "provider_id");
    assert!(auth.collected_values.is_empty());
}

#[test]
fn sysom_shortcut_name_field_returns_to_management() {
    let mut auth = slash_auth_state(&["aliyun"], SysomMenu::on_ecs(ecs_prepare()));
    auth.providers[0].fields = vec![field("provider_id", "Provider ID", false)];
    auth.existing_providers = vec![ExistingProvider {
        provider_type: "aliyun".into(),
        ..saved_dashscope()
    }];
    assert!(begin_sysom_shortcut(&mut auth));
    step_back(&mut auth);
    assert!(matches!(auth.phase, AuthPhase::ManagingProviders));
    assert_eq!(
        management_entry(
            &auth.sysom,
            auth.existing_providers.len(),
            auth.selected_provider
        ),
        AuthManagementEntry::SysomShortcut
    );
}

#[test]
fn template_picker_default_aliyun_still_applies_prepare() {
    let mut auth = selecting("aliyun");
    auth.sysom = SysomMenu::on_ecs(ecs_prepare());
    answer_selected_row(&mut auth);
    assert!(matches!(auth.phase, AuthPhase::AliyunEcsChallenge(_)));
    assert_eq!(value(&auth, "provider_id"), Some("aliyun"));
    assert_eq!(value(&auth, "auth_source"), Some("ecs_ram_role"));
}

#[test]
fn default_aliyun_without_cached_prepare_does_not_silently_use_manual_fields() {
    let mut auth = selecting("aliyun");
    auth.sysom = SysomMenu::Unprepared;
    assert_ne!(handle_auth_answer(&mut auth, ""), AnswerOutcome::Ignored);
    assert!(matches!(auth.phase, AuthPhase::AliyunEcsPreparing));
    assert_eq!(value(&auth, "provider_id"), Some("aliyun"));
}

#[test]
fn default_name_without_an_id_field_does_not_skip_a_credential() {
    let mut auth = selecting("dashscope");
    auth.providers[0].fields.remove(0);
    answer_selected_row(&mut auth);
    assert_eq!(auth.current_field, 0);
    assert_eq!(current(&auth), "base_url");
    assert_eq!(value(&auth, "provider_id"), Some("dashscope"));
}

#[test]
fn empty_template_submits_after_resolving_identity() {
    let mut auth = selecting("dashscope");
    auth.providers[0].fields.clear();
    assert_eq!(handle_auth_answer(&mut auth, ""), AnswerOutcome::Submit);
    assert_eq!(value(&auth, "provider_id"), Some("dashscope"));
}

#[test]
fn only_identity_failure_reopens_default_naming() {
    let mut auth = selecting("dashscope");
    answer_selected_row(&mut auth);
    restore_after_failed_submission_at(&mut auth, Some("provider_id"));
    assert_eq!(current(&auth), "provider_id");
    let field = auth.current_field_info().cloned().unwrap();
    assert_eq!(
        record_field_submission(&mut auth, Some(&field), "new-name"),
        FieldSubmission::Accepted
    );
    restore_after_failed_submission_at(&mut auth, None);
    assert_eq!(current(&auth), "provider_id");
}

#[test]
fn management_rows_follow_the_configured_providers() {
    let manual = SysomMenu::on_manual();
    let role = SysomMenu::on_ecs(ecs_prepare());
    assert_eq!(
        management_entry(&manual, 2, 1),
        AuthManagementEntry::Existing(1)
    );
    assert_eq!(
        management_entry(&manual, 2, 2),
        AuthManagementEntry::NewProvider
    );
    assert_eq!(
        management_entry(&role, 2, 2),
        AuthManagementEntry::SysomShortcut
    );
    assert_eq!(
        management_entry(&role, 2, 3),
        AuthManagementEntry::NewProvider
    );
    assert!(manual.prefetched());
    assert!(!SysomMenu::Unprepared.prefetched());
    let mut none = slash_auth_state(&["dashscope"], manual);
    assert!(!begin_sysom_shortcut(&mut none));
    none.collected_values.insert("api_key", "k");
    none.selected_provider = 0;
    begin_new_provider(&mut none);
    assert!(matches!(none.phase, AuthPhase::SelectingProvider));
    assert!(none.collected_values.is_empty());
}

#[test]
fn templates_get_an_identifier_field_in_front() {
    let listed =
        providers_with_provider_id_field(vec![provider("x", vec![field("model", "Model", false)])]);
    assert_eq!(listed[0].fields.len(), 2);
    assert_eq!(listed[0].fields[0].name, "provider_id");
    assert_eq!(listed[0].fields[0].placeholder.as_deref(), Some("x"));
    assert_eq!(listed[0].fields[1].name, "model");
}

const NOW: u64 = 1_000_000;

fn state(id: &str) -> AuthRuntime {
    let mut auth = slash_auth_state(&["aliyun"], SysomMenu::Unprepared);
    auth.id = id.to_string();
    auth.request_id = id.to_string();
    auth.providers[0].label = "Aliyun".to_string();
    auth.phase = AuthPhase::AliyunEcsChallenge(ecs_prepare());
    auth.collected_values.insert("auth_source", "ecs_ram_role");
    auth.collected_values.insert("provider_id", "aliyun");
    auth.default_provider_id = true;
    let flow = EcsFlow::new(&auth, NOW);
    AuthRuntime {
        state: Some(auth),
        ecs: Some(flow),
        completed_ids: NameSet::new(),
    }
}

fn menu_state(id: &str) -> AuthRuntime {
    let mut runtime = state(id);
    let auth = runtime.state.as_mut().unwrap();
    auth.phase = AuthPhase::PreparingMenu;
    auth.collected_values.clear();
    runtime.ecs = Some(EcsFlow::new(auth, NOW));
    runtime
}

fn flow(runtime: &mut AuthRuntime) -> &mut EcsFlow {
    runtime.ecs.as_mut().expect("flow")
}

fn stage(runtime: &AuthRuntime) -> Stage {
    runtime.ecs.as_ref().expect("flow").stage
}

fn probed(text: &str) -> Option<Finished> {
    Some(Finished::Probe(Ok(json(text))))
}

fn attach_probe(runtime: &mut AuthRuntime, prepare: bool) {
    let flow = flow(runtime);
    flow.operation = Some(Operation::Probe(prepare));
    flow.operation_deadline = Some(NOW + OPERATION_LIMIT);
}

fn attach_save(runtime: &mut AuthRuntime, stage: Stage) {
    let flow = flow(runtime);
    flow.stage = stage;
    flow.operation = Some(Operation::Configure);
}

fn failure(message: &str, code: Option<&str>, focus: Option<&str>) -> Option<Finished> {
    Some(Finished::Saved(Err(AuthConfigureFailure {
        message: message.to_string(),
        code: code.map(str::to_string),
        focus: focus.map(str::to_string),
    })))
}

/// Closes the panel as its owner does for a cancelled flow.
fn close_panel(runtime: &mut AuthRuntime) -> bool {
    let (kept, _) = cancel(runtime, NOW);
    if !kept {
        if let Some(auth) = runtime.state.take() {
            runtime.completed_ids.insert(&auth.id);
        }
    }
    kept
}

/// One poll whose probe, if one is due, cannot be started.
fn poll_without_core(runtime: &mut AuthRuntime, finished: Option<Finished>) -> PollStep {
    match poll(runtime, finished, false, false, NOW).1 {
        PollStep::StartProbe(check) => probe_attempted(runtime, check, false),
        step => step,
    }
}

#[test]
fn menu_prepare_results_return_to_user_choice_without_verifying_or_saving() {
    for result in [
        Ok(json(r#"{"mode": "manual"}"#)),
        Ok(json(
            r#"{"mode": "ecs_ram_role", "instance_id": "i-menu", "console_url": "https://example.invalid/authorize"}"#,
        )),
        Ok(Value::Null),
        Err("metadata_access_denied".to_string()),
    ] {
        let mut runtime = menu_state("menu-result");
        attach_probe(&mut runtime, true);
        let (cancelled, step) = poll(
            &mut runtime,
            Some(Finished::Probe(result.clone())),
            false,
            false,
            NOW,
        );
        assert!(!cancelled);
        assert!(matches!(step, PollStep::FinishMenu(given) if given == result));
        assert!(runtime.ecs.is_none());
        assert!(runtime.state.is_some());
        assert!(!runtime.completed_ids.contains("menu-result"));
    }
}

#[test]
fn menu_prepare_timeout_reaps_before_returning_to_the_menu() {
    let mut runtime = menu_state("menu-timeout");
    attach_probe(&mut runtime, true);
    flow(&mut runtime).operation_deadline = Some(NOW);
    let (cancelled, step) = poll(&mut runtime, None, false, false, NOW);
    assert!(cancelled, "the late probe is cancelled first");
    assert!(matches!(step, PollStep::Redraw));
    assert!(matches!(
        runtime.state.as_ref().unwrap().phase,
        AuthPhase::PreparingMenu
    ));
    let (again, step) = poll(
        &mut runtime,
        Some(Finished::Probe(Err("cancelled".to_string()))),
        false,
        false,
        NOW + 1,
    );
    assert!(!again);
    assert!(matches!(
        step,
        PollStep::FinishMenu(Err(error)) if error == "ECS credential check timed out"
    ));
    assert!(runtime.ecs.is_none());
    assert!(!runtime.completed_ids.contains("menu-timeout"));
}

#[test]
fn menu_prepare_completed_reply_cannot_reopen_after_cancel_or_exit() {
    for shell_exited in [false, true] {
        let mut runtime = menu_state("menu-cancel");
        attach_probe(&mut runtime, true);
        if !shell_exited {
            assert!(close_panel(&mut runtime));
        }
        let (_, step) = poll(
            &mut runtime,
            probed(r#"{"mode": "manual"}"#),
            shell_exited,
            false,
            NOW,
        );
        assert!(matches!(step, PollStep::CancelPanel));
        assert!(!close_panel(&mut runtime));
        assert!(runtime.state.is_none());
        assert!(runtime.ecs.is_none());
        let (_, step) = poll(&mut runtime, None, shell_exited, false, NOW);
        assert!(matches!(step, PollStep::Idle));
    }
}

#[test]
fn cancellation_keeps_the_submitted_capture_until_cleanup_finishes() {
    for menu in [true, false] {
        let mut runtime = if menu {
            menu_state("capture-cancel")
        } else {
            state("capture-cancel")
        };
        attach_probe(&mut runtime, true);
        let capture = runtime.state.as_ref().unwrap().field_capture_revision;
        let (kept, stop_probe) = cancel(&mut runtime, NOW);
        assert!(kept && stop_probe);
        assert_eq!(
            runtime.state.as_ref().unwrap().field_capture_revision,
            capture
        );
        flow(&mut runtime).cleanup_reported = true;
        redraw(&mut runtime);
        assert_eq!(
            runtime.state.as_ref().unwrap().field_capture_revision,
            capture
        );
        let (_, step) = poll(
            &mut runtime,
            Some(Finished::Probe(Err("cancelled".to_string()))),
            false,
            false,
            NOW,
        );
        assert!(matches!(step, PollStep::CancelPanel));
    }
}

#[test]
fn cancellation_overrides_cleanup_destination_without_resetting_deadline() {
    let mut runtime = menu_state("cleanup-priority");
    let flow = flow(&mut runtime);
    flow.stop(Stage::Failed, NOW);
    let deadline = flow.operation_deadline;
    flow.stop(Stage::Cancelling, NOW + 1_000);
    assert_eq!(flow.stop_stage, Stage::Cancelling);
    assert_eq!(flow.operation_deadline, deadline);
    flow.stop(Stage::TimedOut, NOW + 2_000);
    assert_eq!(flow.stop_stage, Stage::Cancelling);
    assert_eq!(flow.operation_deadline, deadline);
}

#[test]
fn timeout_cleanup_then_cancel_or_exit_never_returns_to_auth() {
    for menu in [true, false] {
        for shell_exited in [false, true] {
            let mut runtime = if menu {
                menu_state("timeout-cancel")
            } else {
                state("timeout-cancel")
            };
            attach_probe(&mut runtime, true);
            assert!(flow(&mut runtime).stop(Stage::Failed, NOW));
            if !shell_exited {
                cancel(&mut runtime, NOW);
            }
            let (_, step) = poll(
                &mut runtime,
                probed(r#"{"mode": "manual"}"#),
                shell_exited,
                false,
                NOW,
            );
            assert!(
                matches!(step, PollStep::CancelPanel),
                "cancel/exit must override the pending timeout result"
            );
            assert!(runtime.ecs.is_none());
        }
    }
}

#[test]
fn orphaned_idle_flow_is_removed_without_an_auth_panel() {
    let mut runtime = state("old");
    runtime.state = None;
    poll(&mut runtime, None, false, false, NOW);
    assert!(runtime.ecs.is_none());
}

#[test]
fn stale_flow_cleanup_does_not_cancel_a_new_auth_owner() {
    let old = state("old");
    let mut current = state("new");
    current.ecs = old.ecs;
    poll(&mut current, None, false, false, NOW);
    assert_eq!(
        current.state.as_ref().map(|auth| auth.id.as_str()),
        Some("new")
    );
    assert!(!current.completed_ids.contains("new"));
}

#[test]
fn orphaned_probes_are_cancelled_and_reported_when_overdue() {
    let mut runtime = state("old");
    attach_probe(&mut runtime, false);
    runtime.state = None;
    assert!(poll(&mut runtime, None, false, false, NOW).0);
    assert_eq!(stage(&runtime), Stage::Cancelling);
    assert!(!poll(&mut runtime, None, false, false, NOW + OPERATION_LIMIT).0);
    assert!(runtime.ecs.as_ref().unwrap().cleanup_reported);
    poll(&mut runtime, probed("null"), false, false, NOW);
    assert!(runtime.ecs.is_none());
}

#[test]
fn waiting_panel_is_redrawn_when_recorded_width_changes() {
    let mut runtime = state("resize");
    flow(&mut runtime).stage = Stage::Waiting;
    flow(&mut runtime).next_check = NOW + 60_000;
    let (_, step) = poll(&mut runtime, None, false, true, NOW);
    assert!(matches!(step, PollStep::Redraw));
    assert!(question(&runtime, Language::EnUs)
        .0
        .contains("Waiting for ECS RAM Role"));
    let (_, step) = poll(&mut runtime, None, false, false, NOW);
    assert!(
        matches!(step, PollStep::Idle),
        "unchanged width must not repaint the QR panel"
    );
}

#[test]
fn reconfirmed_identity_leaves_the_ecs_field_error_stage() {
    let mut runtime = state("identity-retry");
    flow(&mut runtime).stage = Stage::Editing;
    flow(&mut runtime).error = Some("invalid provider name".into());
    poll_without_core(&mut runtime, None);
    assert_ne!(
        stage(&runtime),
        Stage::Editing,
        "returning to the ECS phase must restart verification"
    );
}

#[test]
fn confirmed_save_resolves_an_earlier_unknown_outcome() {
    let mut runtime = state("late-save");
    attach_save(&mut runtime, Stage::Unknown);
    let step = poll_without_core(&mut runtime, Some(Finished::Saved(Ok(()))));
    assert!(matches!(step, PollStep::Configured(label) if label == "Aliyun"));
    assert!(
        runtime.state.is_none(),
        "an authoritative save reply must resolve uncertainty"
    );
    assert!(runtime.completed_ids.contains("late-save"));
}

#[test]
fn completed_save_is_consumed_before_the_observer_timeout() {
    let mut runtime = state("save");
    attach_save(&mut runtime, Stage::Submitting);
    flow(&mut runtime).operation_deadline = Some(NOW - 1);
    poll_without_core(&mut runtime, Some(Finished::Saved(Ok(()))));
    assert!(runtime.state.is_none());
    assert!(runtime.completed_ids.contains("save"));
}

#[test]
fn overdue_saves_become_unknown_and_stay_owned() {
    let mut runtime = state("overdue");
    attach_save(&mut runtime, Stage::Submitting);
    flow(&mut runtime).operation_deadline = Some(NOW);
    assert!(matches!(
        poll_without_core(&mut runtime, None),
        PollStep::Redraw
    ));
    assert_eq!(stage(&runtime), Stage::Unknown);
    assert_eq!(
        runtime.ecs.as_ref().unwrap().operation,
        Some(Operation::Configure)
    );
    assert_eq!(option_count(&runtime), 0);
    assert_eq!(cancel(&mut runtime, NOW), (true, false));
}

#[test]
fn shell_exit_consumes_successful_configuration_without_cancelling() {
    for stage in [Stage::Submitting, Stage::Unknown] {
        let mut runtime = state("closed-save");
        attach_save(&mut runtime, stage);
        let (_, step) = poll(
            &mut runtime,
            Some(Finished::Saved(Ok(()))),
            true,
            false,
            NOW,
        );
        assert!(matches!(step, PollStep::Configured(_)));
        assert!(runtime.state.is_none());
        assert!(runtime.completed_ids.contains("closed-save"));
    }
}

#[test]
fn shell_exit_keeps_pending_configuration_owned_until_completion() {
    let mut runtime = state("pending-save");
    attach_save(&mut runtime, Stage::Submitting);
    flow(&mut runtime).operation_deadline = Some(NOW + 12_000);
    let (cancelled, step) = poll(&mut runtime, None, true, false, NOW);
    assert!(!cancelled);
    assert!(matches!(step, PollStep::Idle));
    assert_eq!(
        runtime.ecs.as_ref().unwrap().operation,
        Some(Operation::Configure)
    );
    assert_eq!(stage(&runtime), Stage::Submitting);
    let (_, step) = poll(
        &mut runtime,
        Some(Finished::Saved(Ok(()))),
        true,
        false,
        NOW,
    );
    assert!(matches!(step, PollStep::Configured(_)));
    assert!(runtime.ecs.is_none());
}

#[test]
fn shell_exit_preserves_unknown_save_result_without_scheduling() {
    let mut runtime = state("unknown-save");
    attach_save(&mut runtime, Stage::Submitting);
    let (_, step) = poll(
        &mut runtime,
        failure("Save result is unknown", None, None),
        true,
        false,
        NOW,
    );
    assert!(matches!(step, PollStep::Redraw));
    let (_, step) = poll(&mut runtime, None, true, false, NOW);
    assert!(matches!(step, PollStep::Idle));
    assert_eq!(stage(&runtime), Stage::Unknown);
    assert!(runtime.ecs.as_ref().unwrap().operation.is_none());
}

#[test]
fn expired_deadlines_discard_completed_ready_without_configuration() {
    for start in [Stage::Checking, Stage::Waiting] {
        for (total_expired, operation_expired, expected) in [
            (true, false, Stage::TimedOut),
            (false, true, Stage::Failed),
            (true, true, Stage::TimedOut),
        ] {
            let mut runtime = state("expired-ready");
            flow(&mut runtime).stage = start;
            attach_probe(&mut runtime, false);
            flow(&mut runtime).deadline = Some(if total_expired {
                NOW - 1
            } else {
                NOW + WAIT_LIMIT
            });
            flow(&mut runtime).operation_deadline = Some(if operation_expired {
                NOW - 1
            } else {
                NOW + OPERATION_LIMIT
            });
            let (_, step) = poll(
                &mut runtime,
                probed(r#"{"status": "ready"}"#),
                false,
                false,
                NOW,
            );
            assert!(matches!(step, PollStep::Redraw));
            assert_eq!(stage(&runtime), expected);
            assert!(
                runtime.ecs.as_ref().unwrap().operation.is_none(),
                "expired Ready must be consumed, not saved"
            );
            let (_, step) = poll(&mut runtime, None, false, false, NOW);
            assert!(matches!(step, PollStep::Idle));
            assert_eq!(stage(&runtime), expected);
            assert!(runtime.ecs.as_ref().unwrap().operation.is_none());
            assert!(runtime.state.is_some());
            assert!(!runtime.completed_ids.contains("expired-ready"));
        }
    }
}

#[test]
fn cancellation_wins_over_ready_already_completed_in_the_same_poll() {
    let mut runtime = state("cancel-ready");
    attach_probe(&mut runtime, false);
    assert!(close_panel(&mut runtime));
    assert_eq!(stage(&runtime), Stage::Cancelling);
    let (_, step) = poll(
        &mut runtime,
        probed(r#"{"status": "ready"}"#),
        false,
        false,
        NOW,
    );
    assert!(matches!(step, PollStep::CancelPanel));
    assert!(!close_panel(&mut runtime));
    assert!(runtime.ecs.is_none());
    assert!(runtime.state.is_none());
    assert!(runtime.completed_ids.contains("cancel-ready"));
}

#[test]
fn unavailable_configure_preserves_identity_and_deadline_and_reprobes_fast_and_waiting() {
    for waited in [false, true] {
        let mut runtime = state("unavailable-reprobe");
        let auth = runtime.state.as_mut().unwrap();
        auth.request_id = "original-request".into();
        auth.collected_values.insert("provider_id", "ecs-custom");
        auth.editing_provider_name = if waited {
            Some("ecs-existing".into())
        } else {
            None
        };
        let original_deadline = Some(NOW + 60_000);
        flow(&mut runtime).deadline = original_deadline;
        if waited {
            attach_probe(&mut runtime, false);
            poll_without_core(
                &mut runtime,
                probed(r#"{"status": "not_ready", "reason": "role_missing"}"#),
            );
            assert_eq!(stage(&runtime), Stage::Waiting);
        } else {
            assert_eq!(stage(&runtime), Stage::Checking);
        }
        let response = start_configuration(&mut runtime, false, NOW).expect("response");
        assert_eq!(response.request_id, "original-request");
        assert_eq!(response.provider_type.as_deref(), Some("aliyun"));
        assert_eq!(
            response.provider_id,
            if waited { "ecs-existing" } else { "ecs-custom" }
        );
        assert_eq!(
            response.values.get("auth_source").map(String::as_str),
            Some("ecs_ram_role")
        );
        assert_eq!(response.values.len(), 2);
        assert!(response.persist);
        configuration_attempted(&mut runtime, true, NOW);
        assert_eq!(stage(&runtime), Stage::Submitting);
        assert_eq!(
            runtime.ecs.as_ref().unwrap().operation_deadline,
            Some(NOW + CONFIGURE_LIMIT)
        );
        assert!(start_configuration(&mut runtime, false, NOW).is_none());
        poll_without_core(
            &mut runtime,
            failure("unavailable", Some("credential_source_unavailable"), None),
        );
        assert_eq!(stage(&runtime), Stage::Checking);
        assert_eq!(runtime.ecs.as_ref().unwrap().deadline, original_deadline);
        assert_eq!(runtime.ecs.as_ref().unwrap().next_check, NOW + INTERVAL);
        assert!(!question(&runtime, Language::EnUs).2);
        assert!(matches!(
            poll(&mut runtime, None, false, false, NOW + 1).1,
            PollStep::Idle
        ));
        let (_, step) = poll(&mut runtime, None, false, false, NOW + INTERVAL);
        let PollStep::StartProbe(check) = step else {
            panic!("the check is due");
        };
        assert!(!check.prepare);
        probe_attempted(&mut runtime, check, true);
        assert_eq!(
            runtime.ecs.as_ref().unwrap().operation,
            Some(Operation::Probe(false))
        );
        poll(
            &mut runtime,
            probed(r#"{"status": "not_ready", "reason": "role_missing"}"#),
            false,
            false,
            NOW + INTERVAL,
        );
        assert_eq!(stage(&runtime), Stage::Waiting);
        assert_eq!(runtime.ecs.as_ref().unwrap().deadline, original_deadline);
        let auth = runtime.state.as_ref().unwrap();
        assert_eq!(auth.request_id, "original-request");
        assert_eq!(value(auth, "provider_id"), Some("ecs-custom"));
        assert!(matches!(auth.phase, AuthPhase::AliyunEcsChallenge(_)));
        assert!(!runtime.completed_ids.contains("unavailable-reprobe"));
    }
}

#[test]
fn rejected_and_transport_failed_saves_never_report_success_or_resubmit() {
    for (code, expected_stage, expected_message) in [
        (
            Some("persistence_failed"),
            Stage::Failed,
            "fixture save rejected",
        ),
        (None, Stage::Unknown, "no response received (EOF)"),
    ] {
        let mut runtime = state("failed-save");
        start_configuration(&mut runtime, false, NOW).expect("response");
        configuration_attempted(&mut runtime, true, NOW);
        poll_without_core(&mut runtime, failure(expected_message, code, None));
        for overdue in [INTERVAL, INTERVAL * 2] {
            let flow = flow(&mut runtime);
            assert_eq!(flow.stage, expected_stage);
            assert_eq!(flow.error.as_deref(), Some(expected_message));
            assert!(flow.operation.is_none());
            flow.next_check = NOW - overdue;
            flow.deadline = Some(NOW - overdue);
            flow.operation_deadline = Some(NOW - overdue);
            let (_, step) = poll(&mut runtime, None, false, false, NOW);
            assert!(
                matches!(step, PollStep::Idle),
                "terminal save must not start any worker"
            );
            assert_eq!(stage(&runtime), expected_stage);
        }
        assert_eq!(runtime.state.as_ref().unwrap().id, "failed-save");
        assert!(!runtime.completed_ids.contains("failed-save"));
        if expected_stage == Stage::Unknown {
            assert_eq!(
                question(&runtime, Language::EnUs).1,
                vec!["Return to provider management"]
            );
            assert_eq!(answer(&mut runtime, NOW), AnswerStep::ReturnToManagement);
            assert!(runtime.state.is_none() && runtime.ecs.is_none());
        }
    }
}

#[test]
fn cancelled_and_reaped_probe_stays_idle_despite_overdue_checks() {
    let mut runtime = state("cancel-running");
    attach_probe(&mut runtime, false);
    flow(&mut runtime).next_check = NOW - INTERVAL * 2;
    flow(&mut runtime).deadline = Some(NOW - INTERVAL * 2);
    assert!(close_panel(&mut runtime));
    assert_eq!(stage(&runtime), Stage::Cancelling);
    let (again, step) = poll(&mut runtime, None, false, false, NOW);
    assert!(!again);
    assert!(matches!(step, PollStep::Idle));
    let (_, step) = poll(
        &mut runtime,
        Some(Finished::Probe(Err("cancelled".to_string()))),
        false,
        false,
        NOW,
    );
    assert!(matches!(step, PollStep::CancelPanel));
    assert!(!close_panel(&mut runtime));
    assert!(runtime.completed_ids.contains("cancel-running"));
    for _ in 0..2 {
        assert!(matches!(
            poll(&mut runtime, None, false, false, NOW + WAIT_LIMIT).1,
            PollStep::Idle
        ));
        assert!(runtime.ecs.is_none() && runtime.state.is_none());
    }
}

#[test]
fn ecs_refresh_message_is_appended_and_bilingual() {
    let id = MessageId::AuthEcsRefreshing;
    assert_eq!(id as usize, MessageId::AuthEcsCancelHint as usize + 1);
    assert_eq!(
        I18n::new(Language::EnUs).t(id),
        "Waiting for ECS credentials to refresh. Configuration will continue automatically."
    );
    assert_eq!(
        I18n::new(Language::ZhCn).t(id),
        "正在等待 ECS 凭据刷新，刷新后将自动继续配置。"
    );
}

#[test]
fn expired_credentials_wait_for_refresh_without_authorization_qr() {
    let mut runtime = state("expired");
    attach_probe(&mut runtime, false);
    poll_without_core(
        &mut runtime,
        probed(r#"{"status": "not_ready", "reason": "credentials_expired"}"#),
    );
    let (text, options, qr) = question(&runtime, Language::EnUs);
    assert!(
        !qr,
        "expired credentials must not ask for RAM Role authorization"
    );
    assert!(options.is_empty());
    assert!(
        text.contains("Waiting for ECS credentials to refresh"),
        "{text}"
    );
    assert!(question(&runtime, Language::ZhCn)
        .0
        .contains("等待 ECS 凭据刷新"));
    let next_check = runtime.ecs.as_ref().unwrap().next_check;
    assert!(next_check > NOW);
    assert!(next_check <= NOW + INTERVAL);
}

#[test]
fn missing_role_keeps_authorization_wait_and_qr() {
    let mut runtime = state("missing-role");
    attach_probe(&mut runtime, false);
    poll_without_core(
        &mut runtime,
        probed(r#"{"status": "not_ready", "reason": "role_missing"}"#),
    );
    assert_eq!(stage(&runtime), Stage::Waiting);
    assert!(question(&runtime, Language::EnUs).2);
}

#[test]
fn unavailable_configure_rechecks_before_claiming_authorization_is_missing() {
    let mut runtime = state("unavailable");
    attach_save(&mut runtime, Stage::Submitting);
    flow(&mut runtime).next_check = NOW + INTERVAL;
    poll_without_core(
        &mut runtime,
        failure(
            "ECS credentials unavailable",
            Some("credential_source_unavailable"),
            None,
        ),
    );
    assert_eq!(stage(&runtime), Stage::Checking);
    assert!(!question(&runtime, Language::EnUs).2);
}

#[test]
fn shell_exit_discards_ready_probe_without_starting_configuration() {
    let mut runtime = state("closed-probe");
    attach_probe(&mut runtime, false);
    let (_, step) = poll(
        &mut runtime,
        probed(r#"{"status": "ready"}"#),
        true,
        false,
        NOW,
    );
    assert!(matches!(step, PollStep::CancelPanel));
    assert!(!close_panel(&mut runtime));
    assert!(runtime.state.is_none());
}

#[test]
fn active_run_ready_clears_auth_panel_before_sending_response() {
    for start in [Stage::Checking, Stage::Waiting] {
        let mut runtime = state("active-ready");
        runtime.state.as_mut().unwrap().backend = AuthBackend::ActiveRun;
        flow(&mut runtime).stage = start;
        attach_probe(&mut runtime, false);
        let (_, step) = poll(
            &mut runtime,
            probed(r#"{"status": "ready"}"#),
            false,
            false,
            NOW,
        );
        assert!(matches!(step, PollStep::SendResponse));
        assert!(runtime.ecs.is_none());
        assert!(runtime.state.is_some());
    }
}

#[test]
fn ready_roles_of_the_registry_are_saved() {
    let mut runtime = state("registry-ready");
    attach_probe(&mut runtime, false);
    let (_, step) = poll(
        &mut runtime,
        probed(r#"{"status": "ready"}"#),
        false,
        false,
        NOW,
    );
    assert!(matches!(step, PollStep::StartConfiguration));
    start_configuration(&mut runtime, false, NOW).expect("response");
    configuration_attempted(&mut runtime, false, NOW);
    assert_eq!(stage(&runtime), Stage::Failed);
    assert_eq!(
        runtime.ecs.as_ref().unwrap().error.as_deref(),
        Some("Unable to start configuration worker")
    );
}

#[test]
fn changing_wait_reason_repaints_the_existing_panel() {
    for (reason, refreshing, message) in [
        (
            "credentials_expired",
            true,
            "Waiting for ECS credentials to refresh",
        ),
        (
            "role_missing",
            false,
            "Waiting for ECS RAM Role authorization",
        ),
    ] {
        let mut runtime = state("changed-reason");
        flow(&mut runtime).stage = Stage::Waiting;
        flow(&mut runtime).waiting_for_refresh = !refreshing;
        attach_probe(&mut runtime, false);
        let step = poll_without_core(
            &mut runtime,
            probed(&format!(
                r#"{{"status": "not_ready", "reason": "{reason}"}}"#
            )),
        );
        assert!(
            matches!(step, PollStep::Redraw),
            "reason changes must repaint"
        );
        assert!(question(&runtime, Language::EnUs).0.contains(message));
        assert_eq!(question(&runtime, Language::EnUs).2, !refreshing);
    }
}

#[test]
fn refresh_wait_uses_the_same_schedule_and_deadline_without_authorization_claims() {
    let mut runtime = state("refresh-schedule");
    let original_deadline = runtime.ecs.as_ref().unwrap().deadline;
    assert_eq!(original_deadline, Some(NOW + WAIT_LIMIT));
    attach_probe(&mut runtime, false);
    let expired = r#"{"status": "not_ready", "reason": "credentials_expired"}"#;
    poll_without_core(&mut runtime, probed(expired));
    assert_eq!(runtime.ecs.as_ref().unwrap().deadline, original_deadline);
    assert!(matches!(
        poll(&mut runtime, None, false, false, NOW).1,
        PollStep::Idle
    ));
    assert!(runtime.ecs.as_ref().unwrap().operation.is_none());
    flow(&mut runtime).next_check = NOW;
    let (_, step) = poll(&mut runtime, None, false, false, NOW);
    let PollStep::StartProbe(check) = step else {
        panic!("the check is due");
    };
    probe_attempted(&mut runtime, check, true);
    flow(&mut runtime).deadline = Some(NOW);
    poll(&mut runtime, None, false, false, NOW);
    assert_eq!(stage(&runtime), Stage::Cancelling);
    poll(&mut runtime, probed(expired), false, false, NOW);
    assert_eq!(stage(&runtime), Stage::TimedOut);
    assert!(runtime.ecs.as_ref().unwrap().operation.is_none());
    assert!(!question(&runtime, Language::EnUs).2);
    assert!(!question(&runtime, Language::EnUs)
        .0
        .contains("authorization"));
    assert!(!question(&runtime, Language::ZhCn).0.contains("授权"));
    assert_eq!(option_count(&runtime), 1);
    assert_eq!(answer(&mut runtime, NOW + 7), AnswerStep::Redraw);
    assert_eq!(stage(&runtime), Stage::Checking);
    assert_eq!(
        runtime.ecs.as_ref().unwrap().deadline,
        Some(NOW + 7 + WAIT_LIMIT)
    );
}

#[test]
fn shell_exit_does_not_schedule_new_prepare_verify_or_configure() {
    for start in [Stage::Preparing, Stage::Checking, Stage::Waiting] {
        let mut runtime = state("closed-idle");
        flow(&mut runtime).stage = start;
        assert!(start_configuration(&mut runtime, true, NOW).is_none());
        assert!(runtime.ecs.as_ref().unwrap().operation.is_none());
        let (_, step) = poll(&mut runtime, None, true, false, NOW);
        assert!(matches!(step, PollStep::CancelPanel));
        assert!(runtime.ecs.is_none());
    }
}

#[test]
fn shell_exit_cancels_and_reaps_an_inflight_probe() {
    let mut runtime = state("closed-running-probe");
    attach_probe(&mut runtime, false);
    let (cancelled, _) = poll(&mut runtime, None, true, false, NOW);
    assert!(cancelled);
    let (_, step) = poll(
        &mut runtime,
        Some(Finished::Probe(Err("cancelled".to_string()))),
        true,
        false,
        NOW,
    );
    assert!(matches!(step, PollStep::CancelPanel));
    assert!(shutdown(&mut {
        let mut other = state("dropped");
        attach_probe(&mut other, true);
        other
    }));
    assert!(!shutdown(&mut state("idle")));
}

#[test]
fn prepare_results_lead_to_a_challenge_or_to_manual_fields() {
    let mut runtime = state("prepare");
    let auth = runtime.state.as_mut().unwrap();
    auth.phase = AuthPhase::AliyunEcsPreparing;
    auth.collected_values.insert("access_key_id", "typed");
    assert!(handles(auth));
    runtime.ecs = None;
    let (_, step) = poll(&mut runtime, None, false, false, NOW);
    let PollStep::StartProbe(check) = step else {
        panic!("prepare is due");
    };
    assert!(check.prepare);
    probe_attempted(&mut runtime, check, true);
    let mut manual = runtime.clone();
    let mut broken = runtime.clone();

    let (_, step) = poll(
        &mut runtime,
        probed(r#"{"mode":"ecs_ram_role","instance_id":"i-1","console_url":"u"}"#),
        false,
        false,
        NOW + 1,
    );
    assert!(matches!(step, PollStep::StartProbe(check) if !check.prepare));
    let auth = runtime.state.as_ref().unwrap();
    assert!(
        matches!(&auth.phase, AuthPhase::AliyunEcsChallenge(p) if p.instance_id == "i-1" && p.console_url == "u")
    );
    assert_eq!(value(auth, "access_key_id"), None);
    assert_eq!(
        runtime.ecs.as_ref().unwrap().deadline,
        Some(NOW + 1 + WAIT_LIMIT)
    );

    manual.state.as_mut().unwrap().providers[0].fields = vec![
        field("provider_id", "Provider ID", false),
        field("access_key_id", "AK", false),
    ];
    manual.state.as_mut().unwrap().default_provider_id = false;
    let (_, step) = poll(
        &mut manual,
        probed(r#"{"mode":"manual"}"#),
        false,
        false,
        NOW,
    );
    assert!(matches!(step, PollStep::Redraw));
    let auth = manual.state.as_ref().unwrap();
    assert!(matches!(auth.phase, AuthPhase::FillingField));
    assert_eq!(current(auth), "access_key_id");
    assert_eq!(auth.field_input, "typed");
    assert_eq!(value(auth, "auth_source"), None);
    assert!(manual.ecs.is_none());

    poll_without_core(&mut broken, probed(r#"{"mode":"ecs_ram_role"}"#));
    assert_eq!(stage(&broken), Stage::Failed);
}

#[test]
fn rejected_fields_are_opened_for_editing() {
    let mut runtime = state("rejected");
    runtime.state.as_mut().unwrap().providers[0].fields = vec![
        field("provider_id", "Provider ID", false),
        field("api_key", "Key", true),
    ];
    attach_save(&mut runtime, Stage::Submitting);
    let mut secret = runtime.clone();
    poll_without_core(
        &mut runtime,
        failure("name taken", Some("conflict"), Some("provider_id")),
    );
    assert_eq!(stage(&runtime), Stage::Editing);
    let auth = runtime.state.as_ref().unwrap();
    assert!(!auth.default_provider_id);
    assert_eq!(current(auth), "provider_id");
    assert_eq!(auth.field_input, "aliyun");
    assert_eq!(auth.field_error.as_deref(), Some("name taken"));
    poll_without_core(
        &mut secret,
        failure("bad key", Some("conflict"), Some("api_key")),
    );
    assert_eq!(stage(&secret), Stage::Failed);
}

#[test]
fn panels_follow_the_stage() {
    let mut runtime = state("panel");
    flow(&mut runtime).stage = Stage::Submitting;
    let (text, _, qr) = question(&runtime, Language::EnUs);
    assert!(!qr && !text.contains('\n'));
    flow(&mut runtime).stage = Stage::Failed;
    flow(&mut runtime).error = Some("why".to_string());
    let (text, options, _) = question(&runtime, Language::EnUs);
    assert_eq!(text.lines().nth(1), Some("why"));
    assert_eq!(options.len(), 1);
    flow(&mut runtime).stage = Stage::TimedOut;
    assert!(question(&runtime, Language::EnUs).2);
    let before = runtime.state.as_ref().unwrap().field_capture_revision;
    redraw(&mut runtime);
    assert_eq!(
        runtime.state.as_ref().unwrap().field_capture_revision,
        before + 1
    );
    set_challenge(runtime.state.as_mut().unwrap(), ecs_prepare());
}
