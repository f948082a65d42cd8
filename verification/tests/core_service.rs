use cosh::core_service::course::{Action, Course, Event, LineMeaning, Step};
use cosh::core_service::event::{any_cancellation, drop_completion, AgentEvent};
use cosh::core_service::service::{
    cancel_run, end_query, end_run, live_registry_query, note_external_mutation, on_command,
    process_reset, process_started, run_not_delivered, start_run, stop_process, take_reload,
    Admission, ChildStatus, ServiceCommand, ServiceFlags, ServiceStep, StopStep, TurnFollowUp,
};
use cosh::core_service::turn::{
    bind_session, commit_plan, finish_turn, must_replace, new_turn, note_resumable, on_event,
    on_grace, on_signal, on_writer_failure, open_turn, process_error, settle, spawned_process,
    ApprovalMode, Capabilities, GraceSignal, GraceStep, ProcessState, Signal, SignalStep,
    TurnRequest,
};
use cosh::core_service::wire::{
    append_bounded, control_request, execute_registry, interrupt_request,
    is_registry_response_for, log_registry_transport_failure, on_registry_signal, registry_reply,
    registry_request, reload_command, reload_outcome, shutdown_request, stream_end,
    user_message_with_raw_input, write_failure, QueryStep, RegistryCommand, RegistryQueryError,
    RegistrySignal, STDERR_TAIL_MAX_BYTES,
};
use cosh::core_service::writer::{
    ApprovalDecision, ApprovalResponse, Surroundings, Writer, WriterAction, WriterInput,
};
use serde_json::Value;

fn json(text: &str) -> Value {
    serde_json::from_str(text).expect("json")
}

#[test]
fn registry_response_requires_discriminator_and_correlation_id() {
    let response = json(r#"{"type": "registry_response", "request_id": "reg-1", "success": true}"#);
    assert!(is_registry_response_for(&response, "reg-1"));

    let future_output = json(r#"{"type": "future_output", "request_id": "reg-1"}"#);
    assert!(!is_registry_response_for(&future_output, "reg-1"));

    let other_request = json(r#"{"type": "registry_response", "request_id": "reg-2"}"#);
    assert!(!is_registry_response_for(&other_request, "reg-1"));
}

#[test]
fn user_message_omits_raw_input_for_legacy_payloads() {
    let with_raw = user_message_with_raw_input("envelope", Some("raw"), Some("session-1"), "/tmp");
    let value = json(&with_raw);
    assert_eq!(value["message"]["content"], "envelope");
    assert_eq!(value["message"]["raw_user_input"], "raw");
    assert_eq!(value["session_id"], "session-1");

    let without_raw = user_message_with_raw_input("legacy", None, None, "/tmp");
    let value = json(&without_raw);
    assert!(value["message"].get("raw_user_input").is_none());
    assert_eq!(value["session_id"], "default");
    assert_eq!(
        value["shell_context"],
        json(r#"{"cwd":"/tmp","env":{},"last_exit_code":0}"#)
    );
    assert!(value["parent_tool_use_id"].is_null());
}

#[test]
fn registry_transport_failure_is_told_from_a_refusal() {
    for error_text in [
        "live registry query timed out",
        "cosh-core output stream disconnected",
    ] {
        let result = Err(RegistryQueryError::Transport(error_text.to_string()));
        assert!(log_registry_transport_failure(&result));
    }
    let refused = Err(RegistryQueryError::Response("no".to_string(), None));
    assert!(!log_registry_transport_failure(&refused));
    assert!(!log_registry_transport_failure(&Ok(Value::Null)));
}

#[test]
fn control_requests_carry_their_fields() {
    assert_eq!(
        json(&control_request("x", "id", &json(r#"{"a":1,"subtype":"y"}"#))),
        json(
            r#"{"type":"control_request","request_id":"id","request":{"subtype":"y","a":1}}"#
        )
    );
    assert_eq!(
        json(&interrupt_request()),
        json(
            r#"{"type":"control_request","request_id":"interrupt-1","request":{"subtype":"interrupt"}}"#
        )
    );
    assert_eq!(
        json(&shutdown_request()),
        json(
            r#"{"type":"control_request","request_id":"shutdown-1","request":{"subtype":"shutdown"}}"#
        )
    );
    let command = RegistryCommand {
        request_id: "r".to_string(),
        domain: "d".to_string(),
        action: "a".to_string(),
        params: json(r#"[1,"two"]"#),
    };
    assert_eq!(
        json(&registry_request(&command)),
        json(
            r#"{"type":"registry_request","request_id":"r","domain":"d","action":"a","params":[1,"two"]}"#
        )
    );
}

#[test]
fn registry_answers_are_read_to_the_matching_line() {
    let line = |text: &str| RegistrySignal::Line(text.to_string());
    assert!(on_registry_signal(line("noise"), "r").is_none());
    assert!(on_registry_signal(
        line(r#"{"type":"registry_response","request_id":"other","success":true}"#),
        "r"
    )
    .is_none());
    let data = on_registry_signal(
        line(" {\"type\":\"registry_response\",\"request_id\":\"r\",\"success\":true,\"data\":[1]}\n"),
        "r",
    );
    assert!(matches!(data, Some(Ok(value)) if value == json("[1]")));
    assert!(matches!(
        registry_reply(&json(r#"{"success":true}"#)),
        Ok(Value::Null)
    ));
    assert!(matches!(
        registry_reply(&json(r#"{"success":false,"error":"e","data":{"error_code":"c"}}"#)),
        Err(RegistryQueryError::Response(message, Some(code))) if message == "e" && code == "c"
    ));
    assert!(matches!(
        registry_reply(&json("{}")),
        Err(RegistryQueryError::Response(message, None)) if message == "unknown live registry error"
    ));
    for (signal, expected) in [
        (RegistrySignal::Timeout, "live registry query timed out"),
        (
            RegistrySignal::Disconnected,
            "cosh-core output stream disconnected",
        ),
        (RegistrySignal::StreamError("eof".to_string()), "eof"),
    ] {
        match on_registry_signal(signal, "r") {
            Some(Err(error)) => assert_eq!(error.into_message(), expected),
            _ => panic!("transport failure"),
        }
    }
}

#[test]
fn registry_commands_wait_until_their_deadline() {
    let command = reload_command(3);
    let foreign = || RegistrySignal::Line("noise".to_string());
    let (wait, step) = execute_registry(&command, Ok(()), 100, 50);
    assert!(matches!(step, QueryStep::Wait(50)));
    assert!(matches!(wait.on_signal(foreign(), 120), QueryStep::Wait(30)));
    match wait.on_signal(foreign(), 150) {
        QueryStep::Finish(Err(error)) => {
            assert_eq!(error.into_message(), "live registry query timed out")
        }
        _ => panic!("the deadline has passed"),
    }
    let reply = RegistrySignal::Line(
        r#"{"type":"registry_response","request_id":"deferred-reload-3","success":true,"data":4}"#
            .to_string(),
    );
    assert!(matches!(
        wait.on_signal(reply, 160),
        QueryStep::Finish(Ok(value)) if value == json("4")
    ));
    let (_, step) = execute_registry(&command, Err("pipe".to_string()), 100, 50);
    assert!(matches!(
        step,
        QueryStep::Finish(Err(RegistryQueryError::Transport(error))) if error == "pipe"
    ));
    let (_, step) = execute_registry(&command, Ok(()), 100, 0);
    assert!(matches!(step, QueryStep::Finish(Err(_))));
}

#[test]
fn deferred_reloads_are_replayed() {
    let command = reload_command(12);
    assert_eq!(command.request_id, "deferred-reload-12");
    assert_eq!(command.domain, "extensions");
    assert_eq!(command.action, "reload");
    assert!(command.params.is_null());
    assert!(matches!(reload_outcome("run-1", Ok(Value::Null)), (None, None)));
    assert!(matches!(
        reload_outcome("run-1", Err(RegistryQueryError::Response("bad".to_string(), None))),
        (Some(AgentEvent::StatusChanged(run, phase, message)), None)
            if run == "run-1" && phase == "extension_reload_failed" && message == "bad"
    ));
    assert!(matches!(
        reload_outcome("run-1", Err(RegistryQueryError::Transport("gone".to_string()))),
        (Some(_), Some(RegistryQueryError::Transport(_)))
    ));
}

#[test]
fn error_output_keeps_its_tail() {
    let mut tail = vec![b'a'; STDERR_TAIL_MAX_BYTES - 1];
    append_bounded(&mut tail, b"bcd");
    assert_eq!(tail.len(), STDERR_TAIL_MAX_BYTES);
    assert!(tail.ends_with(b"abcd"));
    let mut at_once = vec![b'a'; STDERR_TAIL_MAX_BYTES - 1];
    append_bounded(&mut at_once, b"b");
    append_bounded(&mut at_once, b"cd");
    assert_eq!(at_once, tail);
    assert_eq!(process_error("m", " \n"), "m");
    assert_eq!(process_error("m", " why\n"), "m\nstderr tail:\nwhy");
    assert_eq!(stream_end(None), "cosh-core output reached EOF");
    assert_eq!(
        stream_end(Some("x")),
        "failed to read cosh-core stream: x"
    );
    assert_eq!(
        write_failure("x"),
        "failed to write cosh-core request: x"
    );
}

#[test]
fn one_request_is_served_at_a_time() {
    let mut flags = ServiceFlags::default();
    assert_eq!(start_run(&mut flags), Admission::Started);
    assert_eq!(start_run(&mut flags), Admission::Rejected);
    cancel_run(&mut flags);
    assert_eq!(start_run(&mut flags), Admission::Queued);
    assert_eq!(start_run(&mut flags), Admission::Rejected);
    assert!(matches!(
        end_run(&mut flags, Ok(false)),
        TurnFollowUp::Keep
    ));
    assert!(!flags.busy && !flags.cancel_pending);
    assert_eq!(live_registry_query(&mut flags, 1, 2), None);
    process_started(&mut flags);
    assert_eq!(
        live_registry_query(&mut flags, 1, 2).as_deref(),
        Some("live-reg-1-2")
    );
    assert_eq!(live_registry_query(&mut flags, 1, 3), None);
    end_query(&mut flags, true);
    assert!(!flags.live && !flags.busy);
    process_started(&mut flags);
    assert!(matches!(
        end_run(&mut flags, Err("broken".to_string())),
        TurnFollowUp::Report(error) if error == "broken"
    ));
    assert!(!flags.live);
    process_started(&mut flags);
    assert!(matches!(end_run(&mut flags, Ok(true)), TurnFollowUp::Reset));
    start_run(&mut flags);
    run_not_delivered(&mut flags);
    assert!(!flags.busy);
}

#[test]
fn commands_are_taken_up_one_by_one() {
    let mut flags = ServiceFlags::default();
    process_started(&mut flags);
    assert!(matches!(
        on_command(&mut flags, ServiceCommand::Run, false),
        ServiceStep::RunTurn
    ));
    assert!(flags.busy && flags.live);
    assert!(matches!(
        on_command(&mut flags, ServiceCommand::Registry, true),
        ServiceStep::Query
    ));
    assert!(matches!(
        on_command(&mut flags, ServiceCommand::Registry, false),
        ServiceStep::Refuse(error)
            if error.clone().into_message() == "live cosh-core process is unavailable"
    ));
    assert!(flags.live);
    assert!(matches!(
        on_command(&mut flags, ServiceCommand::Shutdown, true),
        ServiceStep::StopProcess
    ));
    assert!(!flags.live);
    assert!(matches!(
        on_command(&mut flags, ServiceCommand::Shutdown, false),
        ServiceStep::Leave
    ));
}

#[test]
fn reloads_wait_for_a_live_process() {
    let mut flags = ServiceFlags::default();
    note_external_mutation(&mut flags, true);
    assert!(!take_reload(&mut flags));
    process_started(&mut flags);
    note_external_mutation(&mut flags, false);
    assert!(!take_reload(&mut flags));
    note_external_mutation(&mut flags, true);
    assert!(take_reload(&mut flags));
    assert!(!take_reload(&mut flags));
    process_reset(&mut flags);
    assert!(!flags.live);
}

#[test]
fn processes_get_until_their_deadline() {
    assert_eq!(stop_process(ChildStatus::Exited, 9, 1), StopStep::Done);
    assert_eq!(stop_process(ChildStatus::Running, 0, 1), StopStep::Wait);
    assert_eq!(stop_process(ChildStatus::Running, 1, 1), StopStep::Kill);
    assert_eq!(stop_process(ChildStatus::Unknown, 0, 1), StopStep::Kill);
}

const RUNNING: Surroundings = Surroundings {
    done: false,
    cancelled: false,
    receipt_capable: true,
};

fn response(decision: ApprovalDecision) -> WriterInput {
    WriterInput::Response(ApprovalResponse {
        request_id: "q".to_string(),
        decision,
    })
}

#[test]
fn the_writer_serves_both_channels() {
    let (mut writer, first) = Writer::open(RUNNING);
    assert!(matches!(first, WriterAction::Await));
    let receipt = || WriterInput::Receipt("q".to_string());
    let deaf = Surroundings { receipt_capable: false, ..RUNNING };
    assert!(matches!(writer.on_input(receipt(), deaf), WriterAction::Await));
    assert!(matches!(
        writer.on_input(receipt(), RUNNING),
        WriterAction::SendReceipt(id) if id == "q"
    ));
    assert!(matches!(
        writer.on_input(response(ApprovalDecision::Answer("yes".to_string())), RUNNING),
        WriterAction::SendAnswer(_)
    ));
    assert!(matches!(
        writer.on_input(response(ApprovalDecision::Allow), RUNNING),
        WriterAction::SendDecision(_)
    ));
    assert!(matches!(
        writer.on_input(WriterInput::Timeout, RUNNING),
        WriterAction::PollAuth
    ));
    assert!(matches!(
        writer.on_input(WriterInput::AuthArrived, RUNNING),
        WriterAction::SendAuth
    ));
    assert!(matches!(
        writer.on_input(WriterInput::AuthSent(true), RUNNING),
        WriterAction::Await
    ));
    assert!(matches!(
        writer.on_input(WriterInput::Disconnected, RUNNING),
        WriterAction::PollAuth
    ));
    assert!(matches!(
        writer.on_input(WriterInput::AuthEmpty, RUNNING),
        WriterAction::PollAuth
    ));
    assert!(matches!(
        writer.on_input(WriterInput::AuthDisconnected, RUNNING),
        WriterAction::End
    ));
    assert!(!writer.approval_open && !writer.auth_open);
}

#[test]
fn messages_that_do_not_go_out_end_the_writer() {
    let (mut writer, _) = Writer::open(RUNNING);
    assert!(matches!(
        writer.on_input(WriterInput::AnswerSent("q".to_string(), true), RUNNING),
        WriterAction::Confirm(id) if id == "q"
    ));
    assert!(matches!(
        writer.on_input(WriterInput::Confirmed, RUNNING),
        WriterAction::Await
    ));
    assert!(matches!(
        writer.on_input(WriterInput::AnswerSent("q".to_string(), false), RUNNING),
        WriterAction::Refuse
    ));
    for lost in [
        WriterInput::ReceiptSent(false),
        WriterInput::DecisionSent(false),
        WriterInput::AuthSent(false),
    ] {
        assert!(matches!(writer.on_input(lost, RUNNING), WriterAction::End));
    }
    for ended in [
        Surroundings { done: true, ..RUNNING },
        Surroundings { cancelled: true, ..RUNNING },
    ] {
        assert!(matches!(Writer::open(ended).1, WriterAction::End));
        assert!(matches!(
            writer.on_input(WriterInput::DecisionSent(true), ended),
            WriterAction::End
        ));
    }
}

fn completed() -> AgentEvent {
    AgentEvent::AgentCompleted("run-1".to_string())
}

fn request() -> TurnRequest {
    TurnRequest {
        run_id: "run-1".to_string(),
        mode: ApprovalMode::Auto,
        session_scope: "/work".to_string(),
        session_id: Some("s-1".to_string()),
    }
}

fn initialized() -> ProcessState {
    let mut process = spawned_process(&request());
    process.initialized = true;
    process.capabilities.provider_initialize_seen = true;
    process
}

fn capabilities() -> Capabilities {
    Capabilities {
        provider_initialize_seen: true,
        can_handle_approval_receipt: true,
    }
}

#[test]
fn processes_serve_one_mode_scope_and_session() {
    let process = initialized();
    assert!(!must_replace(&process, false, &request()));
    assert!(must_replace(&process, true, &request()));
    let mut other = request();
    other.mode = ApprovalMode::Trust;
    assert!(must_replace(&process, false, &other));
    other = request();
    other.session_scope = "/elsewhere".to_string();
    assert!(must_replace(&process, false, &other));
    other = request();
    other.session_id = None;
    assert!(must_replace(&process, false, &other));
}

#[test]
fn stops_are_classified_by_intent() {
    let eof = || Signal::StreamError("cosh-core output reached EOF".to_string());
    let mut turn = new_turn(false);
    assert!(matches!(
        on_signal(&mut turn, eof(), true, true),
        SignalStep::Cancelled
    ));
    assert!(matches!(
        on_signal(&mut turn, eof(), false, false),
        SignalStep::FailWithStderr(m) if m == "cosh-core output reached EOF"
    ));
    assert!(matches!(
        on_signal(&mut turn, Signal::Timeout(None, false), false, false),
        SignalStep::Wait
    ));
    assert!(matches!(
        on_signal(&mut turn, Signal::Timeout(None, true), false, false),
        SignalStep::FailWithStderr(m) if m == "cosh-core exited before completing the Agent turn"
    ));
    assert!(matches!(
        on_signal(&mut turn, Signal::Disconnected, false, true),
        SignalStep::FailWithStderr(m) if m == "cosh-core output stream disconnected"
    ));
    assert!(!turn.teardown_break && turn.transport_error.is_none());
    assert!(matches!(
        on_signal(&mut turn, eof(), false, true),
        SignalStep::TornDown
    ));
    assert!(turn.teardown_break);
    let mut writer = new_turn(false);
    assert!(matches!(
        on_signal(
            &mut writer,
            Signal::Timeout(Some("write".to_string()), true),
            true,
            true
        ),
        SignalStep::Fail(_)
    ));
    assert_eq!(writer.transport_error.as_deref(), Some("write"));
}

#[test]
fn aborted_turns_keep_failures_and_report_cancellation() {
    let mut turn = new_turn(false);
    on_event(&mut turn, completed(), Ok(()));
    on_event(&mut turn, AgentEvent::AgentFailed("run-1".to_string(), "real".to_string()), Ok(()));
    let settled = settle("run-1", turn, true, true);
    assert!(any_cancellation(&settled.terminal_events));
    assert!(settled
        .terminal_events
        .iter()
        .any(|event| matches!(event, AgentEvent::AgentFailed(_, reason) if reason == "real")));
    assert!(!settled
        .terminal_events
        .iter()
        .any(|event| matches!(event, AgentEvent::AgentCompleted(_))));
    let plan = commit_plan(&settled, true, true, None);
    assert!(plan.record_cancellation && !plan.completed && plan.failed);
    assert!(matches!(finish_turn(settled, true, false), Ok(true)));
}

#[test]
fn broken_transports_fail_the_turn() {
    let mut turn = new_turn(false);
    on_writer_failure(&mut turn, Some("broken".to_string()));
    on_writer_failure(&mut turn, Some("later".to_string()));
    on_event(&mut turn, completed(), Ok(()));
    let settled = settle("run-1", turn, false, false);
    assert!(settled.terminal_events.is_empty());
    assert!(!settled.completed && settled.failed);
    assert!(matches!(
        finish_turn(settled, false, false),
        Err(error) if error == "broken"
    ));
    let mut gate = new_turn(false);
    assert!(on_event(
        &mut gate,
        AgentEvent::Output(1),
        Err("premature".to_string())
    )
    .is_none());
    assert_eq!(gate.transport_error.as_deref(), Some("premature"));
    assert_eq!(
        drop_completion(vec![
            completed(),
            AgentEvent::Output(3),
            completed()
        ])
        .len(),
        1
    );
}

#[test]
fn sessions_bind_only_to_resumable_successes() {
    let mut turn = new_turn(false);
    on_event(&mut turn, completed(), Ok(()));
    let mut process = initialized();
    assert_eq!(note_resumable(&mut process, Some(false)), Some(false));
    assert_eq!(note_resumable(&mut process, None), Some(false));
    let stuck = commit_plan(&turn, false, false, Some(false));
    assert!(stuck.completed && !stuck.bind_session);
    bind_session(&mut process, stuck, Some("s-2".to_string()));
    assert_eq!(process.session_id.as_deref(), Some("s-1"));
    let plan = commit_plan(&turn, false, false, None);
    bind_session(&mut process, plan, Some("s-2".to_string()));
    assert_eq!(process.session_id.as_deref(), Some("s-2"));
    let mut failed = new_turn(false);
    on_event(&mut failed, AgentEvent::AgentFailed("run-1".to_string(), "x".to_string()), Ok(()));
    assert!(commit_plan(&failed, false, true, None).completed);
    assert!(commit_plan(&failed, false, false, None).failed);
}

#[test]
fn openings_depend_on_the_process() {
    let (turn, opening) = open_turn(&spawned_process(&request()), false);
    assert!(turn.awaiting_initialize && opening.send_initialize && !opening.send_user_turn);
    let (turn, opening) = open_turn(&initialized(), false);
    assert!(turn.user_turn_sent && opening.send_user_turn && opening.seed_capabilities);
    let (_, opening) = open_turn(&spawned_process(&request()), true);
    assert!(!opening.send_initialize && !opening.send_user_turn);
}

#[test]
fn only_recommendations_trail_a_result() {
    let mut turn = new_turn(false);
    let trailing = || {
        AgentEvent::StatusChanged(
            "run-1".to_string(),
            "compaction_recommended_v1:90".to_string(),
            "compact".to_string(),
        )
    };
    assert!(matches!(
        on_grace(&mut turn, GraceSignal::Events(vec![trailing()])),
        GraceStep::Emit(events) if events.len() == 1
    ));
    assert!(turn.transport_error.is_none());
    on_grace(
        &mut turn,
        GraceSignal::Events(vec![trailing(), AgentEvent::Output(1)]),
    );
    assert_eq!(
        turn.transport_error.as_deref(),
        Some("cosh-core emitted output after the terminal Agent result")
    );
    let mut empty = new_turn(false);
    on_grace(&mut empty, GraceSignal::Events(Vec::new()));
    assert!(empty.transport_error.is_some());
}

/// Drives a course with prepared answers and collects what it shows.
struct Drive {
    course: Course,
    step: Step,
    shown: Vec<AgentEvent>,
}

impl Drive {
    fn begin(process: Option<ProcessState>, exited: bool) -> Drive {
        let (course, step) = Course::begin(process, exited, request());
        Drive {
            course,
            step,
            shown: Vec::new(),
        }
    }

    fn tell(self, event: Event, cancelled: bool, expected_stop: bool) -> Drive {
        let (course, step) = self.course.advance(event, cancelled, expected_stop);
        let mut shown = self.shown;
        shown.extend(step.show.iter().cloned());
        Drive {
            course,
            step,
            shown,
        }
    }

    fn next(self, event: Event) -> Drive {
        self.tell(event, false, false)
    }

    fn line(self, meaning: LineMeaning) -> Drive {
        let drive = self.next(Event::Received(Signal::Line));
        assert!(matches!(drive.step.action, Action::Handle));
        drive.next(Event::Line(meaning))
    }

    fn end(&self) -> &Result<bool, String> {
        match &self.step.action {
            Action::End(result) => result,
            _ => panic!("the turn is not over"),
        }
    }
}

fn ready() -> Drive {
    let drive = Drive::begin(Some(initialized()), false);
    assert!(matches!(drive.step.action, Action::SendUserTurn(true)));
    let drive = drive.next(Event::Sent(Ok(())));
    assert!(matches!(drive.step.action, Action::StartWriter));
    let drive = drive.next(Event::WriterStarted(Ok(())));
    assert!(matches!(drive.step.action, Action::Receive));
    drive
}

#[test]
fn a_turn_runs_from_spawn_to_commit() {
    let drive = Drive::begin(None, false);
    assert!(matches!(drive.step.action, Action::Spawn));
    let drive = drive.next(Event::Spawned(Ok(())));
    assert!(matches!(drive.step.action, Action::SendInitialize));
    let drive = drive.next(Event::Sent(Ok(())));
    assert!(matches!(drive.step.action, Action::StartWriter));
    let drive = drive
        .next(Event::WriterStarted(Ok(())))
        .line(LineMeaning::Initialized(Ok(capabilities())));
    assert!(matches!(drive.step.action, Action::SendUserTurn(false)));
    let drive = drive
        .next(Event::Sent(Ok(())))
        .line(LineMeaning::Handled)
        .line(LineMeaning::Events(vec![AgentEvent::Output(1)], None))
        .line(LineMeaning::Initialized(Ok(capabilities())))
        .line(LineMeaning::Events(
            vec![AgentEvent::Output(2), completed()],
            None,
        ));
    assert!(matches!(drive.step.action, Action::Linger));
    assert_eq!(drive.course.terminal_events().len(), 1);
    let drive = drive.next(Event::Lingered(GraceSignal::Timeout));
    assert!(matches!(drive.step.action, Action::JoinWriter));
    let drive = drive.next(Event::WriterJoined(None));
    assert!(matches!(drive.step.action, Action::FinishStream(true)));
    let drive = drive.next(Event::StreamFinished(Vec::new(), None, Some(true)));
    assert!(matches!(drive.step.action, Action::Judge(Some(true))));
    let drive = drive.next(Event::Judged(false));
    assert!(
        matches!(&drive.step.action, Action::Commit(plan) if plan.completed && plan.bind_session)
    );
    let drive = drive.next(Event::Committed(
        vec![completed()],
        Some("s-9".to_string()),
    ));
    assert!(matches!(drive.step.action, Action::Reload));
    let drive = drive.next(Event::Reloaded(false));
    assert!(matches!(drive.end(), Ok(false)));
    assert!(matches!(
        drive.shown.as_slice(),
        [
            AgentEvent::StatusChanged(run, phase, _),
            AgentEvent::Output(1),
            AgentEvent::Output(2),
            AgentEvent::AgentCompleted(_)
        ] if run == "run-1" && phase == "starting"
    ));
    let process = drive.course.into_process().expect("process");
    assert!(process.initialized);
    assert_eq!(process.capabilities, capabilities());
    assert_eq!(process.session_resumable, Some(true));
    assert_eq!(process.session_id.as_deref(), Some("s-9"));
}

#[test]
fn unfit_processes_are_stopped_first() {
    let drive = Drive::begin(Some(initialized()), true);
    assert!(matches!(drive.step.action, Action::Stop));
    let drive = drive.next(Event::Stopped);
    assert!(matches!(drive.step.action, Action::Spawn));
    let drive = drive.next(Event::Spawned(Err("no such file".to_string())));
    assert!(matches!(drive.end(), Err(error) if error == "no such file"));
    assert!(drive.shown.is_empty());
}

#[test]
fn cancelled_starts_stop_the_process_and_send_nothing() {
    let drive = Drive::begin(None, false).tell(Event::Spawned(Ok(())), true, false);
    assert!(matches!(drive.step.action, Action::Stop));
    let drive = drive.tell(Event::Stopped, true, true);
    assert!(matches!(drive.step.action, Action::StartWriter));
    let drive = drive.tell(Event::WriterStarted(Ok(())), true, true).tell(
        Event::Received(Signal::StreamError(stream_end(None))),
        true,
        true,
    );
    assert!(matches!(drive.step.action, Action::JoinWriter));
    let drive = drive.tell(Event::WriterJoined(None), true, true);
    assert!(matches!(drive.step.action, Action::FinishStream(false)));
    let drive = drive
        .tell(
            Event::StreamFinished(vec![completed()], None, None),
            true,
            true,
        )
        .tell(Event::Judged(true), true, true);
    assert!(
        matches!(&drive.step.action, Action::Commit(plan) if plan.record_cancellation && plan.failed && !plan.completed)
    );
    assert!(any_cancellation(drive.course.terminal_events()));
    let events = drive.course.terminal_events().clone();
    let drive = drive
        .tell(Event::Committed(events, None), true, true)
        .tell(Event::Reloaded(false), true, true);
    assert!(matches!(drive.end(), Ok(true)));
    assert!(any_cancellation(&drive.shown));
}

#[test]
fn dead_processes_are_explained_by_their_error_output() {
    let drive = ready().next(Event::Received(Signal::Timeout(None, true)));
    assert!(matches!(drive.step.action, Action::ReadStderr));
    let drive = drive.next(Event::Stderr("segfault\n".to_string()));
    assert!(matches!(drive.step.action, Action::JoinWriter));
    let drive = drive
        .next(Event::WriterJoined(Some("later".to_string())))
        .next(Event::StreamFinished(
            vec![completed()],
            None,
            None,
        ))
        .next(Event::Judged(false))
        .next(Event::Committed(Vec::new(), None))
        .next(Event::Reloaded(false));
    assert!(matches!(
        drive.end(),
        Err(error) if error == "cosh-core exited before completing the Agent turn\nstderr tail:\nsegfault"
    ));
}

#[test]
fn refused_events_end_the_turn_behind_what_was_shown() {
    let drive = ready().line(LineMeaning::Events(
        vec![AgentEvent::Output(1)],
        Some("premature completion".to_string()),
    ));
    assert!(matches!(drive.step.action, Action::JoinWriter));
    assert!(matches!(drive.step.show.as_slice(), [AgentEvent::Output(1)]));
    let broken = ready().line(LineMeaning::Broken("bad question".to_string()));
    assert!(matches!(broken.step.action, Action::JoinWriter));
    let refused = ready().line(LineMeaning::Initialized(Err("old protocol".to_string())));
    assert!(matches!(refused.step.action, Action::JoinWriter));
}

#[test]
fn torn_down_turns_are_cancelled_not_failed() {
    let drive = ready().tell(
        Event::Received(Signal::StreamError(stream_end(None))),
        false,
        true,
    );
    assert!(matches!(drive.step.action, Action::JoinWriter));
    let drive = drive.next(Event::WriterJoined(None));
    assert!(matches!(drive.step.action, Action::FinishStream(false)));
    let drive = drive.next(Event::StreamFinished(Vec::new(), None, None));
    assert!(matches!(
        drive.course.terminal_events().as_slice(),
        [AgentEvent::AgentCancelled(run, reason)]
            if run == "run-1" && reason == "cosh-core runtime shut down during turn"
    ));
}

#[test]
fn ended_streams_behind_a_result_replace_the_process() {
    let done = || {
        ready().line(LineMeaning::Events(vec![completed()], None))
    };
    for signal in [
        GraceSignal::StreamError(stream_end(None)),
        GraceSignal::Disconnected,
    ] {
        let drive = done()
            .next(Event::Lingered(signal))
            .next(Event::WriterJoined(None))
            .next(Event::StreamFinished(Vec::new(), None, None))
            .next(Event::Judged(false))
            .next(Event::Committed(vec![completed()], None))
            .next(Event::Reloaded(false));
        assert!(matches!(drive.end(), Ok(true)));
    }
    let failed = done().next(Event::Lingered(GraceSignal::StreamError("io".to_string())));
    assert!(matches!(failed.step.action, Action::ReadStderr));
}

#[test]
fn foreign_answers_change_nothing() {
    let drive = ready().next(Event::Judged(true));
    assert!(matches!(drive.step.action, Action::Wait));
    let drive = drive.next(Event::Received(Signal::Timeout(None, false)));
    assert!(matches!(drive.step.action, Action::Receive));
    let drive = drive.next(Event::InspectFailed("gone".to_string()));
    assert!(matches!(
        drive.end(),
        Err(error) if error == "failed to inspect cosh-core: gone"
    ));
    let drive = drive.next(Event::Reloaded(false));
    assert!(matches!(drive.step.action, Action::Wait));
}
