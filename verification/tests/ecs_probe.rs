use cosh::auth::ecs_probe::{
    check_deadline, is_probe_action, on_idle_read, on_write, owns_signalable_group, parse_response,
    probe_arguments, probe_request, probe_request_id, probe_workspace, wait_slice, Exchange, Next,
    ProbeAction, ProbeEvent, Reaper, ResponseReader, SetupFailure, Transfer, WaitOutcome,
};
use serde_json::Value;

fn json(text: &str) -> Value {
    serde_json::from_str(text).expect("json")
}

#[test]
fn only_an_unreaped_child_may_be_signalled_by_numeric_id() {
    assert!(owns_signalable_group(WaitOutcome::Running));
    assert!(!owns_signalable_group(WaitOutcome::Exited));
    assert!(!owns_signalable_group(WaitOutcome::NoChild));
    assert!(!owns_signalable_group(WaitOutcome::Failed));
}

#[test]
fn groups_are_signalled_once_and_failures_reported_once() {
    let mut reaper = Reaper::new();
    let first = reaper.observe(WaitOutcome::Running);
    assert!(first.signal && !first.report && first.wait.is_some());
    let again = reaper.observe(WaitOutcome::Running);
    assert!(!again.signal && again.wait.is_some());
    let failed = reaper.observe(WaitOutcome::Failed);
    assert!(failed.report && failed.wait.is_some());
    assert!(!reaper.observe(WaitOutcome::Failed).report);
    assert_eq!(reaper.observe(WaitOutcome::Exited).wait, None);
    assert_eq!(Reaper::new().observe(WaitOutcome::NoChild).wait, None);
}

#[test]
fn probes_ask_only_to_prepare_or_verify() {
    assert!(is_probe_action("prepare"));
    assert!(is_probe_action("verify"));
    assert!(!is_probe_action("configure"));
    assert_eq!(probe_request_id(7, 9), "ecs-probe-7-9");
    let request = json(&probe_request("id-1", "verify"));
    assert_eq!(request["type"], "registry_request");
    assert_eq!(request["request_id"], "id-1");
    assert_eq!(request["domain"], "auth");
    assert_eq!(request["action"], "verify");
    assert_eq!(request["params"]["provider_type"], "aliyun");
    assert_eq!(request["params"]["auth_source"], "ecs_ram_role");
}

#[test]
fn probes_run_in_the_workspace_of_the_shell() {
    let a = Some("/a".to_string());
    let b = Some("/b".to_string());
    assert_eq!(probe_workspace(a.clone(), b.clone()), a);
    assert_eq!(probe_workspace(None, b.clone()), b);
    assert_eq!(probe_workspace(None, None), None);
    let arguments = probe_arguments(&a);
    assert!(arguments.ends_with(&["/a".to_string()]) || arguments.contains(&"/a".to_string()));
    assert!(probe_arguments(&None).len() < arguments.len());
}

#[test]
fn deadlines_and_cancellations_end_a_probe() {
    assert!(check_deadline(false, 1, 2).is_ok());
    assert!(check_deadline(false, 2, 2).is_err());
    assert!(check_deadline(true, 1, 2).is_err());
    assert_ne!(check_deadline(true, 1, 2), check_deadline(false, 2, 2));
    assert_eq!(wait_slice(5, 5), 0);
    assert_eq!(wait_slice(5, 40), 35);
    assert_eq!(wait_slice(0, 4_000), 100);
}

#[test]
fn writes_go_on_until_the_request_is_over() {
    assert_eq!(on_write(0, 4, Transfer::Moved(2)), Ok((2, Next::Again)));
    assert_eq!(on_write(2, 4, Transfer::Moved(2)), Ok((4, Next::Complete)));
    assert_eq!(on_write(2, 4, Transfer::WouldBlock), Ok((2, Next::Wait)));
    assert_eq!(on_write(2, 4, Transfer::Interrupted), Ok((2, Next::Again)));
    assert!(on_write(2, 4, Transfer::Moved(0)).is_err());
    assert!(on_write(2, 4, Transfer::Failed).is_err());
    assert_eq!(on_idle_read(Transfer::WouldBlock), Ok(Next::Wait));
    assert_eq!(on_idle_read(Transfer::Interrupted), Ok(Next::Again));
    assert!(on_idle_read(Transfer::Failed).is_err());
    assert!(on_idle_read(Transfer::Moved(0)).is_err());
}

fn answer(body: &str) -> Vec<u8> {
    format!("{body}\n").into_bytes()
}

#[test]
fn the_first_line_is_the_answer() {
    let mut reader = ResponseReader::new();
    let line = answer(
        r#"{"type":"registry_response","request_id":"r","success":true,"data":{"status":"ready"}}"#,
    );
    assert!(reader.push(&line[..10].to_vec(), "r").is_none());
    let result = reader.push(&line[10..].to_vec(), "r").expect("complete");
    assert_eq!(result, Ok(json(r#"{"status":"ready"}"#)));

    let mut large = ResponseReader::new();
    assert!(matches!(
        large.push(&vec![b'x'; 2 * 1024 * 1024], "r"),
        Some(Err(_))
    ));
}

#[test]
fn foreign_and_failed_answers_are_errors() {
    for body in [
        "not json",
        r#"{"type":"other","request_id":"r","success":true}"#,
        r#"{"type":"registry_response","request_id":"x","success":true}"#,
        r#"{"type":"registry_response","request_id":"r","success":false,"error":"denied"}"#,
    ] {
        assert!(parse_response(&body.as_bytes().to_vec(), "r").is_err(), "{body}");
    }
    let refused = |code: &str| {
        let line = format!(
            r#"{{"type":"registry_response","request_id":"r","success":false,"data":{{"error_code":"{code}"}}}}"#
        );
        parse_response(&line.into_bytes(), "r")
    };
    assert_eq!(
        refused("metadata_access_denied"),
        Err("Instance metadata access was denied".to_string())
    );
    assert_eq!(
        refused("metadata_timeout"),
        Err("Instance metadata request timed out".to_string())
    );
    assert_eq!(
        refused("metadata_unreachable"),
        Err("Instance metadata could not be reached".to_string())
    );
    assert_eq!(
        refused("invalid_metadata_response"),
        Err("Instance metadata returned invalid credentials".to_string())
    );
    assert_eq!(
        refused("secret-detail"),
        Err("ECS credential check failed".to_string())
    );
    assert_eq!(
        parse_response(
            &br#"{"type":"registry_response","request_id":"r","success":true}"#.to_vec(),
            "r"
        ),
        Err("Missing ECS probe result".to_string())
    );
}

#[test]
fn a_check_writes_its_request_and_reads_one_answer() {
    let (mut check, first) = Exchange::begin("r", 10, false, 1_000);
    assert!(matches!(first, ProbeAction::Start));
    assert!(matches!(
        check.advance(ProbeEvent::Started(None), false, 1_001),
        ProbeAction::Write(0)
    ));
    assert!(matches!(
        check.advance(ProbeEvent::Wrote(Transfer::Moved(4)), false, 1_002),
        ProbeAction::Write(4)
    ));
    assert!(matches!(
        check.advance(ProbeEvent::Wrote(Transfer::WouldBlock), false, 1_003),
        ProbeAction::AwaitInput(100)
    ));
    assert!(matches!(
        check.advance(ProbeEvent::Awaited(true), false, 1_004),
        ProbeAction::Write(4)
    ));
    assert!(matches!(
        check.advance(ProbeEvent::Wrote(Transfer::Moved(6)), false, 1_005),
        ProbeAction::CloseInput
    ));
    assert!(matches!(
        check.advance(ProbeEvent::InputClosed, false, 1_006),
        ProbeAction::Read
    ));
    assert!(matches!(
        check.advance(ProbeEvent::Silent(Transfer::WouldBlock), false, 1_007),
        ProbeAction::AwaitOutput(100)
    ));
    assert!(matches!(
        check.advance(ProbeEvent::Awaited(true), false, 1_008),
        ProbeAction::Read
    ));
    let line = answer(
        r#"{"type":"registry_response","request_id":"r","success":true,"data":{"status":"ready"}}"#,
    );
    assert!(matches!(
        check.advance(ProbeEvent::Heard(line[..9].to_vec()), false, 1_009),
        ProbeAction::Read
    ));
    assert!(matches!(
        check.advance(ProbeEvent::Heard(line[9..].to_vec()), false, 1_010),
        ProbeAction::Finish(Ok(value)) if value == json(r#"{"status":"ready"}"#)
    ));
    assert!(matches!(
        check.advance(ProbeEvent::InputClosed, false, 1_011),
        ProbeAction::Ignore
    ));
}

fn ends(action: ProbeAction, expected: &str) {
    match action {
        ProbeAction::Finish(Err(error)) => assert_eq!(error, expected),
        _ => panic!("expected {expected}"),
    }
}

#[test]
fn every_failure_of_a_check_is_named() {
    let writing = || {
        let (mut check, _) = Exchange::begin("r", 10, false, 0);
        check.advance(ProbeEvent::Started(None), false, 0);
        check
    };
    let reading = || {
        let mut check = writing();
        check.advance(ProbeEvent::Wrote(Transfer::Moved(10)), false, 0);
        check.advance(ProbeEvent::InputClosed, false, 0);
        check
    };
    for (failure, expected) in [
        (SetupFailure::Start, "Could not start ECS probe"),
        (SetupFailure::Stdin, "ECS probe stdin unavailable"),
        (SetupFailure::Stdout, "ECS probe stdout unavailable"),
        (
            SetupFailure::ConfigureStdin,
            "Could not configure ECS probe stdin",
        ),
        (
            SetupFailure::ConfigureStdout,
            "Could not configure ECS probe stdout",
        ),
    ] {
        let (mut check, _) = Exchange::begin("r", 10, false, 0);
        ends(check.advance(ProbeEvent::Started(Some(failure)), false, 0), expected);
    }
    ends(
        writing().advance(ProbeEvent::Wrote(Transfer::Failed), false, 0),
        "Could not write ECS probe request",
    );
    let mut blocked = writing();
    blocked.advance(ProbeEvent::Wrote(Transfer::WouldBlock), false, 0);
    ends(
        blocked.advance(ProbeEvent::Awaited(false), false, 0),
        "ECS probe readiness check failed",
    );
    ends(
        reading().advance(ProbeEvent::Heard(Vec::new()), false, 0),
        "ECS probe response ended unexpectedly",
    );
    ends(
        reading().advance(ProbeEvent::Silent(Transfer::Failed), false, 0),
        "Could not read ECS probe response",
    );
    ends(Exchange::begin("r", 10, true, 0).1, "ECS probe cancelled");
    ends(
        writing().advance(ProbeEvent::Wrote(Transfer::Interrupted), false, u64::MAX),
        "ECS probe timed out",
    );
}
