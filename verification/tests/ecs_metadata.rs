use cosh::auth::registry::{
    activate, activated, auth_registry_error, configured, deleted, ecs_prepare_response,
    ecs_probe_response, finish_activate, finish_configure, finish_delete, handle_auth,
    preserve_masked_secret, registry_error, AiConfig, AuthCommand, ConfigureFailure, CoreConfig,
    ProviderConfig, ProviderTemplate, RegistryResponse, Removal,
};
use cosh::clock::UtcTime;
use cosh::ecs_metadata::{
    challenge_from, check_status, check_token, classify_credentials, credentials_from,
    generate_console_url, read_instance_id, read_text, region_id_from_zone_id, session_outcome,
    transport_error, validate_credentials, BodyReader, CredentialStatus, EcsAuthChallenge,
    NotReadyReason, ProbeError, RoleCredentials, SessionOutcome, MAX_RESPONSE_BYTES,
    MAX_TOKEN_BYTES,
};
use cosh::values::Values;
use serde_json::Value;

fn json(text: &str) -> Value {
    serde_json::from_str(text).expect("json")
}

fn now() -> UtcTime {
    UtcTime {
        secs: 1_789_473_600,
        nanos: 0,
    }
}

fn credentials() -> Value {
    json(
        r#"{
        "Code": "Success",
        "AccessKeyId": "synthetic-ak",
        "AccessKeySecret": "synthetic-sk",
        "SecurityToken": "synthetic-token",
        "Expiration": "2026-09-15T13:00:00Z"
    }"#,
    )
}

#[test]
fn region_id_strips_single_zone_suffix() {
    assert_eq!(
        region_id_from_zone_id("cn-hangzhou-j").as_deref(),
        Some("cn-hangzhou")
    );
    assert_eq!(
        region_id_from_zone_id("cn-beijing").as_deref(),
        Some("cn-beijing")
    );
    assert_eq!(region_id_from_zone_id(""), None);
}

#[test]
fn generate_console_url_uses_region_and_instance_id() {
    assert_eq!(
        generate_console_url("i-test123", "cn-hangzhou"),
        "https://alinux.console.aliyun.com/cn-hangzhou/guide/cosh?instance=i-test123"
    );
}

#[test]
fn ecs_metadata_ready_for_complete_unexpired_credentials() {
    for expiration in ["2026-09-15T12:00:01Z", "2026-09-15T13:00:00Z"] {
        let mut body = credentials();
        body["Expiration"] = Value::from(expiration);
        assert!(matches!(
            classify_credentials(200, body.to_string().as_bytes(), now()),
            Ok(CredentialStatus::Ready)
        ));
    }
}

#[test]
fn ecs_metadata_not_ready_for_missing_role() {
    for body in [credentials().to_string(), "not JSON".to_string()] {
        assert!(matches!(
            classify_credentials(404, body.as_bytes(), now()),
            Ok(CredentialStatus::NotReady(NotReadyReason::RoleMissing))
        ));
    }
}

#[test]
fn ecs_metadata_not_ready_at_or_after_expiration() {
    for expiration in ["2026-09-15T12:00:00Z", "2026-09-15T11:59:59Z"] {
        let mut body = credentials();
        body["Expiration"] = Value::from(expiration);
        assert!(matches!(
            classify_credentials(200, body.to_string().as_bytes(), now()),
            Ok(CredentialStatus::NotReady(
                NotReadyReason::CredentialsExpired
            ))
        ));
    }
}

#[test]
fn ecs_metadata_classifies_http_errors_before_parsing_body() {
    for status in [401, 403, 500] {
        for body in [credentials().to_string(), "not JSON".to_string()] {
            assert!(
                matches!(
                    (
                        status,
                        classify_credentials(status, body.as_bytes(), now())
                    ),
                    (401 | 403, Err(ProbeError::AccessDenied)) | (500, Err(ProbeError::Http))
                ),
                "HTTP {status} must retain its error classification"
            );
        }
    }
}

#[test]
fn ecs_metadata_rejects_invalid_fields() {
    for field in [
        "Code",
        "AccessKeyId",
        "AccessKeySecret",
        "SecurityToken",
        "Expiration",
    ] {
        for (case, replacement) in [
            ("missing", None),
            ("null", Some(Value::Null)),
            ("empty", Some(Value::from(""))),
            ("number", Some(Value::from(42))),
            ("boolean", Some(Value::from(true))),
            ("array", Some(json("[]"))),
            ("object", Some(json("{}"))),
        ] {
            let mut body = credentials();
            match replacement {
                Some(value) => body[field] = value,
                None => {
                    body.as_object_mut()
                        .expect("fixture is an object")
                        .remove(field);
                }
            }
            assert!(
                matches!(
                    classify_credentials(200, body.to_string().as_bytes(), now()),
                    Err(ProbeError::InvalidResponse)
                ),
                "{field}/{case} must be rejected"
            );
        }
    }
    for (field, value) in [
        ("Code", "SyntheticFailure"),
        ("Code", "success"),
        ("Expiration", "not-a-timestamp"),
    ] {
        let mut body = credentials();
        body[field] = Value::from(value);
        assert!(
            matches!(
                classify_credentials(200, body.to_string().as_bytes(), now()),
                Err(ProbeError::InvalidResponse)
            ),
            "invalid {field} must be rejected"
        );
    }
}

#[test]
fn ecs_metadata_rejects_invalid_json_or_keyword_decoys() {
    for (case, body) in [
        ("empty body", ""),
        ("malformed JSON", "{\"Code\":\"Success\","),
        ("null document", "null"),
        ("array document", "[]"),
        ("empty object", "{}"),
        (
            "keyword text",
            "metadata error: AccessKeyId AccessKeySecret SecurityToken",
        ),
        (
            "keyword JSON string",
            r#""metadata error: AccessKeyId AccessKeySecret SecurityToken""#,
        ),
        (
            "keyword error object",
            r#"{"Code":"Success","Message":"AccessKeyId AccessKeySecret SecurityToken"}"#,
        ),
    ] {
        assert!(
            matches!(
                classify_credentials(200, body.as_bytes(), now()),
                Err(ProbeError::InvalidResponse)
            ),
            "{case} must be rejected"
        );
    }
}

#[test]
fn ecs_metadata_errors_do_not_display_response_body_or_credentials() {
    let mut body = credentials();
    body["Code"] = Value::from("SyntheticFailure");
    let body = body.to_string();
    let malformed_body = format!("{body} invalid-json");

    for body in [&body, &malformed_body] {
        for status in [200, 401, 403, 500] {
            let error = match classify_credentials(status, body.as_bytes(), now()) {
                Err(error) => error,
                Ok(_) => panic!("error fixture must not produce a credential status"),
            };
            let message = error.message();
            for forbidden in [
                body.as_str(),
                "synthetic-ak",
                "synthetic-sk",
                "synthetic-token",
            ] {
                assert!(
                    !message.contains(forbidden),
                    "HTTP {status} error message must not expose response data"
                );
            }
        }
    }
    for error in [ProbeError::Unreachable, ProbeError::Timeout] {
        let message = error.message();
        for forbidden in [
            body.as_str(),
            "synthetic-ak",
            "synthetic-sk",
            "synthetic-token",
        ] {
            assert!(
                !message.contains(forbidden),
                "transport error message must not expose response data"
            );
        }
    }
}

#[test]
fn ecs_metadata_error_codes_and_messages_are_fixed() {
    for (error, code, message) in [
        (
            ProbeError::AccessDenied,
            "metadata_access_denied",
            "Unable to access ECS instance metadata.",
        ),
        (
            ProbeError::InvalidResponse,
            "invalid_metadata_response",
            "ECS instance metadata returned an invalid response.",
        ),
        (
            ProbeError::Unreachable,
            "metadata_unreachable",
            "Unable to reach ECS instance metadata.",
        ),
        (
            ProbeError::Timeout,
            "metadata_timeout",
            "ECS instance metadata request timed out.",
        ),
        (
            ProbeError::Http,
            "metadata_http_error",
            "ECS instance metadata returned an HTTP error.",
        ),
    ] {
        assert_eq!(error.code(), code);
        assert_eq!(error.message(), message);
    }
}

#[test]
fn reasons_are_spelled_as_the_protocol_does() {
    assert_eq!(NotReadyReason::RoleMissing.as_str(), "role_missing");
    assert_eq!(
        NotReadyReason::CredentialsExpired.as_str(),
        "credentials_expired"
    );
}

#[test]
fn ready_credentials_carry_the_keys() {
    match validate_credentials(200, credentials().to_string().as_bytes(), now()) {
        Ok(RoleCredentials::Ready(keys)) => {
            assert_eq!(keys.access_key_id, "synthetic-ak");
            assert_eq!(keys.access_key_secret, "synthetic-sk");
            assert_eq!(keys.security_token.as_deref(), Some("synthetic-token"));
        }
        _ => panic!("credentials are ready"),
    }
    let mut offset = credentials();
    offset["Expiration"] = Value::from("2026-09-15T20:00:00.5+08:00");
    assert!(matches!(
        credentials_from(&offset, now()),
        Ok(RoleCredentials::Ready(_))
    ));
    let later = UtcTime {
        secs: now().secs,
        nanos: 500_000_000,
    };
    assert!(matches!(
        credentials_from(&offset, later),
        Ok(RoleCredentials::NotReady(
            NotReadyReason::CredentialsExpired
        ))
    ));
}

#[test]
fn ecs_metadata_http_statuses_are_classified() {
    assert_eq!(check_status(200), Ok(()));
    assert_eq!(check_status(299), Ok(()));
    assert_eq!(check_status(302), Err(ProbeError::Http));
    assert_eq!(check_status(404), Err(ProbeError::Http));
    assert_eq!(check_status(401), Err(ProbeError::AccessDenied));
    assert_eq!(check_status(403), Err(ProbeError::AccessDenied));
    assert_eq!(transport_error(true, true), ProbeError::Timeout);
    assert_eq!(transport_error(false, true), ProbeError::Unreachable);
    assert_eq!(transport_error(false, false), ProbeError::InvalidResponse);
}

#[test]
fn response_bodies_are_bounded() {
    let limit = MAX_RESPONSE_BYTES;
    assert!(matches!(BodyReader::start(404, None, limit), Ok(None)));
    assert!(matches!(
        BodyReader::start(200, Some(limit as u64 + 1), limit),
        Err(ProbeError::InvalidResponse)
    ));
    let mut reader = BodyReader::start(200, Some(limit as u64), limit)
        .expect("fits")
        .expect("read");
    assert_eq!(reader.push(&vec![b'x'; limit - 1]), Ok(()));
    assert_eq!(reader.push(b"ab"), Err(ProbeError::InvalidResponse));
    assert_eq!(reader.push(b"a"), Ok(()));
    assert_eq!(reader.into_body().len(), limit);
    assert_eq!(MAX_TOKEN_BYTES, 4096);
}

#[test]
fn ecs_metadata_token_failures_are_no_tokens() {
    assert_eq!(check_token(200, b"abc!~"), Ok(()));
    for body in [&b""[..], b"a b", b"a\n", b"\x7f", b"\xff"] {
        assert_eq!(check_token(200, body), Err(ProbeError::InvalidResponse));
    }
    assert_eq!(check_token(403, b"abc"), Err(ProbeError::AccessDenied));
    assert_eq!(check_token(500, b""), Err(ProbeError::Http));
}

#[test]
fn identities_are_checked_before_they_enter_a_url() {
    assert_eq!(
        read_text(200, b" cn-hangzhou-j\n").as_deref(),
        Ok("cn-hangzhou-j")
    );
    for body in [&b""[..], b" \n", b"a/b", b"a?b", b"\xff", "é".as_bytes()] {
        assert_eq!(read_text(200, body), Err(ProbeError::InvalidResponse));
    }
    assert_eq!(read_instance_id(200, b"i-abc").as_deref(), Ok("i-abc"));
    assert_eq!(
        read_instance_id(200, b"i-"),
        Err(ProbeError::InvalidResponse)
    );
    assert_eq!(
        read_instance_id(200, b"x-abc"),
        Err(ProbeError::InvalidResponse)
    );
    assert_eq!(read_instance_id(401, b"i-abc"), Err(ProbeError::AccessDenied));
}

#[test]
fn ecs_metadata_only_a_silent_service_means_manual() {
    assert_eq!(session_outcome(Ok(())), SessionOutcome::Continue);
    assert_eq!(
        session_outcome(Err(ProbeError::Unreachable)),
        SessionOutcome::Manual
    );
    assert_eq!(
        session_outcome(Err(ProbeError::Timeout)),
        SessionOutcome::Manual
    );
    for error in [
        ProbeError::AccessDenied,
        ProbeError::InvalidResponse,
        ProbeError::Http,
    ] {
        assert_eq!(session_outcome(Err(error)), SessionOutcome::Failed(error));
    }
    let challenge = challenge_from(Ok("i-a".to_string()), Ok("cn-hangzhou-j".to_string()))
        .expect("challenge");
    assert_eq!(challenge.instance_id, "i-a");
    assert_eq!(
        challenge.console_url,
        "https://alinux.console.aliyun.com/cn-hangzhou/guide/cosh?instance=i-a"
    );
    for error in [ProbeError::Unreachable, ProbeError::Timeout] {
        assert!(matches!(
            challenge_from(Err(error), Ok("cn-hangzhou-j".to_string())),
            Err(e) if e == error
        ));
        assert!(matches!(
            challenge_from(Ok("i-a".to_string()), Err(error)),
            Err(e) if e == error
        ));
    }
    assert!(matches!(
        challenge_from(Ok("i-a".to_string()), Ok(String::new())),
        Err(ProbeError::InvalidResponse)
    ));
}

#[test]
fn ecs_metadata_registry_prepare_encodes_ecs_and_manual() {
    for (challenge, expected) in [
        (None, json(r#"{"mode": "manual"}"#)),
        (
            Some(EcsAuthChallenge {
                instance_id: "i-test".to_string(),
                console_url:
                    "https://alinux.console.aliyun.com/cn-shanghai/guide/cosh?instance=i-test"
                        .to_string(),
            }),
            json(
                r#"{"mode": "ecs_ram_role", "instance_id": "i-test", "console_url": "https://alinux.console.aliyun.com/cn-shanghai/guide/cosh?instance=i-test", "values": {"auth_source": "ecs_ram_role"}}"#,
            ),
        ),
    ] {
        let RegistryResponse {
            success,
            data,
            error,
            ..
        } = ecs_prepare_response("prepare-id", Ok(challenge));
        assert!(success);
        assert_eq!(data, Some(expected));
        assert_eq!(error, None);
    }
}

fn error_code(error: ProbeError) -> Value {
    json(&format!(r#"{{"error_code": "{}"}}"#, error.code()))
}

#[test]
fn ecs_metadata_registry_prepare_never_masks_safe_errors_as_manual() {
    for probe_error in [
        ProbeError::AccessDenied,
        ProbeError::InvalidResponse,
        ProbeError::Http,
    ] {
        let RegistryResponse {
            success,
            data,
            error,
            ..
        } = ecs_prepare_response("prepare-id", Err(probe_error));
        assert!(!success);
        assert_eq!(data, Some(error_code(probe_error)));
        assert_eq!(error, Some(probe_error.message()));
    }
}

#[test]
fn ecs_metadata_registry_encodes_ready_and_not_ready() {
    for (status, expected) in [
        (CredentialStatus::Ready, json(r#"{"status": "ready"}"#)),
        (
            CredentialStatus::NotReady(NotReadyReason::RoleMissing),
            json(r#"{"status": "not_ready", "reason": "role_missing"}"#),
        ),
        (
            CredentialStatus::NotReady(NotReadyReason::CredentialsExpired),
            json(r#"{"status": "not_ready", "reason": "credentials_expired"}"#),
        ),
    ] {
        let RegistryResponse {
            request_id,
            success,
            data,
            error,
        } = ecs_probe_response("probe-id", Ok(status));
        assert_eq!(request_id, "probe-id");
        assert!(success);
        assert_eq!(data, Some(expected));
        assert_eq!(error, None);
    }
}

#[test]
fn ecs_metadata_registry_preserves_safe_errors() {
    for probe_error in [
        ProbeError::AccessDenied,
        ProbeError::InvalidResponse,
        ProbeError::Unreachable,
        ProbeError::Timeout,
        ProbeError::Http,
    ] {
        let RegistryResponse {
            request_id,
            success,
            data,
            error,
        } = ecs_probe_response("probe-error-id", Err(probe_error));
        assert_eq!(request_id, "probe-error-id");
        assert!(!success);
        assert_eq!(data, Some(error_code(probe_error)));
        assert_eq!(error, Some(probe_error.message()));
    }
}

fn provider(kind: &str) -> ProviderConfig {
    ProviderConfig {
        provider_type: kind.to_string(),
        auth_source: None,
        model: Some("m1".to_string()),
        base_url: None,
        api_key: Some("sk-é".to_string()),
        access_key_id: Some(String::new()),
        access_key_secret: None,
        security_token: None,
    }
}

fn layer(names: &[&str]) -> AiConfig {
    AiConfig {
        active_provider: names.first().map(|name| name.to_string()),
        active_model: None,
        providers: names
            .iter()
            .map(|name| (name.to_string(), provider("generic")))
            .collect(),
    }
}

fn config() -> CoreConfig {
    CoreConfig {
        ai: layer(&["mine", "shipped", "transient"]),
        user_ai: layer(&["mine"]),
        system_ai: layer(&["shipped"]),
    }
}

fn command(action: &str, params: &str) -> AuthCommand {
    handle_auth(
        "r1",
        action,
        &json(params),
        &config(),
        &vec![ProviderTemplate {
            id: "aliyun".to_string(),
            label: "Aliyun".to_string(),
            description: None,
            description_zh_cn: Some("阿里云".to_string()),
            fields: json(r#"[{"name":"model"}]"#),
            builtin_base_url: None,
            builtin_default_model: Some("qwen".to_string()),
        }],
        true,
    )
}

fn answer(action: &str, params: &str) -> RegistryResponse {
    match command(action, params) {
        AuthCommand::Answer(response) => response,
        _ => panic!("{action} is answered right away"),
    }
}

#[test]
fn state_lists_templates_and_saved_providers() {
    let response = answer("state", "{}");
    assert_eq!(response.request_id, "r1");
    assert!(response.success);
    let data = response.data.expect("data");
    assert_eq!(
        data["templates"],
        json(
            r#"[{"id":"aliyun","provider_type":"aliyun","label":"Aliyun","description":null,"description_zh_cn":"阿里云","fields":[{"name":"model"}],"builtin_base_url":null,"builtin_default_model":"qwen"}]"#
        )
    );
    assert_eq!(data["active_provider"], "mine");
    assert_eq!(data["effective_auth_required"], true);
    assert_eq!(
        data["saved_providers"][0],
        json(
            r#"{"provider_id":"mine","provider_type":"generic","source":"user","editable":true,"auth_source":null,"model":"m1","base_url":null,"api_key_len":4,"access_key_id_len":0,"access_key_secret_len":0,"security_token_len":0,"active":true,"has_api_key":true,"has_access_key_id":false,"has_access_key_secret":false}"#
        )
    );
    assert_eq!(data["saved_providers"][1]["source"], "system");
    assert_eq!(data["saved_providers"][1]["editable"], false);
    assert_eq!(data["saved_providers"][2]["source"], "runtime");
    assert_eq!(data["saved_providers"][2]["active"], false);
}

#[test]
fn commands_are_decided_from_their_parameters() {
    assert!(matches!(
        command("activate", r#"{"provider_id":"shipped"}"#),
        AuthCommand::Activate(id, Some(model)) if id == "shipped" && model == "m1"
    ));
    for params in ["{}", r#"{"provider_id":""}"#, r#"{"provider_id":"none"}"#] {
        assert_eq!(
            answer("activate", params).error.as_deref(),
            Some("provider not found")
        );
    }
    assert!(matches!(
        command("delete", r#"{"provider_id":"x"}"#),
        AuthCommand::Delete(id) if id == "x"
    ));
    assert_eq!(
        answer("delete", r#"{"provider_id":7}"#).error.as_deref(),
        Some("missing provider_id")
    );
    assert!(matches!(
        command("prepare", r#"{"provider_type":"aliyun"}"#),
        AuthCommand::Prepare
    ));
    assert_eq!(
        answer("prepare", r#"{"provider_type":"generic"}"#).data,
        Some(json(r#"{"mode":"manual"}"#))
    );
    assert_eq!(
        answer("prepare", "null").error.as_deref(),
        Some("missing provider_type")
    );
    assert!(matches!(
        command(
            "verify",
            r#"{"provider_type":"aliyun","auth_source":"ecs_ram_role"}"#
        ),
        AuthCommand::Verify
    ));
    assert_eq!(
        answer("verify", r#"{"provider_type":"aliyun"}"#).data,
        Some(json(r#"{"authorized":true}"#))
    );
    let unknown = answer("rename", "{}");
    assert!(!unknown.success);
    assert_eq!(unknown.data, None);
    assert_eq!(
        unknown.error.as_deref(),
        Some("unsupported action for auth: rename")
    );
}

#[test]
fn configure_keeps_masked_secrets_and_takes_typed_values() {
    match command(
        "configure",
        r#"{"provider_id":"mine","provider_type":"generic","values":{"api_key":"••••","model":"new","n":3}}"#,
    ) {
        AuthCommand::Configure(id, kind, values) => {
            assert_eq!(id, "mine");
            assert_eq!(kind, "generic");
            assert_eq!(values.get("api_key").map(String::as_str), Some("sk-é"));
            assert_eq!(values.get("model").map(String::as_str), Some("new"));
            assert!(!values.contains_key("n"));
        }
        _ => panic!("configure"),
    }
    match command(
        "configure",
        r#"{"provider_id":"mine","provider_type":"generic","values":{"api_key":"•x","access_key_secret":"••"}}"#,
    ) {
        AuthCommand::Configure(_, _, values) => {
            assert_eq!(values.get("api_key").map(String::as_str), Some("•x"));
            assert_eq!(
                values.get("access_key_secret").map(String::as_str),
                Some("••")
            );
        }
        _ => panic!("configure"),
    }
    assert_eq!(
        answer(
            "configure",
            r#"{"provider_id":"shipped","provider_type":"generic"}"#
        )
        .error
        .as_deref(),
        Some("provider is not editable")
    );
    assert_eq!(
        answer("configure", r#"{"provider_id":"mine"}"#)
            .error
            .as_deref(),
        Some("missing provider_id or provider_type")
    );
    let mut values = Values::new();
    values.insert("token", "•");
    preserve_masked_secret(&mut values, "token", None);
    assert_eq!(values.get("token").map(String::as_str), Some("•"));
    preserve_masked_secret(&mut values, "token", Some("kept"));
    assert_eq!(values.get("token").map(String::as_str), Some("kept"));
    preserve_masked_secret(&mut values, "other", Some("kept"));
    assert!(!values.contains_key("other"));
}

#[test]
fn failed_commands_keep_the_configuration() {
    let changed = || activate(config(), "shipped", None);
    let removed = || Removal::Removed(changed(), Some("shipped".to_string()));
    let active = |config: &CoreConfig| config.ai.active_provider.clone();
    let before = active(&config());
    assert_ne!(before.as_deref(), Some("shipped"));

    let (kept, answer) = finish_activate("r", "shipped", config(), changed(), Some("disk full"));
    assert_eq!(active(&kept), before);
    assert_eq!(answer.request_id, "r");
    assert_eq!(
        answer.error.as_deref(),
        Some("failed to persist config: disk full")
    );
    let (next, answer) = finish_activate("r", "shipped", config(), changed(), None);
    assert_eq!(active(&next).as_deref(), Some("shipped"));
    assert_eq!(answer.request_id, "r");
    assert_eq!(answer.data, Some(json(r#"{"active_provider":"shipped"}"#)));

    let (kept, answer) = finish_delete("r", "mine", config(), removed(), Some("disk full"));
    assert_eq!(active(&kept), before);
    assert!(!answer.success);
    let (next, answer) = finish_delete("r", "mine", config(), removed(), None);
    assert_eq!(active(&next).as_deref(), Some("shipped"));
    assert_eq!(
        answer.data,
        Some(json(
            r#"{"deleted_provider":"mine","active_provider":"shipped"}"#
        ))
    );
    let refused = Removal::Refused("provider is not editable".to_string());
    let (kept, answer) = finish_delete("r", "shipped", config(), refused, None);
    assert_eq!(active(&kept), before);
    assert_eq!(answer.error.as_deref(), Some("provider is not editable"));
    assert_eq!(answer.data, None);

    let failure = ConfigureFailure {
        code: "conflict".to_string(),
        message: "taken".to_string(),
    };
    let (kept, answer) = finish_configure("r", "mine", config(), Err(failure));
    assert_eq!(active(&kept), before);
    assert_eq!(answer.request_id, "r");
    assert_eq!(answer.error.as_deref(), Some("taken"));
    assert_eq!(answer.data, Some(json(r#"{"error_code":"conflict"}"#)));
    let (next, answer) = finish_configure("r", "mine", config(), Ok(changed()));
    assert_eq!(active(&next).as_deref(), Some("shipped"));
    assert_eq!(answer.data, Some(json(r#"{"provider_id":"mine"}"#)));
}

#[test]
fn persisted_commands_answer_with_what_changed() {
    let next = activate(config(), "shipped", Some("m2".to_string()));
    assert_eq!(next.ai.active_provider.as_deref(), Some("shipped"));
    assert_eq!(next.user_ai.active_provider.as_deref(), Some("shipped"));
    assert_eq!(next.ai.active_model.as_deref(), Some("m2"));
    assert_eq!(next.user_ai.active_model.as_deref(), Some("m2"));
    assert_eq!(next.system_ai.active_model, None);

    let done = activated("r", "shipped", None);
    assert_eq!(done.data, Some(json(r#"{"active_provider":"shipped"}"#)));
    let failed = activated("r", "shipped", Some("disk full"));
    assert_eq!(
        failed.error.as_deref(),
        Some("failed to persist config: disk full")
    );
    let gone = deleted("r", "mine", &None, None);
    assert_eq!(
        gone.data,
        Some(json(
            r#"{"deleted_provider":"mine","active_provider":null}"#
        ))
    );
    assert_eq!(
        configured("r", "mine").data,
        Some(json(r#"{"provider_id":"mine"}"#))
    );
    let coded = auth_registry_error("r", "conflict", "taken");
    assert_eq!(coded.data, Some(json(r#"{"error_code":"conflict"}"#)));
    assert_eq!(coded.error.as_deref(), Some("taken"));
    assert!(!registry_error("r", "no").success);
}
