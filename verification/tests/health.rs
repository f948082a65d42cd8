use std::collections::BTreeSet;

use cosh::diagnostics::registry::{RoutingFacts, RunEntry};
use cosh::health::collect::{run_env_collectors, EnvironmentScan};
use cosh::health::doctor::{
    collector_token, crashes_line, doctor_status, finding_remediation, format_doctor_report_plain,
    logs_line, render_static_facts, report_exit_code, routing_line, runtime_summary, short_session,
    short_time, unavailable_reason_message, CrashTime, DoctorHeader, DoctorStatus, LogsHeader,
};
use cosh::health::environment::{
    classify_hooks, classify_permissions, collect_config, collect_hooks, collect_permissions,
    collect_pty, config_content_consumable, config_file_status, is_trusted_root, ConfigFileStatus,
    ConfigSummary, HooksReadiness, PermissionsReadiness,
};
use cosh::health::kernel::{
    apply_confinement_rule, kernel_supports_openat2, parse_kernel_version, record_release_facts,
    release_in,
};
use cosh::health::logs::{
    collect_logs, drop_partial_line, parse_log_header, scan_logs, LogFile, LogKind, LogScan,
    LogSummary,
};
use cosh::health::model::{
    HealthCollector, HealthFact, HealthFactCategory, HealthFactSource, HealthFactValue,
    HealthFinding, HealthFindingCategory, HealthScanReport, HealthSeverity,
    HealthUnavailableReason, UnavailableCollector,
};
use cosh::health::provider::{
    classify_provider, collect_provider, config_value_present, credentials_with_entry,
    provider_credentials_present, AdapterKind, ProviderEntry, ProviderReadiness,
};
use cosh::health::runtime::{
    collect_runtime, is_recent, label_core, label_shell, orphaned, pid_order, recent_crash_records,
    shorten, CrashLog, CrashRecord, CrashSighting, RunProbe, CRASH_WINDOW_MS,
};
use cosh::i18n::{I18n, Language, MessageId};
use cosh::order::{order, sorted_once, SortKey};
use cosh::values::Values;

const NOW: u128 = 1_789_473_600_000;

fn en() -> I18n {
    I18n::new(Language::EnUs)
}

fn env(pairs: &[(&str, &str)]) -> Values {
    let mut values = Values::new();
    for (key, value) in pairs {
        values.insert(key, value);
    }
    values
}

fn bool_fact(report: &HealthScanReport, key: &str) -> Option<bool> {
    report.facts.iter().find(|fact| fact.key == key).map(|fact| {
        match &fact.value {
            HealthFactValue::Bool(value) => *value,
            other => panic!("{key}: {other:?}"),
        }
    })
}

fn number_fact(report: &HealthScanReport, key: &str) -> Option<u64> {
    report.facts.iter().find(|fact| fact.key == key).map(|fact| {
        match &fact.value {
            HealthFactValue::Unsigned(value) => *value,
            other => panic!("{key}: {other:?}"),
        }
    })
}

fn text_fact(report: &HealthScanReport, key: &str) -> Option<String> {
    report.facts.iter().find(|fact| fact.key == key).map(|fact| {
        match &fact.value {
            HealthFactValue::Text(value) => value.clone(),
            other => panic!("{key}: {other:?}"),
        }
    })
}

fn finding<'a>(report: &'a HealthScanReport, id: &str) -> Option<&'a HealthFinding> {
    report.findings.iter().find(|finding| finding.id == id)
}

fn arg<'a>(finding: &'a HealthFinding, name: &str) -> Option<&'a str> {
    finding.arg(name).map(String::as_str)
}

#[test]
fn classify_provider_covers_known_and_unknown_adapters() {
    assert_eq!(classify_provider("fake", false), ProviderReadiness::Ready);
    assert_eq!(
        classify_provider("cosh-core", true),
        ProviderReadiness::Ready
    );
    assert_eq!(
        classify_provider("cosh-core", false),
        ProviderReadiness::MissingCredentials
    );
    assert_eq!(classify_provider("qwen", true), ProviderReadiness::Ready);
    assert_eq!(
        classify_provider("", false),
        ProviderReadiness::UnknownAdapter
    );
    assert_eq!(
        classify_provider("mystery", false),
        ProviderReadiness::UnknownAdapter
    );
    assert_eq!(
        classify_provider("mystery", true),
        ProviderReadiness::UnknownAdapter
    );
}

#[test]
fn adapters_are_known_by_their_names() {
    assert_eq!(AdapterKind::parse("qwen-cli"), Some(AdapterKind::QwenCli));
    assert_eq!(
        AdapterKind::parse("ClaudeCode"),
        Some(AdapterKind::ClaudeCode)
    );
    assert_eq!(AdapterKind::parse("Fake"), None);
    assert_eq!(AdapterKind::parse("qwen cli"), None);
}

#[test]
fn classify_hooks_flags_untrusted_project_only() {
    assert_eq!(classify_hooks(false, true), HooksReadiness::Ready);
    assert_eq!(classify_hooks(true, true), HooksReadiness::Ready);
    assert_eq!(
        classify_hooks(true, false),
        HooksReadiness::ProjectUntrusted
    );
    assert_eq!(classify_hooks(false, false), HooksReadiness::Ready);
}

#[test]
fn classify_permissions_flags_unwritable() {
    assert_eq!(classify_permissions(true), PermissionsReadiness::Ready);
    assert_eq!(
        classify_permissions(false),
        PermissionsReadiness::Unwritable
    );
}

fn summary() -> ConfigSummary {
    ConfigSummary {
        language: "en-US".to_string(),
        adapter_default: "fake".to_string(),
        approval_mode: "ask".to_string(),
    }
}

#[test]
fn collectors_record_checks_without_panicking() {
    let scan = EnvironmentScan {
        summary: summary(),
        env: Values::new(),
        config: None,
        home_present: true,
        config_status: ConfigFileStatus {
            readable: true,
            parseable: true,
        },
        user_hooks: false,
        project: None,
        trusted_roots: Vec::new(),
        pty_available: true,
        state_dir: "/tmp/state".to_string(),
        state_dir_writable: true,
        probes: Vec::new(),
        crashes: Vec::new(),
        logs: scan_logs(&Vec::new(), NOW),
        redacted_error: String::new(),
        core_error_time: String::new(),
        shell_error_time: String::new(),
        now_ms: NOW,
    };
    let mut report = HealthScanReport::new();
    run_env_collectors(&mut report, &scan, 0);
    assert_eq!(
        report.checks_done,
        vec![
            "provider",
            "config",
            "hooks",
            "pty",
            "permissions",
            "runtime",
            "logs",
        ]
    );
    assert!(report.findings.is_empty());
    assert_eq!(report.overall_severity(), HealthSeverity::Healthy);
}

#[test]
fn config_status_flags_invalid_toml_as_unparseable() {
    let ok_status = config_file_status(true, Some("[ui]\nlanguage = \"en-US\"\n".to_string()));
    assert!(ok_status.readable && ok_status.parseable, "{ok_status:?}");

    let bad_status = config_file_status(true, Some("this = = not valid toml\n".to_string()));
    assert!(bad_status.readable, "{bad_status:?}");
    assert!(!bad_status.parseable, "{bad_status:?}");

    let mut report = HealthScanReport::new();
    collect_config(&mut report, true, bad_status, &summary(), 0);
    assert!(
        finding(&report, "env-config").is_some(),
        "invalid TOML must emit an env-config finding"
    );

    let missing = config_file_status(false, None);
    assert!(missing.readable && missing.parseable);
    let unreadable = config_file_status(true, None);
    assert!(!unreadable.readable);
}

#[test]
fn legacy_simple_config_is_not_flagged() {
    let status = config_file_status(true, Some("ui.language = zh-CN\n".to_string()));
    assert!(
        status.readable && status.parseable,
        "legacy simple config must be treated as consumable: {status:?}"
    );
    assert!(config_content_consumable("# only a comment\n"));
    assert!(!config_content_consumable("unknown.key = zh CN\n"));
}

fn core_entry(pid: u32, mode: &str, owner: Option<u32>) -> RunEntry {
    RunEntry {
        kind: "core".to_string(),
        pid,
        ppid: None,
        version: "test".to_string(),
        start_ts_ms: NOW,
        shell_kind: None,
        mode: Some(mode.to_string()),
        session_id: Some("s-1".to_string()),
        core_pid: None,
        owner_shell_pid: owner,
        routing: None,
    }
}

fn shell_entry(pid: u32) -> RunEntry {
    RunEntry {
        kind: "shell".to_string(),
        pid,
        ppid: None,
        version: "test".to_string(),
        start_ts_ms: NOW,
        shell_kind: Some("zsh".to_string()),
        mode: None,
        session_id: Some("s-2".to_string()),
        core_pid: None,
        owner_shell_pid: None,
        routing: None,
    }
}

fn probe(entry: RunEntry, alive: bool, owner_alive: bool) -> RunProbe {
    RunProbe {
        entry,
        alive,
        owner_alive,
        started: "12:00".to_string(),
    }
}

#[test]
fn runtime_collector_reports_crash_stale_and_orphan_findings() {
    let dead_pid = 999_999_u32;
    let live_pid = 4242_u32;
    let crash_line = format!(
        "{{\"ts\":{NOW},\"version\":\"test\",\"pid\":{dead_pid},\"panic\":\"boom\",\"location\":\"t.rs:1\"}}\n"
    );
    let records = recent_crash_records(
        &vec![CrashLog {
            kind: "cosh-shell".to_string(),
            content: crash_line,
        }],
        NOW,
    );
    assert_eq!(records.len(), 1);
    let crashes: Vec<CrashSighting> = records
        .into_iter()
        .map(|record| CrashSighting {
            redacted: record.panic.clone(),
            record,
            time: "12:00".to_string(),
        })
        .collect();
    let probes = vec![
        probe(core_entry(live_pid, "headless", Some(dead_pid)), true, false),
        probe(shell_entry(dead_pid), false, false),
    ];
    let mut report = HealthScanReport::new();
    collect_runtime(&mut report, &probes, &crashes, 0);

    let crash = report
        .findings
        .iter()
        .find(|finding| finding.id.starts_with("env-runtime-crash"))
        .expect("crash finding present");
    assert_eq!(crash.severity, HealthSeverity::Critical);
    assert_eq!(arg(crash, "kind"), Some("cosh-shell"));
    assert_eq!(arg(crash, "panic"), Some("boom"));

    let orphan =
        finding(&report, &format!("env-runtime-orphan-{live_pid}")).expect("orphan finding");
    assert_eq!(orphan.severity, HealthSeverity::Warning);

    let stale = finding(&report, &format!("env-runtime-stale-{dead_pid}")).expect("stale finding");
    assert_eq!(stale.severity, HealthSeverity::Warning);
    assert_eq!(arg(stale, "kind"), Some("cosh-shell"));
    assert_eq!(report.overall_severity(), HealthSeverity::Critical);
}

#[test]
fn runtime_collector_ignores_out_of_window_crashes_and_brokered_cores() {
    let old_ts = NOW - CRASH_WINDOW_MS - 60_000;
    let records = recent_crash_records(
        &vec![CrashLog {
            kind: "cosh-core".to_string(),
            content: format!(
                "{{\"ts\":{old_ts},\"version\":\"test\",\"pid\":1,\"panic\":\"old\"}}\n"
            ),
        }],
        NOW,
    );
    assert!(records.is_empty(), "old crashes must not surface");
    let mut report = HealthScanReport::new();
    collect_runtime(
        &mut report,
        &vec![probe(core_entry(7, "brokered", None), true, false)],
        &Vec::new(),
        0,
    );
    assert!(
        !report
            .findings
            .iter()
            .any(|finding| finding.id.starts_with("env-runtime-orphan")),
        "brokered cores are not orphans"
    );
    assert_eq!(report.overall_severity(), HealthSeverity::Healthy);
}

#[test]
fn crash_records_come_oldest_first_from_whole_documents() {
    let line = |ts: u128, panic: &str| format!("{{\"ts\":{ts},\"panic\":\"{panic}\"}}\n");
    let records = recent_crash_records(
        &vec![
            CrashLog {
                kind: "cosh-shell".to_string(),
                content: format!("torn line\n{}{}", line(NOW - 5, "a"), line(NOW - 1, "b")),
            },
            CrashLog {
                kind: "cosh-core".to_string(),
                content: line(NOW - 3, "c"),
            },
        ],
        NOW,
    );
    let order: Vec<&str> = records.iter().map(|record| record.panic.as_str()).collect();
    assert_eq!(order, vec!["a", "c", "b"]);
    assert!(is_recent(NOW - CRASH_WINDOW_MS, NOW));
    assert!(!is_recent(NOW - CRASH_WINDOW_MS - 1, NOW));
    assert_eq!(shorten("abcdef", 6), "abcdef");
    assert_eq!(shorten("abcdefg", 6).chars().count(), 7);
    assert_eq!(CRASH_WINDOW_MS, 24 * 60 * 60 * 1000);
}

#[test]
fn owners_decide_who_is_orphaned() {
    assert!(orphaned(&probe(core_entry(1, "headless", Some(2)), true, false)));
    assert!(!orphaned(&probe(core_entry(1, "headless", Some(2)), true, true)));
    assert!(!orphaned(&probe(core_entry(1, "brokered", None), true, false)));
    assert_eq!(
        pid_order(&vec![
            probe(shell_entry(30), true, true),
            probe(shell_entry(10), true, true),
            probe(shell_entry(20), true, true),
        ]),
        vec![1, 2, 0]
    );
    assert_eq!(label_shell(&shell_entry(30)), "30 (zsh)");
    assert_eq!(
        label_core(&core_entry(31, "headless", None)),
        "31 (session s-1)"
    );
}

fn header_line(ts_ms: u128, level: &str, message: &str) -> String {
    let ts = chrono::DateTime::from_timestamp_millis(ts_ms as i64)
        .expect("valid timestamp")
        .to_rfc3339();
    format!("{ts} {level} cosh_core::adapter: {message}\n")
}

fn log(kind: LogKind, text: String) -> LogFile {
    LogFile {
        kind,
        text,
        written_ms: Some(NOW),
    }
}

#[test]
fn logs_collector_counts_recent_errors_and_warns() {
    let mut core_log = String::new();
    core_log.push_str(&header_line(
        NOW - 60_000,
        "ERROR",
        "turn failed token=sk-1234",
    ));
    core_log.push_str(&header_line(NOW - 30_000, "ERROR", "turn failed again"));
    core_log.push_str(&header_line(NOW - 10_000, "WARN", "retry scheduled"));
    core_log.push_str("  this is a continuation line\n");
    core_log.push_str("not a log header\n");
    let shell_log = header_line(NOW - 5_000, "WARN", "slow prompt");
    let scanned = scan_logs(
        &vec![
            log(LogKind::Core, core_log),
            log(LogKind::Shell, shell_log),
        ],
        NOW,
    );
    let (latest_ts, latest) = scanned.latest().expect("latest error");
    assert_eq!(latest_ts, NOW - 30_000);
    assert!(latest.contains("turn failed again"));

    let mut report = HealthScanReport::new();
    collect_logs(&mut report, &scanned, NOW, &latest, "11:59", "", 0);
    assert_eq!(bool_fact(&report, "logs.present"), Some(true));
    assert_eq!(number_fact(&report, "logs.warns_24h"), Some(2));
    assert_eq!(number_fact(&report, "logs.errors_24h"), Some(2));
    assert!(
        text_fact(&report, "logs.error_sample")
            .expect("sample")
            .contains("turn failed again"),
        "sample must be the latest error"
    );
    let errors = finding(&report, "env-logs-errors-cosh-core").expect("core errors finding");
    assert_eq!(errors.severity, HealthSeverity::Warning);
    assert_eq!(arg(errors, "count"), Some("2"));
    assert_eq!(arg(errors, "file"), Some("cosh-core.log"));
    assert_eq!(errors.title_id, MessageId::HealthFindingRecentErrors);
    assert_eq!(errors.detail_id, Some(MessageId::HealthRemediationLogs));
    assert!(errors
        .evidence_fact_ids
        .iter()
        .any(|id| id == "logs.error_sample"));
    assert!(
        !report
            .findings
            .iter()
            .any(|finding| finding.id.starts_with("env-logs-warn-flood")),
        "2 WARN lines are below the flood threshold"
    );
    assert_eq!(report.overall_severity(), HealthSeverity::Warning);
}

#[test]
fn logs_collector_ignores_old_lines_and_missing_files() {
    let old = header_line(NOW - CRASH_WINDOW_MS - 60_000, "ERROR", "old failure");
    let scanned = scan_logs(&vec![log(LogKind::Shell, old)], NOW);
    let mut report = HealthScanReport::new();
    collect_logs(&mut report, &scanned, NOW, "", "", "", 0);
    assert_eq!(number_fact(&report, "logs.errors_24h"), Some(0));
    assert!(report
        .findings
        .iter()
        .all(|finding| !finding.id.starts_with("env-logs-errors")));
    assert_eq!(report.overall_severity(), HealthSeverity::Healthy);

    let mut empty = HealthScanReport::new();
    collect_logs(&mut empty, &scan_logs(&Vec::new(), NOW), NOW, "", "", "", 0);
    assert_eq!(bool_fact(&empty, "logs.present"), Some(false));
    assert!(empty.findings.is_empty());
    assert_eq!(empty.overall_severity(), HealthSeverity::Healthy);
}

#[test]
fn warn_floods_are_found_and_cut_lines_dropped() {
    let flood: String = (0..101)
        .map(|i| header_line(NOW - 1_000 - i, "WARN", "retry"))
        .collect();
    let scanned = scan_logs(&vec![log(LogKind::Core, flood)], NOW);
    let mut report = HealthScanReport::new();
    collect_logs(&mut report, &scanned, NOW, "", "", "", 0);
    assert!(report
        .findings
        .iter()
        .any(|finding| finding.id.starts_with("env-logs-warn-flood")));
    assert_eq!(drop_partial_line("rest of a line\nwhole\n", true), "whole\n");
    assert_eq!(drop_partial_line("whole\n", false), "whole\n");
    assert_eq!(drop_partial_line("part of one long line", true), "");
    assert_eq!(drop_partial_line("one line", false), "one line");
    assert_eq!(drop_partial_line("rest of the last line\n", true), "");
    assert_eq!(
        parse_log_header(header_line(NOW - 1, "ERROR", "x").trim_end(), NOW),
        Some((true, NOW - 1))
    );
    assert_eq!(
        parse_log_header(header_line(NOW - 1, "INFO", "x").trim_end(), NOW),
        None
    );
    assert_eq!(parse_log_header("not a log header", NOW), None);
    assert_eq!(LogKind::Core.file(), "cosh-core.log");
    assert_eq!(
        LogKind::Shell.dated_file("2026-09-15"),
        "cosh-shell.log.2026-09-15"
    );
}

const ALIYUN: &str =
    "[ai]\nactive_provider = \"default\"\n\n[ai.providers.default]\ntype = \"aliyun\"\n";

#[test]
fn cosh_core_requires_both_access_key_id_and_secret() {
    assert!(
        !provider_credentials_present(
            "cosh-core",
            &env(&[("ALIBABA_CLOUD_ACCESS_KEY_ID", "id-only")]),
            Some(ALIYUN)
        ),
        "access key id alone must not be treated as ready"
    );
    assert!(
        provider_credentials_present(
            "cosh-core",
            &env(&[
                ("ALIBABA_CLOUD_ACCESS_KEY_ID", "id-only"),
                ("ALIBABA_CLOUD_ACCESS_KEY_SECRET", "secret"),
            ]),
            Some(ALIYUN)
        ),
        "AK id + secret must be treated as ready for aliyun provider type"
    );
}

#[test]
fn cosh_core_api_key_env_satisfies_non_aliyun_provider() {
    for key in [
        ("DASHSCOPE_API_KEY", "sk-test"),
        ("OPENAI_API_KEY", "sk-openai"),
    ] {
        assert!(provider_credentials_present("cosh-core", &env(&[key]), None));
    }
    assert!(!provider_credentials_present(
        "cosh-core",
        &env(&[("OPENAI_API_KEY", "  ")]),
        None
    ));
}

#[test]
fn aliyun_provider_type_ignores_api_key_in_config() {
    assert!(
        !provider_credentials_present(
            "cosh-core",
            &env(&[]),
            Some("[ai]\nactive_provider = \"default\"\n\n[ai.providers.default]\ntype = \"aliyun\"\napi_key = \"sk-test\"\n")
        ),
        "aliyun provider_type with only api_key must not satisfy readiness"
    );
    assert!(
        provider_credentials_present(
            "cosh-core",
            &env(&[]),
            Some("[ai]\nactive_provider = \"default\"\n\n[ai.providers.default]\ntype = \"dashscope\"\napi_key = \"sk-test\"\n")
        ),
        "generic provider_type with api_key must satisfy readiness"
    );
}

#[test]
fn unknown_adapter_is_never_ready_even_with_generic_key() {
    assert!(
        !provider_credentials_present(
            "not-a-real-adapter",
            &env(&[("OPENAI_API_KEY", "sk-fake")]),
            None
        ),
        "an unregistered adapter must not be satisfied by a generic key"
    );
    assert_eq!(
        classify_provider("not-a-real-adapter", true),
        ProviderReadiness::UnknownAdapter
    );
}

#[test]
fn cosh_core_credentials_from_config_toml_are_recognized() {
    for config in [
        "[ai]\nactive_provider = \"aliyun\"\n\n[ai.providers.aliyun]\ntype = \"aliyun\"\naccess_key_id = \"manual-ak\"\naccess_key_secret = \"manual-sk\"\n",
        "[ai]\nactive_provider = \"aliyun\"\n\n[ai.providers.aliyun]\ntype = \"aliyun\"\nauth_source = \"ecs_ram_role\"\n",
    ] {
        assert!(provider_credentials_present("cosh-core", &env(&[]), Some(config)));
    }
}

#[test]
fn non_active_provider_credentials_are_ignored() {
    assert!(
        !provider_credentials_present(
            "cosh-core",
            &env(&[]),
            Some("[ai]\nactive_provider = \"default\"\n\n[ai.providers.aliyun]\naccess_key_id = \"ak\"\naccess_key_secret = \"sk\"\n")
        ),
        "credentials on a non-active provider must not satisfy readiness"
    );
}

#[test]
fn aliyun_provider_type_env_openai_key_is_not_ready() {
    assert!(
        !provider_credentials_present(
            "cosh-core",
            &env(&[("OPENAI_API_KEY", "sk-fake")]),
            Some(ALIYUN)
        ),
        "aliyun provider_type must ignore OPENAI_API_KEY env var"
    );
}

#[test]
fn cosh_ai_provider_env_overrides_active_provider() {
    let config = "[ai]\nactive_provider = \"default\"\n\n[ai.providers.default]\ntype = \"aliyun\"\n\n[ai.providers.generic]\ntype = \"openai_compat\"\napi_key = \"sk-test\"\n";
    assert!(
        provider_credentials_present(
            "cosh-core",
            &env(&[("COSH_AI_PROVIDER", "generic")]),
            Some(config)
        ),
        "COSH_AI_PROVIDER override to generic provider with api_key must satisfy readiness"
    );
    assert!(
        !provider_credentials_present(
            "cosh-core",
            &env(&[("COSH_AI_PROVIDER", "default")]),
            Some(config)
        ),
        "COSH_AI_PROVIDER override to aliyun without AK/SK must not satisfy readiness"
    );
}

#[test]
fn configured_values_may_name_variables() {
    let values = env(&[("KEY", "sk"), ("BLANK", " ")]);
    assert!(config_value_present("literal", &values));
    assert!(config_value_present("${KEY}", &values));
    assert!(config_value_present(" $KEY ", &values));
    assert!(!config_value_present("$BLANK", &values));
    assert!(!config_value_present("${MISSING}", &values));
    assert!(!config_value_present("  ", &values));
    let entry = ProviderEntry {
        provider_type: Some("mock".to_string()),
        auth_source: None,
        access_key_id: None,
        access_key_secret: None,
        api_key: None,
    };
    assert!(credentials_with_entry("cosh-core", &env(&[]), &Some(entry)));
    assert!(!credentials_with_entry("cosh-core", &env(&[]), &None));
    assert!(credentials_with_entry("fake", &env(&[]), &None));
}

#[test]
fn environment_collectors_report_what_is_missing() {
    let mut report = HealthScanReport::new();
    collect_provider(&mut report, "cosh-core", false, 0);
    collect_provider(&mut report, "mystery", true, 0);
    collect_hooks(&mut report, false, &Some("/p".to_string()), &Vec::new(), 0);
    collect_pty(&mut report, false, 0);
    collect_permissions(&mut report, "/state", false, 0);
    assert_eq!(report.checks_done.len(), 5);
    assert_eq!(report.findings.len(), 5);
    assert_eq!(doctor_status(&report), DoctorStatus::Warning);
    assert!(is_trusted_root("/p", &vec!["/p".to_string()]));
    assert!(!is_trusted_root("/p", &vec!["/q".to_string()]));
    let unknown = finding_remediation(&report.findings[1], en()).expect("remediation");
    assert!(unknown.contains("'mystery'"), "{unknown}");
}

#[test]
fn kernel_release_decides_openat2_support() {
    assert_eq!(
        kernel_supports_openat2("4.19.112-2.el8.x86_64"),
        Some(false)
    );
    assert_eq!(
        kernel_supports_openat2("4.18.0-553.el8_10.x86_64"),
        Some(false)
    );
    assert_eq!(
        kernel_supports_openat2("3.10.0-1160.el7.x86_64"),
        Some(false)
    );
    assert_eq!(
        kernel_supports_openat2("5.5.9-200.fc31.x86_64"),
        Some(false)
    );
    assert_eq!(kernel_supports_openat2("5.6.0"), Some(true));
    assert_eq!(kernel_supports_openat2("5.6.19-hardened"), Some(true));
    assert_eq!(
        kernel_supports_openat2("5.10.134-16.al8.x86_64"),
        Some(true)
    );
    assert_eq!(kernel_supports_openat2("6.6.0-rc1-generic"), Some(true));
    assert_eq!(kernel_supports_openat2("6"), Some(true));
}

#[test]
fn unparsable_kernel_release_stays_unknown() {
    for release in ["", "   ", "garbage", "unknown", ".5.6", "-1.2"] {
        assert_eq!(parse_kernel_version(release), None, "{release}");
        assert_eq!(kernel_supports_openat2(release), None, "{release}");
    }
}

#[test]
fn parse_kernel_version_reads_major_and_minor_only() {
    assert_eq!(parse_kernel_version("4.19.112-2.el8.x86_64"), Some((4, 19)));
    assert_eq!(
        parse_kernel_version("5.10.134-16.al8.x86_64"),
        Some((5, 10))
    );
    assert_eq!(parse_kernel_version("6.6"), Some((6, 6)));
    assert_eq!(parse_kernel_version("6"), Some((6, 0)));
}

#[test]
fn confinement_facts_follow_the_parsed_release() {
    let report_for = |release: &str| {
        let mut report = HealthScanReport::new();
        record_release_facts(&mut report, release, 0);
        report
    };

    let unsupported = report_for("4.19.112-2.el8.x86_64");
    assert_eq!(
        text_fact(&unsupported, "kernel.release").as_deref(),
        Some("4.19.112-2.el8.x86_64")
    );
    assert!(unsupported
        .facts
        .iter()
        .any(|fact| fact.key == "kernel.release"
            && fact.source == HealthFactSource::ProcSysKernel));
    assert_eq!(
        bool_fact(&unsupported, "kernel.openat2_supported"),
        Some(false)
    );

    let supported = report_for("5.10.134-16.al8.x86_64");
    assert_eq!(
        bool_fact(&supported, "kernel.openat2_supported"),
        Some(true)
    );

    let unknown = report_for("garbage");
    assert!(text_fact(&unknown, "kernel.release").is_some());
    assert_eq!(bool_fact(&unknown, "kernel.openat2_supported"), None);
    assert_eq!(release_in("6.6.0\n").as_deref(), Some("6.6.0"));
    assert_eq!(release_in(" \n"), None);
}

fn confinement_report(facts: Vec<HealthFact>) -> HealthScanReport {
    let mut report = HealthScanReport::new();
    report.facts = facts;
    apply_confinement_rule(&mut report);
    report
}

fn openat2_fact(supported: bool) -> HealthFact {
    HealthFact {
        category: HealthFactCategory::Kernel,
        key: "kernel.openat2_supported".to_string(),
        value: HealthFactValue::Bool(supported),
        source: HealthFactSource::Derived,
        elapsed_ms: 0,
    }
}

fn release_fact(release: &str) -> HealthFact {
    HealthFact {
        category: HealthFactCategory::Kernel,
        key: "kernel.release".to_string(),
        value: HealthFactValue::Text(release.to_string()),
        source: HealthFactSource::ProcSysKernel,
        elapsed_ms: 0,
    }
}

#[test]
fn missing_openat2_is_a_critical_finding_carrying_kernel_context() {
    let report = confinement_report(vec![
        openat2_fact(false),
        release_fact("4.19.112-2.el8.x86_64"),
    ]);

    let confinement = finding(&report, "J17").expect("J17 finding");
    assert_eq!(confinement.severity, HealthSeverity::Critical);
    assert_eq!(report.overall_severity(), HealthSeverity::Critical);
    assert_eq!(
        confinement.title_id,
        MessageId::HealthFindingWorkspaceConfinementUnsupported
    );
    assert_eq!(
        confinement.detail_id,
        Some(MessageId::HealthRemediationWorkspaceConfinement)
    );
    assert_eq!(arg(confinement, "kernel"), Some("4.19.112-2.el8.x86_64"));
    assert_eq!(arg(confinement, "required"), Some("5.6"));
    assert_eq!(
        confinement.evidence_fact_ids,
        vec![
            "kernel.openat2_supported".to_string(),
            "kernel.release".to_string()
        ]
    );
}

#[test]
fn supported_or_unknown_kernel_adds_no_confinement_finding() {
    let supported = confinement_report(vec![
        openat2_fact(true),
        release_fact("5.10.134-16.al8.x86_64"),
    ]);
    assert!(supported.findings.is_empty());

    let unknown = confinement_report(vec![release_fact("garbage")]);
    assert!(unknown.findings.is_empty());
}

#[test]
fn confinement_messages_render_kernel_and_requirement_in_both_languages() {
    let report = confinement_report(vec![
        openat2_fact(false),
        release_fact("4.19.112-2.el8.x86_64"),
    ]);
    let finding = finding(&report, "J17").expect("J17 finding");

    for language in [Language::EnUs, Language::ZhCn] {
        let i18n = I18n::new(language);
        let args: Vec<(&str, &str)> = finding
            .detail_args
            .iter()
            .map(|(key, value)| (key.as_str(), value.as_str()))
            .collect();
        let title = i18n.format(finding.title_id, &args);
        let remediation = finding_remediation(finding, i18n).expect("remediation");

        assert!(title.contains("5.6"), "{title}");
        assert!(
            remediation.contains("4.19.112-2.el8.x86_64"),
            "{remediation}"
        );
        assert!(remediation.contains("5.6"), "{remediation}");
        for text in [&title, &remediation] {
            assert!(!text.contains('{'), "unrendered placeholder: {text}");
            assert!(!text.trim().is_empty(), "{text}");
        }
    }
}

fn header() -> DoctorHeader {
    DoctorHeader {
        version: "1.0".to_string(),
        host: "linux x86_64".to_string(),
        probes: Vec::new(),
        logs: LogsHeader {
            level: "info".to_string(),
            any_file: false,
            last: None,
            core: None,
            shell: None,
            core_time: String::new(),
            shell_time: String::new(),
        },
        crashes: Vec::new(),
    }
}

fn warning_finding() -> HealthFinding {
    HealthFinding {
        id: "env-provider".to_string(),
        severity: HealthSeverity::Warning,
        category: HealthFindingCategory::Observation,
        title_id: MessageId::HealthFindingProviderUnconfigured,
        detail_id: Some(MessageId::HealthRemediationProvider),
        detail_args: vec![("adapter".to_string(), "cosh-core".to_string())],
        evidence_fact_ids: vec!["provider.adapter".to_string()],
    }
}

#[test]
fn healthy_report_renders_all_passed_and_exit_zero() {
    let mut report = HealthScanReport::new();
    report.checks_done.push("provider".to_string());
    assert_eq!(report_exit_code(&report), 0);

    let joined = format_doctor_report_plain(&header(), &report, en()).join("\n");
    assert!(joined.contains("status: healthy"), "{joined}");
    assert!(joined.contains("all checks passed"), "{joined}");
    assert!(joined.contains("checks: provider"), "{joined}");
    assert!(!joined.contains("next step:"), "{joined}");
}

#[test]
fn warning_finding_renders_remediation_and_exit_one() {
    let mut report = HealthScanReport::new();
    report.findings.push(warning_finding());
    assert_eq!(report_exit_code(&report), 1);

    let joined = format_doctor_report_plain(&header(), &report, en()).join("\n");
    assert!(joined.contains("status: warning"), "{joined}");
    assert!(joined.contains("[warning]"), "{joined}");
    assert!(joined.contains("remediation:"), "{joined}");
    assert!(joined.contains("cosh-core"), "{joined}");
    assert!(joined.contains("next step:"), "{joined}");
}

#[test]
fn critical_finding_renders_error_status_and_exit_two() {
    let mut report = HealthScanReport::new();
    report.findings.push(HealthFinding {
        id: "kernel".to_string(),
        severity: HealthSeverity::Critical,
        category: HealthFindingCategory::RootCause,
        title_id: MessageId::HealthFindingKernelPanic,
        detail_id: None,
        detail_args: Vec::new(),
        evidence_fact_ids: Vec::new(),
    });
    assert_eq!(report_exit_code(&report), 2);

    let joined = format_doctor_report_plain(&header(), &report, en()).join("\n");
    assert!(joined.contains("status: error"), "{joined}");
    assert!(joined.contains("[critical]"), "{joined}");
}

#[test]
fn partially_unavailable_report_renders_warning_status() {
    let mut report = HealthScanReport::new();
    report.unavailable.push(UnavailableCollector {
        collector: HealthCollector::Provider,
        reason: HealthUnavailableReason::CommandMissing,
        severity: HealthSeverity::Unavailable,
    });
    assert_eq!(report_exit_code(&report), 1);

    let joined = format_doctor_report_plain(&header(), &report, en()).join("\n");
    assert!(joined.contains("status: warning"), "{joined}");
    assert!(joined.contains("provider:"), "{joined}");
    assert!(joined.contains("command missing"), "{joined}");
    assert_eq!(collector_token(HealthCollector::Provider), "provider");
    assert!(en()
        .t(unavailable_reason_message(
            HealthUnavailableReason::CommandMissing
        ))
        .contains("command missing"));
}

#[test]
fn static_facts_render_from_run_registry_logs_and_crashes() {
    let pid = 4242_u32;
    let mut shell = shell_entry(pid);
    shell.session_id = Some("abcd1234".to_string());
    shell.core_pid = Some(pid);
    shell.routing = Some(RoutingFacts {
        ai_enabled: true,
        integration: "enhanced".to_string(),
        ..RoutingFacts::unknown()
    });
    let mut core = core_entry(pid, "persistent", Some(pid));
    core.session_id = Some("session-abcdefgh".to_string());
    let text = header_line(NOW - 1_000, "ERROR", "provider timeout");
    let logs = scan_logs(&vec![log(LogKind::Core, text)], NOW);
    let facts = DoctorHeader {
        probes: vec![probe(shell, true, false), probe(core, true, true)],
        logs: LogsHeader {
            level: "info".to_string(),
            any_file: logs.any_file,
            last: Some("12:00".to_string()),
            core: logs.core,
            shell: logs.shell,
            core_time: "11:59".to_string(),
            shell_time: String::new(),
        },
        crashes: vec![CrashTime {
            kind: "cosh-shell".to_string(),
            time: "11:58".to_string(),
        }],
        ..header()
    };
    let report = HealthScanReport::new();
    let joined = format_doctor_report_plain(&facts, &report, en()).join("\n");
    assert!(joined.contains("version: cosh-shell"), "{joined}");
    assert!(joined.contains("host: "), "{joined}");
    assert!(
        joined.contains(&format!(
            "1 shell (pid {pid}) + core (pid {pid}, session session-…"
        )),
        "{joined}"
    );
    assert!(joined.contains("ai=enabled"), "{joined}");
    assert!(joined.contains("integration=enhanced"), "{joined}");
    assert!(joined.contains("24h errors: 1 (core, last"), "{joined}");
    assert!(
        joined.contains("1 in the last 24h (cosh-shell,"),
        "{joined}"
    );
    assert!(!joined.contains("next step:"), "{joined}");
    let lines = render_static_facts(&facts, en());
    assert!(joined.contains(&lines.join("\n")));
    assert!(!runtime_summary(&facts.probes).is_empty());
    assert!(lines.contains(&logs_line(&facts.logs, en())));
    assert!(lines.contains(&crashes_line(&facts.crashes, en())));
    assert!(routing_line(&facts.probes, en()).contains("integration=enhanced"));
    assert_eq!(short_session("session-abcdefgh"), "session-…");
    assert_eq!(short_session("abcd1234"), "abcd1234");
    assert!(short_time("2026-09-15 12:34:56").contains("12:34"));
}

#[test]
fn the_worst_severity_counts() {
    let mut report = HealthScanReport::new();
    assert_eq!(report.overall_severity(), HealthSeverity::Healthy);
    report.findings.push(warning_finding());
    report.unavailable.push(UnavailableCollector {
        collector: HealthCollector::Logs,
        reason: HealthUnavailableReason::Timeout,
        severity: HealthSeverity::Unavailable,
    });
    assert_eq!(report.overall_severity(), HealthSeverity::Warning);
    assert_eq!(doctor_status(&report).token(), "warning");
    assert!(HealthSeverity::Critical.precedence() > HealthSeverity::Warning.precedence());
    assert_eq!(HealthSeverity::Critical.label(), "critical");
}

#[test]
fn scans_keep_the_latest_error() {
    let mut scan = LogScan::new();
    scan.count_text(&header_line(NOW - 5, "ERROR", "first"), NOW);
    scan.count_text(&header_line(NOW - 9, "ERROR", "older"), NOW);
    let copied = scan.copy();
    assert_eq!(copied.errors, 2);
    assert!(copied.last_error.expect("error").1.contains("first"));
    let none = LogSummary {
        any_file: false,
        last_write_ms: 0,
        core: None,
        shell: None,
    };
    assert!(none.latest().is_none());
    let record = CrashRecord {
        kind: "k".to_string(),
        ts_ms: 1,
        panic: "p".to_string(),
    };
    assert_eq!(record.panic, "p");
}

#[test]
fn orders_are_stable_and_go_up() {
    let key = |rank: u128, text: &str| SortKey {
        rank,
        text: text.to_string(),
    };
    assert_eq!(
        order(&vec![key(2, "a"), key(1, "b"), key(2, "a"), key(1, "a")]),
        vec![3, 1, 0, 2]
    );
    assert_eq!(
        sorted_once(&vec!["b".to_string(), "a".to_string(), "b".to_string()]),
        vec!["a", "b"]
    );
}

#[test]
fn zh_catalog_uses_one_word_for_compose() {
    let zh = I18n::new(Language::ZhCn);
    for id in MessageId::all() {
        let value = zh.t(id);
        assert!(!value.contains("组稿"), "{id:?} still uses 组稿: {value}");
    }
}

fn slots_of(text: &str) -> BTreeSet<&str> {
    text.split('{')
        .skip(1)
        .map(|rest| rest.split('}').next().unwrap_or(rest))
        .collect()
}

#[test]
fn catalogs_are_complete_and_distinct_by_position() {
    let all = MessageId::all();
    for (index, id) in all.iter().enumerate() {
        assert_eq!(*id as usize, index);
        for language in [Language::EnUs, Language::ZhCn] {
            assert!(!I18n::new(language).t(*id).is_empty(), "{id:?}");
        }
        assert_eq!(
            slots_of(I18n::new(Language::EnUs).t(*id)),
            slots_of(I18n::new(Language::ZhCn).t(*id)),
            "{id:?}"
        );
    }
    assert_eq!(
        slots_of(I18n::new(Language::ZhCn).t(MessageId::HealthFindingWarnFlood)),
        ["count", "file"].into()
    );
    assert_eq!(
        en().format(
            MessageId::HealthFindingWarnFlood,
            &[("count", "120"), ("file", "cosh-core.log")]
        ),
        "120 WARN entries in cosh-core.log within 24h (retry loop?)"
    );
}
