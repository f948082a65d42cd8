use cosh::diagnostics::crash::{
    append_bounded, backtrace_summary, crash_line, keep_tail, must_shrink, panic_location,
    panic_message, CrashReport, MAX_LOG_BYTES,
};
use cosh::diagnostics::registry::{
    core_entry, entry_name, is_reaped, RunEntry, SessionFacts, ShellRegistry, STALE_ENTRY_MAX_AGE,
};
use cosh::diagnostics::upgrade::{
    anolisa_candidate_for_managed_executable, cache_for, cache_is_readable, choose_manager,
    classify_package_manager_output, closes_directory, compare_versions, parse_anolisa_output,
    parse_package_candidate, parse_rpm_package_name, read_cached_notice,
    startup_upgrade_check_enabled, Capture, DetectionMethod, ProbeMessage, SearchAction,
    SearchEvent, StartupUpgradeState, UpgradeCache, UpgradeNotice, UpgradeSearch, UpgradeVerdict,
    VersionOrder, MAX_PIPE_OUTPUT_BYTES,
};
use cosh::gateway::{error_response, GatewayDaemonError, StoreError};

fn json(line: &str) -> serde_json::Value {
    serde_json::from_str(line).expect("json")
}

#[test]
fn append_bounded_truncates_oldest_content_after_overflow() {
    let seed = vec![b'x'; MAX_LOG_BYTES as usize];
    let content = append_bounded(&seed, &b"new\n".to_vec());
    assert!(content.len() < MAX_LOG_BYTES as usize, "{}", content.len());
    assert!(content.ends_with(b"new\n"));
}

#[test]
fn append_bounded_keeps_whole_lines_of_the_newer_half() {
    let mut log = Vec::new();
    while log.len() + 10 <= MAX_LOG_BYTES as usize {
        log.extend_from_slice(format!("{:09}\n", log.len()).as_bytes());
    }
    let kept = keep_tail(&log);
    assert!(log.ends_with(&kept));
    assert_eq!(log[log.len() - kept.len() - 1], b'\n');
    assert!(kept.len() <= 524_288 && kept.len() > 524_270);
    let after = append_bounded(&log, &b"a longer newest line\n".to_vec());
    assert_eq!(after.len(), kept.len() + 21);
    assert!(after.len() as u64 <= MAX_LOG_BYTES);
    assert_eq!(append_bounded(&b"a\n".to_vec(), &b"b\n".to_vec()), b"a\nb\n");
    assert!(keep_tail(&b"no line break".to_vec()).is_empty());
    assert!(keep_tail(&b"\xff\nno text\n".to_vec()).is_empty());
    assert_eq!(keep_tail(&b"a\nb\n".to_vec()), b"b\n");
    assert!(!must_shrink(MAX_LOG_BYTES - 4, 4));
    assert!(must_shrink(MAX_LOG_BYTES - 4, 5));
    assert!(must_shrink(u64::MAX, 1));
}

#[test]
fn crash_lines_name_the_panic() {
    assert_eq!(panic_message(Some("boom".to_string())), "boom");
    assert_eq!(panic_message(None), "non-string panic payload");
    assert_eq!(panic_location("src/x.rs", 42), "src/x.rs:42");
    let many: String = (0..20).map(|i| format!("frame {i}\n")).collect();
    assert_eq!(backtrace_summary(&many).len(), 8);
    assert_eq!(backtrace_summary(&many)[7], "frame 7");
    assert_eq!(backtrace_summary("one\ntwo").len(), 2);
    let line = crash_line(&CrashReport {
        ts: 7,
        version: "1.0".to_string(),
        pid: 9,
        panic: "boom \"quoted\"".to_string(),
        location: None,
        backtrace: vec!["f".to_string(), "g".to_string()],
    });
    assert!(line.ends_with("}\n"));
    let value = json(&line);
    assert_eq!(value["ts"], 7);
    assert_eq!(value["pid"], 9);
    assert_eq!(value["panic"], "boom \"quoted\"");
    assert!(value["location"].is_null());
    assert_eq!(value["backtrace"][1], "g");
    assert_eq!(value["version"], "1.0");
}

fn session(shell: &str, id: &str, ai: bool, integration: &str, assistance: bool) -> SessionFacts {
    SessionFacts {
        pid: 77,
        ppid: 1,
        version: "test".to_string(),
        start_ts_ms: 5,
        shell_kind: shell.to_string(),
        session_id: id.to_string(),
        ai_enabled: ai,
        integration: integration.to_string(),
        assistance_enabled: assistance,
    }
}

#[test]
fn record_remove_and_reread_roundtrip() {
    let mut registry = ShellRegistry::new();
    assert!(registry.remove_shell().is_none());
    registry.record_shell(session("zsh", "session-1", true, "enhanced", true));
    let entry = registry.entry().expect("entry");
    assert_eq!(entry.kind, "shell");
    assert_eq!(entry.pid, 77);
    assert_eq!(entry.session_id.as_deref(), Some("session-1"));
    assert_eq!(entry.shell_kind.as_deref(), Some("zsh"));
    let facts = entry.routing.as_ref().unwrap();
    assert!(facts.ai_enabled);
    assert_eq!(facts.assistance_enabled, Some(true));
    assert_eq!(registry.remove_shell().as_deref(), Some("shell-77.json"));
    assert!(registry.entry().is_none());
}

#[test]
fn routing_updates_rewrite_the_entry() {
    let mut registry = ShellRegistry::new();
    assert!(!registry.update_core_pid(1));
    assert!(!registry.update_assistance(true));
    registry.record_shell(session("bash", "session-2", false, "native", false));
    assert!(registry.update_core_pid(4242));
    assert!(!registry.update_core_pid(4242));
    assert!(registry.update_assistance(true));
    assert!(registry.update_marker_generation(7));
    let entry = registry.entry().expect("shell entry present");
    assert_eq!(entry.core_pid, Some(4242));
    let facts = entry.routing.as_ref().unwrap();
    assert_eq!(facts.assistance_enabled, Some(true));
    assert_eq!(facts.marker_generation, Some(7));
    assert_eq!(facts.integration, "native");
    assert_eq!(entry.pid, 77);
}

fn shell_entry(pid: u32, start_ts_ms: u128) -> RunEntry {
    RunEntry {
        kind: "shell".to_string(),
        pid,
        ppid: None,
        version: "test".to_string(),
        start_ts_ms,
        shell_kind: Some("zsh".to_string()),
        mode: None,
        session_id: Some("stale".to_string()),
        core_pid: None,
        owner_shell_pid: None,
        routing: None,
    }
}

#[test]
fn cleanup_stale_reaps_only_dead_entries_older_than_a_week() {
    let now: u128 = 10 * STALE_ENTRY_MAX_AGE;
    let fresh_dead = shell_entry(999_999, now);
    let old_dead = shell_entry(999_998, now - (STALE_ENTRY_MAX_AGE + 1000));
    assert!(!is_reaped(&fresh_dead, false, now));
    assert!(is_reaped(&old_dead, false, now));
    assert!(!is_reaped(&old_dead, true, now));
    assert!(!is_reaped(&shell_entry(1, now + 1), false, now));
    assert_eq!(STALE_ENTRY_MAX_AGE, 7 * 24 * 60 * 60 * 1000);
}

#[test]
fn core_entries_name_their_owner() {
    assert_eq!(entry_name("core", 12), "core-12.json");
    let line = core_entry(12, "1.0", 99, "persistent", "s-1", &Some("34".to_string()));
    let value = json(&line);
    assert_eq!(value["kind"], "core");
    assert_eq!(value["pid"], 12);
    assert_eq!(value["start_ts_ms"], 99);
    assert_eq!(value["mode"], "persistent");
    assert_eq!(value["session_id"], "s-1");
    assert_eq!(value["owner_shell_pid"], 34);
    for owner in [None, Some("x".to_string()), Some("4294967296".to_string())] {
        let value = json(&core_entry(12, "1.0", 99, "m", "s", &owner));
        assert!(value["owner_shell_pid"].is_null());
    }
}

fn notice(verdict: Option<UpgradeVerdict>) -> Option<UpgradeNotice> {
    match verdict {
        Some(UpgradeVerdict::Upgrade(notice)) => Some(notice),
        _ => None,
    }
}

#[test]
fn anolisa_preview_compares_target_with_running_version() {
    let json = br#"{"ok":true,"data":{"package":"cosh-ng","to_version":"1.3.0","updated":false,"plan":["replace"]}}"#;
    let found = notice(parse_anolisa_output(json, "cosh-ng", "1.2.3")).expect("upgrade");
    assert_eq!(found.package, "cosh-ng");
    assert_eq!(found.current, "1.2.3");
    assert_eq!(found.latest, "1.3.0");
    assert_eq!(found.command, "anolisa update cosh-ng");
}

#[test]
fn anolisa_noop_accepts_omitted_version_fields() {
    let no_versions = br#"{"ok":true,"data":{"updated":false,"plan":[]}}"#;
    assert!(matches!(
        parse_anolisa_output(no_versions, "cosh-ng", "1.2.3"),
        Some(UpgradeVerdict::UpToDate)
    ));
}

#[test]
fn anolisa_target_not_newer_than_running_version_is_up_to_date() {
    for latest in ["0.26.0", "0.25.0"] {
        let json = format!(
            r#"{{"ok":true,"data":{{"from_version":"0.24.1","to_version":"{latest}","plan":["replace"]}}}}"#
        );
        assert!(matches!(
            parse_anolisa_output(json.as_bytes(), "cosh-ng", "0.26.0"),
            Some(UpgradeVerdict::UpToDate)
        ));
    }
}

#[test]
fn anolisa_preview_without_comparable_target_is_unavailable() {
    for json in [
        br#"{"ok":true,"data":{"from_version":"1.2.3","plan":["delegate"]}}"#.as_slice(),
        br#"{"ok":true,"data":{"to_version":"","plan":["replace"]}}"#.as_slice(),
        br#"{"ok":true,"data":{"to_version":"latest","plan":["replace"]}}"#.as_slice(),
    ] {
        assert!(matches!(
            parse_anolisa_output(json, "cosh-ng", "1.2.3"),
            Some(UpgradeVerdict::Unavailable)
        ));
    }
}

#[test]
fn invalid_anolisa_payloads_fail_quietly() {
    assert!(parse_anolisa_output(b"not-json", "cosh-ng", "1.2.3").is_none());
    assert!(
        parse_anolisa_output(br#"{"ok":false,"data":{"plan":[]}}"#, "cosh-ng", "1.2.3",).is_none()
    );
    for json in [
        br#"{"ok":true}"#.as_slice(),
        br#"{"ok":"yes","data":{"plan":[]}}"#.as_slice(),
        br#"{"ok":true,"data":{}}"#.as_slice(),
        br#"{"ok":true,"data":{"plan":[1]}}"#.as_slice(),
        br#"{"ok":true,"data":{"package":3,"plan":[]}}"#.as_slice(),
    ] {
        assert!(parse_anolisa_output(json, "cosh-ng", "1.2.3").is_none());
    }
    let json = br#"{"ok":true,"data":{"package":null,"to_version":"9.0.0","plan":["x"]}}"#;
    assert_eq!(
        notice(parse_anolisa_output(json, "component", "1.2.3"))
            .expect("upgrade")
            .package,
        "component"
    );
}

#[test]
fn package_manager_exit_codes_and_candidate_are_classified() {
    assert!(matches!(
        classify_package_manager_output(Some(0), b"", "cosh-ng", "1.0.0", "dnf", None),
        Some(UpgradeVerdict::UpToDate)
    ));
    let output = b"cosh-ng.x86_64 1.2.0-1.el9 updates\n";
    let result =
        classify_package_manager_output(Some(100), output, "cosh-ng", "1.0.0", "dnf", None);
    assert!(matches!(
        result,
        Some(UpgradeVerdict::Upgrade(UpgradeNotice { command, .. }))
            if command == "sudo dnf update cosh-ng"
    ));
    let delegated = classify_package_manager_output(
        Some(100),
        output,
        "cosh-ng",
        "1.0.0",
        "dnf",
        Some("anolisa update cosh-ng"),
    );
    assert!(matches!(
        delegated,
        Some(UpgradeVerdict::Upgrade(UpgradeNotice { command, latest, .. }))
            if command == "anolisa update cosh-ng" && latest == "1.2.0-1.el9"
    ));
    assert!(
        classify_package_manager_output(Some(1), b"", "cosh-ng", "1.0.0", "dnf", None).is_none()
    );
    assert!(
        classify_package_manager_output(None, output, "cosh-ng", "1.0.0", "dnf", None).is_none()
    );
    assert!(
        classify_package_manager_output(Some(100), b"", "cosh-ng", "1.0.0", "dnf", None).is_none()
    );
}

#[test]
fn package_candidates_need_the_exact_package() {
    let output = b"\ncosh-ng-extras.x86_64 9 u\ncosh-ng\n cosh-ng 1.5 u\ncosh-ng.noarch 2 u\n";
    assert_eq!(
        parse_package_candidate(output, "cosh-ng"),
        Some("1.5".to_string())
    );
    assert_eq!(parse_package_candidate(b"other 1\n", "cosh-ng"), None);
    assert_eq!(parse_package_candidate(b"cosh-ng \xff\n", "cosh-ng"), None);
}

#[test]
fn rpm_ownership_accepts_only_the_cosh_ng_package() {
    assert_eq!(
        parse_rpm_package_name(b"cosh-ng"),
        Some("cosh-ng".to_string())
    );
    assert_eq!(
        parse_rpm_package_name(b"cosh-ng\n"),
        Some("cosh-ng".to_string())
    );
    assert_eq!(
        parse_rpm_package_name(b"  cosh-ng  \n"),
        Some("cosh-ng".to_string())
    );
    assert_eq!(parse_rpm_package_name(b"copilot-shell"), None);
    assert_eq!(parse_rpm_package_name(b"cosh-ng.x86_64"), None);
    assert_eq!(parse_rpm_package_name(b"cosh-ng-extras"), None);
    assert_eq!(parse_rpm_package_name(b""), None);
}

#[test]
fn managed_anolisa_paths_resolve_the_matching_cli() {
    assert_eq!(
        anolisa_candidate_for_managed_executable("/usr/local/libexec/anolisa/cosh-ng/cosh-shell"),
        Some("/usr/local/bin/anolisa".to_string())
    );
    assert_eq!(
        anolisa_candidate_for_managed_executable(
            "/home/test/.local/lib/anolisa/libexec/cosh-ng/cosh-shell"
        ),
        Some("/home/test/.local/bin/anolisa".to_string())
    );
    assert_eq!(
        anolisa_candidate_for_managed_executable("/usr/libexec/anolisa/cosh-ng/cosh-shell"),
        None
    );
    assert_eq!(
        anolisa_candidate_for_managed_executable("/workspace/target/debug/cosh-shell"),
        None
    );
    assert_eq!(
        anolisa_candidate_for_managed_executable("/usr/local/libexec/anolisa/cosh-ng/other-binary"),
        None
    );
    assert_eq!(
        anolisa_candidate_for_managed_executable("/usr/local/libexec/anolisa/wrong/cosh-shell"),
        None
    );
    assert_eq!(
        anolisa_candidate_for_managed_executable(
            "/home/test/local/lib/anolisa/libexec/cosh-ng/cosh-shell"
        ),
        None
    );
    assert_eq!(
        anolisa_candidate_for_managed_executable("/home/user/bin/cosh-shell"),
        None
    );
}

#[test]
fn unmanaged_executable_never_borrows_configured_or_path_anolisa() {
    for executable in [
        "/workspace/target/debug/cosh-shell",
        "/home/user/bin/cosh-shell",
    ] {
        let (mut search, action) = UpgradeSearch::begin(executable);
        assert!(matches!(action, SearchAction::FindOwner));
        assert!(matches!(
            search.advance(SearchEvent::Owner(None)),
            Some(SearchAction::Finish(None))
        ));
    }
    let (mut search, action) =
        UpgradeSearch::begin("/usr/local/libexec/anolisa/cosh-ng/cosh-shell");
    assert!(
        matches!(action, SearchAction::LocateManaged(path) if path == "/usr/local/bin/anolisa")
    );
    let located = choose_manager(
        Some("/opt/anolisa".to_string()),
        Some("/usr/local/bin/anolisa".to_string()),
    );
    assert_eq!(located.as_deref(), Some("/opt/anolisa"));
    assert!(matches!(
        search.advance(SearchEvent::Located(located)),
        Some(SearchAction::Ask(path)) if path == "/opt/anolisa"
    ));
    assert_eq!(
        choose_manager(None, Some("/usr/local/bin/anolisa".to_string())).as_deref(),
        Some("/usr/local/bin/anolisa")
    );
    assert_eq!(choose_manager(None, None), None);
}

#[test]
fn fields_of_a_reply_are_given_once() {
    let parse = |json: &[u8]| parse_anolisa_output(json, "cosh-ng", "1.2.3");
    for json in [
        &br#"{"ok":true,"ok":true,"data":{"plan":[]}}"#[..],
        br#"{"ok":true,"data":{"plan":["step"]},"data":{"plan":[]}}"#,
        br#"{"ok":true,"data":{"plan":[],"pl\u0061n":[]}}"#,
        br#"{"ok":true,"data":{"plan":[],"package":"a","package":"b"}}"#,
        br#"{"ok":true,"data":{"plan":[],"to_version":null,"to_version":null}}"#,
        br#"{"ok":true,"data":{"plan":[]},}"#,
        br#"{"ok":true "data":{"plan":[]}}"#,
        br#"{"ok":true,"data":{"plan":[]}} x"#,
        br#"{"ok":true,"data":{"plan":[]}"#,
        br#"{ok:true,"data":{"plan":[]}}"#,
        br#"{"ok":true,"data":{"plan":[1]}}"#,
        br#"{"ok":true,"data":{}}"#,
        br#"{"data":{"plan":[]}}"#,
        br#"{"ok":"true","data":{"plan":[]}}"#,
        br#""ok""#,
        b"",
    ] {
        assert!(parse(json).is_none(), "{}", String::from_utf8_lossy(json));
    }
    for json in [
        &br#"{"note":1,"note":1e999,"ok":true,"data":{"plan":[],"x":{"a":[]},"x":"\ud800"}}"#[..],
        br#" { "data" : { "pl\u0061n" : [ ] , "package" : null } , "ok" : true } "#,
        b"{\n\t\"ok\":true,\r\n\"data\":{\"plan\":[]}}\n",
    ] {
        assert!(
            matches!(parse(json), Some(UpgradeVerdict::UpToDate)),
            "{}",
            String::from_utf8_lossy(json)
        );
    }
}

#[test]
fn records_may_come_as_lists() {
    let json = br#"[true, ["pkg", "1.3.0", ["step"]]]"#;
    let found = notice(parse_anolisa_output(json, "cosh-ng", "1.2.3")).expect("upgrade");
    assert_eq!(found.package, "pkg");
    assert_eq!(found.latest, "1.3.0");
    for json in [
        &br#"[true, ["pkg", "1.3.0"]]"#[..],
        br#"[true, [null, null, [], 1]]"#,
        br#"[true]"#,
        br#"[1, [null, null, []]]"#,
    ] {
        assert!(parse_anolisa_output(json, "cosh-ng", "1.2.3").is_none());
    }
    assert!(matches!(
        parse_anolisa_output(br#"{"ok":true,"data":[null,null,[]]}"#, "cosh-ng", "1.2.3"),
        Some(UpgradeVerdict::UpToDate)
    ));
}

#[test]
fn managed_executables_are_judged_by_their_manager_alone() {
    let exe = "/usr/local/libexec/anolisa/cosh-ng/cosh-shell";
    for verdict in [None, Some(UpgradeVerdict::Unavailable)] {
        let (mut search, _) = UpgradeSearch::begin(exe);
        search.advance(SearchEvent::Located(Some("/a".to_string())));
        assert!(matches!(
            search.advance(SearchEvent::Judged(verdict)),
            Some(SearchAction::Finish(None))
        ));
    }
    let (mut search, _) = UpgradeSearch::begin(exe);
    search.advance(SearchEvent::Located(Some("/a".to_string())));
    assert!(matches!(
        search.advance(SearchEvent::Judged(Some(UpgradeVerdict::UpToDate))),
        Some(SearchAction::Finish(Some((
            DetectionMethod::Anolisa,
            UpgradeVerdict::UpToDate
        ))))
    ));
    assert!(search.advance(SearchEvent::Owner(None)).is_none());
}

#[test]
fn owned_executables_fall_back_to_the_package_manager() {
    let owned = || {
        let (mut search, _) = UpgradeSearch::begin("/usr/bin/cosh-shell");
        search.advance(SearchEvent::Owner(Some("cosh-ng".to_string())));
        search
    };
    let mut without = owned();
    assert!(matches!(
        without.advance(SearchEvent::Located(None)),
        Some(SearchAction::Check(package, None)) if package == "cosh-ng"
    ));
    assert!(matches!(
        without.advance(SearchEvent::Judged(Some(UpgradeVerdict::UpToDate))),
        Some(SearchAction::Finish(Some((DetectionMethod::Rpm, _))))
    ));
    let mut unsure = owned();
    unsure.advance(SearchEvent::Located(Some("/a".to_string())));
    assert!(matches!(
        unsure.advance(SearchEvent::Judged(Some(UpgradeVerdict::Unavailable))),
        Some(SearchAction::Check(_, Some(command))) if command == "anolisa update cosh-ng"
    ));
    assert!(matches!(
        unsure.advance(SearchEvent::Judged(Some(UpgradeVerdict::UpToDate))),
        Some(SearchAction::Finish(Some((DetectionMethod::Anolisa, _))))
    ));
    let mut broken = owned();
    broken.advance(SearchEvent::Located(Some("/a".to_string())));
    assert!(matches!(
        broken.advance(SearchEvent::Judged(None)),
        Some(SearchAction::Check(_, None))
    ));
    assert!(matches!(
        broken.advance(SearchEvent::Judged(None)),
        Some(SearchAction::Finish(None))
    ));
}

#[test]
fn version_compare_is_semver_aware_and_accepts_v_prefix() {
    assert_eq!(compare_versions("1.2.4", "1.2.3"), Some(VersionOrder::Newer));
    assert_eq!(compare_versions("v1.2.3", "1.2.3"), Some(VersionOrder::Same));
    assert_eq!(
        compare_versions("1.2.3-rc.2", "1.2.3-rc.1"),
        Some(VersionOrder::Newer)
    );
    assert_eq!(compare_versions("1.2", "1.2.0"), None);
    assert_eq!(compare_versions("latest", "1.2.3"), None);
    assert_eq!(compare_versions(" 1.2.3 ", "v2.0.0"), Some(VersionOrder::Older));
    assert_eq!(
        compare_versions("1.2.3", "1.2.3-rc.1"),
        Some(VersionOrder::Newer)
    );
    assert_eq!(compare_versions("1.10.0", "1.9.9"), Some(VersionOrder::Newer));
}

fn upgrade(latest: &str) -> UpgradeVerdict {
    UpgradeVerdict::Upgrade(UpgradeNotice {
        package: "cosh-ng".to_string(),
        current: "0.24.1".to_string(),
        latest: latest.to_string(),
        command: "anolisa update cosh-ng".to_string(),
    })
}

fn cache(executable: &str, verdict: &UpgradeVerdict) -> UpgradeCache {
    cache_for(executable, DetectionMethod::Anolisa, verdict, 3).expect("cache")
}

#[test]
fn cache_round_trip_suppresses_stale_and_corrupt_notices() {
    let verdict = upgrade("0.27.0");
    let cached =
        read_cached_notice(cache("/bin/cosh-shell", &verdict), "/bin/cosh-shell", "0.26.0")
            .expect("fresh cached notice");
    assert_eq!(cached.current, "0.26.0");
    assert_eq!(cached.latest, "0.27.0");
    assert!(
        read_cached_notice(cache("/bin/cosh-shell", &verdict), "/bin/cosh-shell", "0.27.0")
            .is_none()
    );
    assert!(read_cached_notice(
        cache("/bin/other-cosh-shell", &verdict),
        "/bin/cosh-shell",
        "0.26.0"
    )
    .is_none());
    let mut legacy = cache("/bin/cosh-shell", &verdict);
    legacy.version = 1;
    assert!(read_cached_notice(legacy, "/bin/cosh-shell", "0.26.0").is_none());
    let mut blank = cache("/bin/cosh-shell", &verdict);
    blank.notice.as_mut().unwrap().command = "  ".to_string();
    assert!(read_cached_notice(blank, "/bin/cosh-shell", "0.26.0").is_none());
    assert!(read_cached_notice(
        cache("/bin/cosh-shell", &UpgradeVerdict::UpToDate),
        "/bin/cosh-shell",
        "0.26.0"
    )
    .is_none());
    assert!(cache_for(
        "/bin/cosh-shell",
        DetectionMethod::Rpm,
        &UpgradeVerdict::Unavailable,
        3
    )
    .is_none());
    assert!(cache_is_readable(64 * 1024));
    assert!(!cache_is_readable(64 * 1024 + 1));
    assert!(closes_directory(false, true));
    assert!(closes_directory(true, false));
    assert!(!closes_directory(true, true));
}

#[test]
fn explicit_upgrade_check_opt_out_values_disable_probe() {
    for value in ["off", "0", "false", "NO"] {
        assert!(!startup_upgrade_check_enabled(Some(value)), "{value}");
    }
    assert!(startup_upgrade_check_enabled(Some("yes")));
    assert!(startup_upgrade_check_enabled(None));
    assert!(!startup_upgrade_check_enabled(Some(" Off\n")));
}

#[test]
fn startup_state_resolves_probe_once() {
    let mut state = StartupUpgradeState::new(true);
    state.on_message(ProbeMessage::Nothing);
    assert!(state.pending && state.resolved.is_none());
    state.on_message(ProbeMessage::Ready(None));
    assert!(matches!(state.resolved, Some(None)));
    assert!(!state.pending);
    assert!(state.notice().is_none());
    if let UpgradeVerdict::Upgrade(late) = upgrade("9.0.0") {
        state.on_message(ProbeMessage::Ready(Some(late)));
    }
    assert!(state.notice().is_none());

    let mut gone = StartupUpgradeState::new(true);
    gone.on_message(ProbeMessage::Gone);
    assert!(!gone.pending && gone.resolved.is_none());

    let mut ready = StartupUpgradeState::new(true);
    if let UpgradeVerdict::Upgrade(found) = upgrade("9.0.0") {
        ready.on_message(ProbeMessage::Ready(Some(found)));
    }
    assert_eq!(ready.notice().expect("notice").latest, "9.0.0");
}

#[test]
fn captured_output_is_bounded() {
    let mut capture = Capture::new();
    capture.push(b"ab");
    capture.push(b"c");
    assert_eq!(capture.into_output(), Some(b"abc".to_vec()));
    let mut full = Capture::new();
    full.push(&vec![b'x'; MAX_PIPE_OUTPUT_BYTES]);
    full.push(b"y");
    assert_eq!(full.into_output(), None);
}

#[test]
fn error_response_preserves_contract_codes_and_legacy_fallbacks() {
    let response = error_response(
        None,
        &GatewayDaemonError::Protocol("framing violation".to_owned()),
    );
    let body = response.error;
    assert_eq!(body.code, "invalid_request");
    assert_eq!(body.message, "request violates the Gateway contract");
    assert!(!body.recoverable);

    let response = error_response(
        None,
        &GatewayDaemonError::Store(StoreError::RevisionConflict {
            expected: 1,
            actual: 2,
        }),
    );
    let body = response.error;
    assert_eq!(body.code, "task_version_conflict");
    assert!(body.recoverable);

    let response = error_response(
        None,
        &GatewayDaemonError::Contract {
            code: "checkpoint_switch_rejected_diff_mismatch".to_owned(),
            message: "workspace digest differs from the preview".to_owned(),
            recoverable: false,
        },
    );
    let body = response.error;
    assert_eq!(body.code, "checkpoint_switch_rejected_diff_mismatch");
    assert_eq!(body.message, "workspace digest differs from the preview");
    assert!(!body.recoverable);
}
