use cosh::shell_host::capability::{
    bash_candidates, bash_function_env_key_posix_compatible, capability_inject_script,
    exported_bash_functions_posix_compatible, probe_mark, record_probe_outcome, BashSearch,
    ProbeResult, ProbeStartOutcome, SearchStep, R2_BASH_PROBE_SENTINEL,
};
use cosh::shell_host::effects::{
    shell_spawned, LoginEffectGuard, LoginEffectSource, LoginEffects,
};
use cosh::shell_host::failopen::{
    exec_exit_code, exec_reason, forces_panic, may_fall_open_with, ExecFailure, FailOpenFailure,
    FreshLoginFailOpen,
};
use cosh::shell_host::launch::{
    assistance_state_file, bash_marker_launch, configured_original_zdotdir, final_child_env_value,
    login_inject_body, output_ref_expired, plan_session, BashMarkerLaunch, EnvChange, Inherited,
    Launch, ShellAdapter, ShellHostConfig, ShellIntegration, OUTPUT_REF_RETENTION,
};
use cosh::shell_host::prompt::{
    replay_prefix_len, PromptDisplayStart, PromptPresentation,
};

const FAILURES: [FailOpenFailure; 3] = [
    FailOpenFailure::InvalidIntegration,
    FailOpenFailure::RelayPanic,
    FailOpenFailure::RelayError,
];

const SOURCES: [LoginEffectSource; 3] = [
    LoginEffectSource::PathBootstrapProbe,
    LoginEffectSource::R2CapabilityProbe,
    LoginEffectSource::ManagedShell,
];

#[test]
fn source_masks_are_one_hot_and_independent() {
    let masks = SOURCES.map(LoginEffectSource::mask);

    assert_eq!(masks, [1, 2, 4]);
    for (index, mask) in masks.iter().enumerate() {
        assert_eq!(mask.count_ones(), 1, "source {index} must use one bit");
        for other in &masks[index + 1..] {
            assert_eq!(mask & other, 0, "source masks must not overlap");
        }
    }
}

#[test]
fn each_login_effect_source_disarms_fallback() {
    for source in SOURCES {
        let guard = LoginEffectGuard::new();
        assert!(!guard.may_have_started());
        guard.mark_possible(source);
        assert!(guard.may_have_started());
        assert!(guard.has(source));
    }
}

#[test]
fn effects_are_monotonic_and_composable() {
    let guard = LoginEffectGuard::new();
    guard.mark_possible(LoginEffectSource::PathBootstrapProbe);
    guard.mark_possible(LoginEffectSource::ManagedShell);
    assert!(guard.has(LoginEffectSource::PathBootstrapProbe));
    assert!(guard.has(LoginEffectSource::ManagedShell));
    assert!(!guard.has(LoginEffectSource::R2CapabilityProbe));
    assert_eq!(guard.read(), LoginEffects { bits: 5 });
}

#[test]
fn marks_do_not_depend_on_their_order() {
    let mut a = LoginEffects::none();
    a.mark(LoginEffectSource::ManagedShell);
    a.mark(LoginEffectSource::PathBootstrapProbe);
    a.mark(LoginEffectSource::ManagedShell);
    let mut b = LoginEffects::none();
    b.mark(LoginEffectSource::PathBootstrapProbe);
    b.mark(LoginEffectSource::ManagedShell);
    assert_eq!(a, b);
    assert!(a.any());
    assert!(!LoginEffects::none().any());
    assert!(!LoginEffects::none().has(LoginEffectSource::ManagedShell));
}

#[test]
fn shell_host_config_owns_one_shared_login_effect_guard() {
    let config = ShellHostConfig::new("guard-owner", "/tmp/cosh-guard-owner");
    let first = config.login_effect_guard();
    let second = config.login_effect_guard();

    first.mark_possible(LoginEffectSource::ManagedShell);
    assert!(second.has(LoginEffectSource::ManagedShell));
}

#[test]
fn enhanced_config_is_marker_enabled() {
    let integration = ShellIntegration::parse_config("enhanced").expect("integration");
    assert_eq!(integration, ShellIntegration::Enhanced);
    assert!(integration.uses_markers());
}

#[test]
fn unknown_integrations_are_refused() {
    assert_eq!(
        ShellIntegration::parse_config("native"),
        Some(ShellIntegration::Native)
    );
    assert!(!ShellIntegration::Native.uses_markers());
    assert_eq!(ShellIntegration::parse_config("Enhanced"), None);
    assert_eq!(ShellIntegration::parse_config(""), None);
}

#[test]
fn fallback_requires_eligible_policy_and_armed_guard() {
    assert!(
        FreshLoginFailOpen::new(true, true, false, LoginEffectGuard::new())
            .may_fall_open(FailOpenFailure::InvalidIntegration)
    );
    assert!(
        !FreshLoginFailOpen::new(false, true, false, LoginEffectGuard::new())
            .may_fall_open(FailOpenFailure::InvalidIntegration)
    );
    assert!(
        !FreshLoginFailOpen::new(true, false, false, LoginEffectGuard::new())
            .may_fall_open(FailOpenFailure::InvalidIntegration)
    );
    assert!(
        !FreshLoginFailOpen::new(true, true, true, LoginEffectGuard::new())
            .may_fall_open(FailOpenFailure::InvalidIntegration)
    );
}

#[test]
fn supplied_guard_clone_controls_fail_open_state() {
    let effects = LoginEffectGuard::new();
    let fallback = FreshLoginFailOpen::new(true, true, false, effects.clone());

    assert!(fallback.may_fall_open(FailOpenFailure::RelayError));
    effects.mark_possible(LoginEffectSource::PathBootstrapProbe);
    assert!(!fallback.may_fall_open(FailOpenFailure::RelayError));
}

#[test]
fn denied_fallback_does_not_execute_native_login_bash() {
    let fallback = FreshLoginFailOpen::new(false, true, false, LoginEffectGuard::new());

    assert!(!fallback.may_fall_open(FailOpenFailure::RelayError));
}

#[test]
fn every_failure_observes_armed_and_disarmed_guard_state() {
    for failure in FAILURES {
        let armed = FreshLoginFailOpen::new(true, true, false, LoginEffectGuard::new());
        assert!(
            armed.may_fall_open(failure),
            "{failure:?} must allow an armed guard"
        );
    }

    for source in SOURCES {
        for failure in FAILURES {
            let effects = LoginEffectGuard::new();
            let disarmed = FreshLoginFailOpen::new(true, true, false, effects.clone());
            effects.mark_possible(source);
            assert!(
                !disarmed.may_fall_open(failure),
                "{failure:?} must reject {source:?}"
            );
        }
    }
}

#[test]
fn fail_open_decision_takes_a_reading() {
    let mut marked = LoginEffects::none();
    assert!(may_fall_open_with(true, marked, FailOpenFailure::RelayPanic));
    assert!(!may_fall_open_with(false, marked, FailOpenFailure::RelayPanic));
    marked.mark(LoginEffectSource::R2CapabilityProbe);
    assert!(!may_fall_open_with(true, marked, FailOpenFailure::RelayPanic));
}

#[test]
fn failed_native_shell_reports_reason_and_code() {
    assert_eq!(exec_exit_code(ExecFailure::NotFound), 127);
    assert_eq!(exec_exit_code(ExecFailure::PermissionDenied), 126);
    assert_eq!(exec_exit_code(ExecFailure::Other), 126);
    assert_eq!(
        exec_reason(ExecFailure::NotFound, "x".to_string()),
        "No such file or directory"
    );
    assert_eq!(
        exec_reason(ExecFailure::PermissionDenied, "x".to_string()),
        "Permission denied"
    );
    assert_eq!(exec_reason(ExecFailure::Other, "odd".to_string()), "odd");
}

#[test]
fn forced_faults_fire_only_in_their_phase() {
    assert!(forces_panic(Some("pre-spawn"), "pre-spawn", false));
    assert!(!forces_panic(Some("pre-spawn"), "pre-spawn", true));
    assert!(!forces_panic(Some("pre-spawn"), "post-spawn", false));
    assert!(forces_panic(Some("post-spawn"), "post-spawn", true));
    assert!(!forces_panic(Some("post-spawn"), "post-spawn", false));
    assert!(!forces_panic(None, "pre-spawn", false));
}

#[test]
fn probe_outcomes_mark_everything_but_a_failed_spawn() {
    let mut effects = LoginEffects::none();
    assert_eq!(
        record_probe_outcome(
            &mut effects,
            LoginEffectSource::PathBootstrapProbe,
            &ProbeResult::NotSpawned
        ),
        ProbeStartOutcome::ProvenNotStarted
    );
    assert!(!effects.any());
    assert_eq!(
        record_probe_outcome(
            &mut effects,
            LoginEffectSource::PathBootstrapProbe,
            &ProbeResult::Failed
        ),
        ProbeStartOutcome::MayHaveStarted
    );
    assert!(effects.has(LoginEffectSource::PathBootstrapProbe));
    assert!(!effects.has(LoginEffectSource::R2CapabilityProbe));
    assert_eq!(
        probe_mark(LoginEffectSource::R2CapabilityProbe, &ProbeResult::Failed),
        Some(LoginEffectSource::R2CapabilityProbe)
    );
    assert_eq!(
        probe_mark(LoginEffectSource::R2CapabilityProbe, &ProbeResult::NotSpawned),
        None
    );
}

#[test]
fn uncertain_first_candidate_freezes_without_probing_second_candidate() {
    let candidates = vec!["/d/first-bash".to_string(), "/d/second-bash".to_string()];
    let mut probed = Vec::new();
    let (mut search, mut step) = BashSearch::begin(&candidates);
    let resolved = loop {
        step = match step {
            SearchStep::Inspect(_) => search.on_inspected(true),
            SearchStep::Probe(candidate) => {
                probed.push(candidate.clone());
                if candidate == "/d/first-bash" {
                    search.on_probed(&ProbeResult::Failed)
                } else {
                    search.on_probed(
                        &ProbeResult::Marker(R2_BASH_PROBE_SENTINEL.to_string()),
                    )
                }
            }
            SearchStep::Found(candidate, supported) => break Some((candidate, supported)),
            SearchStep::NotFound => break None,
        };
    };

    assert_eq!(resolved, Some(("/d/first-bash".to_string(), false)));
    assert_eq!(probed, vec!["/d/first-bash".to_string()]);
    assert!(search.effects().has(LoginEffectSource::R2CapabilityProbe));
}

#[test]
fn missing_path_skips_r2_probe_and_keeps_effects_armed() {
    let candidates = bash_candidates("bash", None);
    assert!(candidates.is_empty());
    let (search, step) = BashSearch::begin(&candidates);
    assert!(matches!(step, SearchStep::NotFound));
    assert!(!search.effects().any());
}

#[test]
fn empty_path_directory_skips_r2_probe_and_keeps_effects_armed() {
    let (mut search, step) = BashSearch::begin(&bash_candidates("bash", Some("/empty")));
    assert!(matches!(step, SearchStep::Inspect(c) if c == "/empty/bash"));
    assert!(matches!(search.on_inspected(false), SearchStep::NotFound));
    assert!(!search.effects().any());
}

#[test]
fn executable_bash_candidate_spawn_failure_keeps_r2_effects_armed() {
    let (mut search, _) = BashSearch::begin(&bash_candidates("bash", Some("/broken")));
    assert!(matches!(search.on_inspected(true), SearchStep::Probe(c) if c == "/broken/bash"));
    assert!(matches!(
        search.on_probed(&ProbeResult::NotSpawned),
        SearchStep::NotFound
    ));
    assert!(!search.effects().has(LoginEffectSource::R2CapabilityProbe));
}

#[test]
fn denied_candidates_are_skipped_and_the_sentinel_proves_support() {
    let (mut search, _) = BashSearch::begin(&bash_candidates("bash", Some("/denied:/modern")));
    assert!(matches!(search.on_inspected(false), SearchStep::Inspect(c) if c == "/modern/bash"));
    search.on_inspected(true);
    let found = search.on_probed(
        &ProbeResult::Marker(R2_BASH_PROBE_SENTINEL.to_string()),
    );
    assert!(matches!(found, SearchStep::Found(c, true) if c == "/modern/bash"));
    assert!(search.effects().has(LoginEffectSource::R2CapabilityProbe));

    let (mut other, _) = BashSearch::begin(&bash_candidates("bash", Some("/modern")));
    other.on_inspected(true);
    let wrong = other.on_probed(&ProbeResult::Marker("something".to_string()));
    assert!(matches!(wrong, SearchStep::Found(_, false)));
}

#[test]
fn candidates_follow_the_search_path() {
    assert_eq!(
        bash_candidates("bash", Some("/usr/bin:/bin/::rel")),
        vec!["/usr/bin/bash", "/bin/bash", "bash", "rel/bash"]
    );
    assert_eq!(bash_candidates("/opt/bash", Some("/bin")), vec!["/opt/bash"]);
    assert_eq!(bash_candidates("./bash", Some("/bin")), vec!["./bash"]);
    assert_eq!(bash_candidates("bin/bash", None), vec!["bin/bash"]);
}

#[test]
fn capability_script_reports_the_sentinel_and_replaces_the_process() {
    assert_eq!(
        capability_inject_script(),
        format!(
            "set +o posix\nif shopt -q login_shell && [[ ! -o posix ]]; then printf '\\n__COSH_PATH_BEGIN__{R2_BASH_PROBE_SENTINEL}__COSH_PATH_END__\\n'; fi\nexec /bin/sh -c :\n"
        )
    );
}

#[test]
fn exported_function_names_gate_posix_compatibility() {
    assert!(bash_function_env_key_posix_compatible(b"PATH"));
    assert!(bash_function_env_key_posix_compatible(
        b"BASH_FUNC_review_helper%%"
    ));
    assert!(!bash_function_env_key_posix_compatible(
        b"BASH_FUNC_review-helper%%"
    ));
    assert!(!bash_function_env_key_posix_compatible(
        b"BASH_FUNC_9helper%%"
    ));
    assert!(!bash_function_env_key_posix_compatible(b"BASH_FUNC_%%"));
    assert!(bash_function_env_key_posix_compatible(b"BASH_FUNC_x%"));
    assert!(exported_bash_functions_posix_compatible(&vec![
        b"PATH".to_vec(),
        b"BASH_FUNC_ok%%".to_vec()
    ]));
    assert!(!exported_bash_functions_posix_compatible(&vec![
        b"PATH".to_vec(),
        b"BASH_FUNC_a b%%".to_vec()
    ]));
}

fn test_config(native_mode: bool, login_shell: bool) -> ShellHostConfig {
    let mut config = ShellHostConfig::new("test", "/tmp/test");
    config.integration = ShellIntegration::Enhanced;
    config.native_mode = native_mode;
    config.login_shell = login_shell;
    config
}

fn has_env(launch: &Launch, key: &str) -> bool {
    launch
        .env
        .iter()
        .any(|change| matches!(change, EnvChange::Put(name, _) if name == key))
}

fn bash(config: &ShellHostConfig) -> Launch {
    ShellAdapter::Bash.configure_command(Some("/tmp/marker.bash"), config, None, None)
}

fn zsh(config: &ShellHostConfig) -> Launch {
    ShellAdapter::Zsh.configure_command(Some("/tmp/marker.zsh"), config, None, None)
}

#[test]
fn bash_native_mode_omits_noprofile() {
    let args = bash(&test_config(true, false)).args;
    assert!(!args.contains(&"--noprofile".to_string()));
    assert!(args.contains(&"--rcfile".to_string()));
    assert!(args.contains(&"-i".to_string()));
}

#[test]
fn bash_isolated_mode_includes_noprofile() {
    let args = bash(&test_config(false, false)).args;
    assert!(args.contains(&"--noprofile".to_string()));
    assert!(args.contains(&"--rcfile".to_string()));
}

#[test]
fn bash_login_shell_sets_env() {
    assert!(has_env(&bash(&test_config(true, true)), "COSH_LOGIN_SHELL"));
}

#[test]
fn bash_non_login_shell_no_env() {
    assert!(!has_env(
        &bash(&test_config(true, false)),
        "COSH_LOGIN_SHELL"
    ));
}

#[test]
fn zsh_login_shell_sets_env() {
    assert!(has_env(&zsh(&test_config(true, true)), "COSH_LOGIN_SHELL"));
}

#[test]
fn zsh_native_mode_prefers_isolated_home_for_zdotdir_orig() {
    let mut config = test_config(true, false);
    config
        .env_overrides
        .push(("HOME".to_string(), "/tmp/cosh-test-home".to_string()));
    let launch = zsh(&config);

    assert!(launch.env.iter().any(|change| matches!(
        change,
        EnvChange::Put(key, value) if key == "COSH_ZDOTDIR_ORIG" && value == b"/tmp/cosh-test-home"
    )));
}

#[test]
fn zsh_isolated_mode_no_zdotdir_orig() {
    assert!(!has_env(
        &zsh(&test_config(false, false)),
        "COSH_ZDOTDIR_ORIG"
    ));
}

#[test]
fn original_zdotdir_prefers_overrides_then_the_environment() {
    let mut config = test_config(true, false);
    assert_eq!(
        configured_original_zdotdir(&config, Some("/z".to_string()), Some("/h".to_string())),
        Some("/z".to_string())
    );
    assert_eq!(
        configured_original_zdotdir(&config, None, Some("/h".to_string())),
        Some("/h".to_string())
    );
    assert_eq!(configured_original_zdotdir(&config, None, None), None);
    config
        .env_overrides
        .push(("HOME".to_string(), "/first".to_string()));
    config
        .env_overrides
        .push(("HOME".to_string(), "/second".to_string()));
    assert_eq!(
        configured_original_zdotdir(&config, Some("/z".to_string()), None),
        Some("/second".to_string())
    );
    config
        .env_overrides
        .push(("ZDOTDIR".to_string(), "/own".to_string()));
    assert_eq!(
        configured_original_zdotdir(&config, None, None),
        Some("/own".to_string())
    );
}

#[test]
fn unmarked_shells_get_plain_arguments() {
    let mut config = test_config(false, true);
    config.integration = ShellIntegration::Native;
    let launch = ShellAdapter::Bash.configure_command(None, &config, None, None);
    assert_eq!(launch.args, vec!["--noprofile", "--norc", "--login", "-i"]);
    assert_eq!(launch.argv0, None);
    let launch = ShellAdapter::Zsh.configure_command(None, &config, None, None);
    assert_eq!(launch.args, vec!["-l", "-i"]);
    assert!(has_env(&launch, "ZDOTDIR"));
    config.native_mode = true;
    config.login_shell = false;
    let launch = ShellAdapter::Bash.configure_command(None, &config, None, None);
    assert_eq!(launch.args, vec!["-i"]);
    assert!(!has_env(
        &ShellAdapter::Zsh.configure_command(None, &config, None, None),
        "ZDOTDIR"
    ));
}

#[test]
fn bash_r2_predicate_requires_all_legs() {
    let mut all = test_config(true, true);
    all.login_identity = true;
    assert!(
        ShellAdapter::Bash.uses_login_identity_inject(&all),
        "all legs present => R2"
    );

    let mut gate_off = all.clone();
    gate_off.login_identity = false;
    assert!(
        !ShellAdapter::Bash.uses_login_identity_inject(&gate_off),
        "gate off => not R2"
    );

    let mut non_login = test_config(true, false);
    non_login.login_identity = true;
    assert!(
        !ShellAdapter::Bash.uses_login_identity_inject(&non_login),
        "non-login => not R2"
    );

    let mut isolated = test_config(false, true);
    isolated.login_identity = true;
    assert!(
        !ShellAdapter::Bash.uses_login_identity_inject(&isolated),
        "isolated (not native) => not R2"
    );

    let mut old_bash = all.clone();
    old_bash.bash_login_env_posix = false;
    assert!(
        !ShellAdapter::Bash.uses_login_identity_inject(&old_bash),
        "inner bash without posix $ENV (e.g. bash 3.2) => not R2"
    );
    assert!(!ShellAdapter::Zsh.uses_login_identity_inject(&all));
}

#[test]
fn bash_marker_launch_maps_gate_to_argv_shape() {
    assert_eq!(
        bash_marker_launch(true, true),
        BashMarkerLaunch::LoginIdentity
    );
    assert_eq!(
        bash_marker_launch(true, false),
        BashMarkerLaunch::LoginIdentity
    );
    assert_eq!(
        bash_marker_launch(false, true),
        BashMarkerLaunch::Rcfile { noprofile: false }
    );
    assert_eq!(
        bash_marker_launch(false, false),
        BashMarkerLaunch::Rcfile { noprofile: true }
    );
}

#[test]
fn login_inject_body_clears_posix_restores_env_then_marker() {
    let marker = "# cosh marker\n_cosh_prompt_ready() { :; }\n";
    let body = login_inject_body(marker);
    assert_eq!(
        body.lines().next(),
        Some("set +o posix"),
        "inject line 1 must be the posix-off directive, got {body:?}"
    );
    let posix_end = "set +o posix\n".len();
    let marker_start = body
        .find(marker)
        .expect("marker must be present verbatim in the inject body");
    let restore = &body[posix_end..marker_start];
    assert!(
        restore.contains("unset ENV") && restore.contains("COSH_PRIOR_ENV"),
        "ENV must be restored/unset before the marker, got {restore:?}"
    );
    assert!(
        restore.contains("unset COSH_LOGIN_INJECT"),
        "inject path indirection must be cleared before the marker, got {restore:?}"
    );
    assert!(
        restore.contains("COSH_PRIOR_BASHOPTS") && restore.contains("shopt -u inherit_errexit"),
        "inherit_errexit must match the caller before the marker, got {restore:?}"
    );
    let clear_allexport = restore
        .find("unset COSH_RESTORE_ALLEXPORT")
        .expect("missing stale allexport marker cleanup");
    let suspend_allexport = restore.find("set +a").expect("missing allexport suspend");
    let restore_home = restore
        .find("if [ -z \"${HOME+x}\" ]; then HOME=~; fi")
        .expect("missing HOME recovery");
    let restore_histfile = restore
        .find("COSH_PRIOR_HISTFILE")
        .expect("missing HISTFILE recovery");
    let restore_allexport = restore.rfind("set -a").expect("missing allexport restore");
    assert!(
        clear_allexport < suspend_allexport
            && suspend_allexport < restore_home
            && restore_home < restore_histfile
            && restore_histfile < restore_allexport
            && restore.contains("HISTFILE=\"$HOME/.bash_history\""),
        "HOME/HISTFILE must recover with allexport suspended, got {restore:?}"
    );
    assert!(
        body.ends_with(marker),
        "marker script must follow verbatim, unaltered"
    );

    let overrides = vec![
        ("ENV".to_string(), "/first".to_string()),
        ("OTHER".to_string(), "ignored".to_string()),
        ("ENV".to_string(), "".to_string()),
    ];
    assert_eq!(
        final_child_env_value(&overrides, "ENV", Some(b"/inherited".to_vec())),
        Some(Vec::new()),
        "last override wins, including an explicit empty value"
    );
    assert_eq!(
        final_child_env_value(&Vec::new(), "ENV", Some(b"/inherited".to_vec())),
        Some(b"/inherited".to_vec())
    );
    assert_eq!(final_child_env_value(&Vec::new(), "ENV", None), None);
}

#[test]
fn inject_body_is_exact() {
    assert_eq!(
        login_inject_body("M"),
        "set +o posix\nunset COSH_LOGIN_INJECT\ncase :${COSH_PRIOR_BASHOPTS-}: in \
         *:inherit_errexit:*) ;; *) shopt -u inherit_errexit 2>/dev/null || true ;; esac\n\
         unset COSH_PRIOR_BASHOPTS\nunset COSH_RESTORE_ALLEXPORT\n\
         case $- in *a*) set +a; COSH_RESTORE_ALLEXPORT=1 ;; esac\n\
         if [ -z \"${HOME+x}\" ]; then HOME=~; fi\n\
         if [ -n \"${COSH_PRIOR_HISTFILE+x}\" ]; then \
         HISTFILE=\"$COSH_PRIOR_HISTFILE\"; else HISTFILE=\"$HOME/.bash_history\"; fi\n\
         unset COSH_PRIOR_HISTFILE\n\
         if [ -n \"${COSH_RESTORE_ALLEXPORT+x}\" ]; then \
         set -a; unset COSH_RESTORE_ALLEXPORT; fi\n\
         if [ -n \"${COSH_PRIOR_ENV+x}\" ]; then export ENV=\"$COSH_PRIOR_ENV\"; \
         else unset ENV; fi\nunset COSH_PRIOR_ENV\nM"
    );
}

fn inherited() -> Inherited {
    Inherited {
        env: Some(b"/prior".to_vec()),
        histfile: None,
        bashopts: Some(b"a:b".to_vec()),
        zdotdir: None,
        home: None,
    }
}

fn last_value(env: &[EnvChange], key: &str) -> Option<Vec<u8>> {
    env.iter().rev().find_map(|change| match change {
        EnvChange::Put(name, value) if name == key => Some(Some(value.clone())),
        EnvChange::Remove(name) if name == key => Some(None),
        _ => None,
    })?
}

#[test]
fn overrides_cannot_redirect_the_login_inject() {
    let mut config = test_config(true, true);
    config.login_identity = true;
    config
        .env_overrides
        .push(("ENV".to_string(), "/elsewhere".to_string()));
    let plan = plan_session(&config, ShellAdapter::Bash, "MARKER", &inherited());
    assert_eq!(plan.launch.argv0, Some("-bash".to_string()));
    assert_eq!(plan.launch.args, vec!["--posix", "-i"]);
    assert_eq!(
        last_value(&plan.launch.env, "ENV"),
        Some(b"${COSH_LOGIN_INJECT}".to_vec())
    );
    assert_eq!(
        last_value(&plan.launch.env, "COSH_LOGIN_INJECT"),
        Some(b"/tmp/test/cosh-login-inject.bash".to_vec())
    );
    assert_eq!(
        last_value(&plan.launch.env, "COSH_PRIOR_ENV"),
        Some(b"/elsewhere".to_vec())
    );
    assert_eq!(last_value(&plan.launch.env, "COSH_PRIOR_HISTFILE"), None);
    assert_eq!(
        last_value(&plan.launch.env, "COSH_PRIOR_BASHOPTS"),
        Some(b"a:b".to_vec())
    );
    let files: Vec<(&str, &str)> = plan
        .files
        .iter()
        .map(|file| (file.path.as_str(), file.content.as_str()))
        .collect();
    let body = login_inject_body("MARKER");
    assert_eq!(
        files,
        vec![
            ("/tmp/test/assistance-enabled", "enabled\n"),
            ("/tmp/test/terminal-recovery-request.history-file", ""),
            ("/tmp/test/cosh-marker.bash", "MARKER"),
            ("/tmp/test/cosh-login-inject.bash", body.as_str()),
        ]
    );
    assert_eq!(
        plan.directories,
        vec!["/tmp/test", "/tmp/test/output-refs"]
    );
}

#[test]
fn isolated_sessions_bring_their_own_settings() {
    let mut config = test_config(false, false);
    config.integration = ShellIntegration::Native;
    config.prompt = "$ ".to_string();
    let plan = plan_session(&config, ShellAdapter::Bash, "unused", &inherited());
    assert_eq!(plan.program, "bash");
    assert_eq!(plan.files.len(), 1);
    assert_eq!(plan.files[0].path, "/tmp/test/inputrc");
    assert_eq!(
        plan.files[0].content,
        "set input-meta on\nset convert-meta off\nset output-meta on\n"
    );
    assert_eq!(
        last_value(&plan.launch.env, "COSH_SHELL_ISOLATED"),
        Some(b"1".to_vec())
    );
    assert_eq!(
        last_value(&plan.launch.env, "COSH_HISTFILE"),
        Some(b"/tmp/test/history".to_vec())
    );
    assert_eq!(
        last_value(&plan.launch.env, "COSH_POC_PS1"),
        Some(b"$ ".to_vec())
    );
    assert_eq!(
        last_value(&plan.launch.env, "INPUTRC"),
        Some(b"/tmp/test/inputrc".to_vec())
    );
    assert_eq!(last_value(&plan.launch.env, "COSH_SESSION_ID"), None);
    assert!(!plan.zsh_path_prompt_buffering);

    let zsh = plan_session(&test_config(true, false), ShellAdapter::Zsh, "Z", &inherited());
    assert_eq!(zsh.program, "zsh");
    assert!(zsh.zsh_path_prompt_buffering);
    assert_eq!(zsh.files[2].path, "/tmp/test/.zshrc");
    assert_eq!(zsh.recovery_request_file, "/tmp/test/terminal-recovery-request");
    assert_eq!(zsh.handoff_request_file, "/tmp/test/shell-handoff-request");
    assert_eq!(
        last_value(&zsh.launch.env, "COSH_SESSION_ID"),
        Some(b"test".to_vec())
    );
    assert_eq!(
        assistance_state_file(&test_config(true, false)),
        "/tmp/test/assistance-enabled"
    );
}

#[test]
fn cleanup_expired_output_refs_removes_old_files_only() {
    let second: u128 = 1_000_000_000;
    assert!(output_ref_expired(true, Some(0), second, 0));
    assert!(!output_ref_expired(false, Some(0), second, 0));
}

#[test]
fn cleanup_expired_output_refs_keeps_recent_files() {
    let hour: u128 = 3_600_000_000_000;
    assert!(!output_ref_expired(true, Some(5), 5, hour));
    assert!(!output_ref_expired(true, Some(0), hour, hour));
    assert!(output_ref_expired(true, Some(0), hour + 1, hour));
    assert!(!output_ref_expired(true, Some(9), 5, 0));
    assert!(!output_ref_expired(true, None, hour, 0));
    assert_eq!(OUTPUT_REF_RETENTION, 24 * hour);
}

#[test]
fn write_range_relays_child_bytes_verbatim_when_disabled() {
    let bytes = b"\x1b[1mowner$ \x1b[0mecho ok\r\nowner$ ".to_vec();
    let mut output = Vec::new();
    PromptPresentation::new(false).write_range(0, bytes.len(), &bytes, &mut output);
    assert_eq!(output, b"\x1b[1mowner$ \x1b[0mecho ok\r\nowner$ ");
}

#[test]
fn transformed_chunks_relay_verbatim_when_disabled() {
    let mut presentation = PromptPresentation::new(false);
    let mut output = Vec::new();
    presentation.write_transformed_range(0, 1, &b"p".to_vec(), &mut output);
    presentation.write_transformed_range(1, 3, &b"$ ".to_vec(), &mut output);
    presentation.write_replayed_prompt(&b"p$ ".to_vec(), &mut output);
    assert_eq!(output, b"p$ p$ ");
}

#[test]
fn restored_prompt_writes_only_the_prompt_when_disabled() {
    let mut output = Vec::new();
    let presentation = PromptPresentation::new(false);
    presentation.write_restored_prompt(&b"".to_vec(), &mut output);
    assert!(output.is_empty());

    presentation.write_restored_prompt(&"◇ owner$ ".as_bytes().to_vec(), &mut output);
    assert_eq!(output, "◇ owner$ ".as_bytes());
}

#[test]
fn chunked_publication_and_repaint_add_only_one_status_line() {
    let mut presentation = PromptPresentation::new(true);
    presentation.observe(&vec![
        PromptDisplayStart {
            position: 0,
            publish_status: true,
        },
        PromptDisplayStart {
            position: 3,
            publish_status: false,
        },
    ]);
    let mut output = Vec::new();
    presentation.write_transformed_range(0, 1, &b"p".to_vec(), &mut output);
    presentation.write_transformed_range(1, 3, &b"$ ".to_vec(), &mut output);
    presentation.write_transformed_range(3, 6, &b"p$ ".to_vec(), &mut output);
    presentation.write_replayed_prompt(&b"p$ ".to_vec(), &mut output);
    assert_eq!(output, "◇ \r\np$ p$ p$ ".as_bytes());
}

#[test]
fn empty_restoration_does_not_publish_status() {
    let mut output = Vec::new();
    PromptPresentation::new(true).write_restored_prompt(&b"".to_vec(), &mut output);
    assert!(output.is_empty());
}

#[test]
fn restored_status_distinguishes_enabled_states_from_disabled() {
    let prompt = b"alice$ ".to_vec();
    let mut output = Vec::new();
    PromptPresentation::new(true).write_restored_prompt(&prompt, &mut output);
    assert_eq!(output, "◇ \r\nalice$ ".as_bytes());

    output.clear();
    let mut alone = PromptPresentation::new(true);
    alone.set_assistance(false);
    alone.write_restored_prompt(&prompt, &mut output);
    assert_eq!(output, "◌ \r\nalice$ ".as_bytes());

    output.clear();
    PromptPresentation::new(false).write_restored_prompt(&prompt, &mut output);
    assert_eq!(output, b"alice$ ");
}

fn starts() -> Vec<PromptDisplayStart> {
    vec![
        PromptDisplayStart {
            position: 2,
            publish_status: true,
        },
        PromptDisplayStart {
            position: 4,
            publish_status: true,
        },
    ]
}

#[test]
fn pieces_of_a_display_look_like_the_whole() {
    let bytes = b"abcdef".to_vec();
    let mut whole = PromptPresentation::new(true);
    whole.observe(&starts());
    let mut at_once = Vec::new();
    whole.write_range(0, 6, &bytes, &mut at_once);
    assert_eq!(at_once, "ab◇ \r\ncd◇ \r\nef".as_bytes());
    for middle in 0..=6 {
        let mut split = PromptPresentation::new(true);
        split.observe(&starts());
        let mut output = Vec::new();
        split.write_range(0, middle, &bytes[..middle].to_vec(), &mut output);
        split.write_range(middle, 6, &bytes[middle..].to_vec(), &mut output);
        assert_eq!(output, at_once);
    }
}

#[test]
fn shortened_ranges_keep_only_a_start_at_their_beginning() {
    let mut presentation = PromptPresentation::new(true);
    presentation.observe(&starts());
    let mut output = Vec::new();
    presentation.write_transformed_range(2, 6, &b"x".to_vec(), &mut output);
    assert_eq!(output, "◇ \r\nx".as_bytes());
    output.clear();
    presentation.write_range(6, 7, &b"y".to_vec(), &mut output);
    assert_eq!(output, b"y");

    let mut late = PromptPresentation::new(true);
    late.observe(&starts());
    output.clear();
    late.discard_before(3);
    late.write_transformed_range(3, 6, &b"x".to_vec(), &mut output);
    assert_eq!(output, b"x");
}

#[test]
fn display_slices_normalize_their_head_first() {
    assert_eq!(replay_prefix_len(0, 10, 3, 5), 5);
    assert_eq!(replay_prefix_len(0, 4, 3, 5), 4);
    assert_eq!(replay_prefix_len(0, 4, 0, 0), 1);
    assert_eq!(replay_prefix_len(5, 4, 9, 9), 0);

    let mut presentation = PromptPresentation::new(true);
    presentation.observe(&starts());
    let mut output = Vec::new();
    presentation.write_display_slice(4, 6, 2, &b"cd".to_vec(), &b"ef".to_vec(), &mut output);
    assert_eq!(output, "◇ \r\ncd◇ \r\nef".as_bytes());
}

fn native_plan(session: &str, bash: &str) -> String {
    let mut config = ShellHostConfig::new(session, "/tmp/cosh-work");
    config.integration = ShellIntegration::Native;
    config.native_mode = false;
    config.bash_path = bash.to_string();
    let inherited = Inherited {
        env: None,
        histfile: None,
        bashopts: None,
        zdotdir: None,
        home: None,
    };
    plan_session(&config, ShellAdapter::Bash, "", &inherited).program
}

#[test]
fn failed_shell_spawn_keeps_login_effects_armed() {
    assert_eq!(
        native_plan("spawn-failure", "/definitely/missing/cosh-shell"),
        "/definitely/missing/cosh-shell"
    );
    let mut effects = LoginEffects::none();
    shell_spawned(&mut effects, false);
    assert!(!effects.any());
    effects.mark(LoginEffectSource::R2CapabilityProbe);
    shell_spawned(&mut effects, false);
    assert!(!effects.has(LoginEffectSource::ManagedShell));
    assert!(effects.has(LoginEffectSource::R2CapabilityProbe));
}

#[test]
fn successful_shell_spawn_marks_managed_shell_effect() {
    assert_eq!(native_plan("spawn-success", "/bin/bash"), "/bin/bash");
    let mut effects = LoginEffects::none();
    shell_spawned(&mut effects, true);
    assert!(effects.has(LoginEffectSource::ManagedShell));
    assert!(!effects.has(LoginEffectSource::PathBootstrapProbe));
    assert!(!effects.has(LoginEffectSource::R2CapabilityProbe));
}
