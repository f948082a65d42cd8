//! All collectors of the environment, one after the other.

use vstd::prelude::*;

use crate::health::environment::{
    collect_config, collect_hooks, collect_permissions, collect_pty, config_facts,
    config_findings, hook_facts, hook_findings, hooks_trusted, permission_facts,
    permission_findings, pty_findings, ConfigFileStatus, ConfigSummary,
};
use crate::health::logs::{collect_logs, error_sample, kind_findings, log_facts, LogKind, LogSummary};
use crate::health::model::{derived, FactValueView, HealthFactCategory, HealthScanReport, HealthView};
use crate::health::provider::{
    collect_provider, credentials, document_in, provider_credentials_present, provider_facts,
    provider_findings,
};
use crate::health::runtime::{
    by_pid, collect_runtime, crash_findings, orphan_findings, probe_views, runtime_facts,
    stale_findings, CrashSighting, RunProbe,
};
use crate::text::{opt_view, texts, trim, trimmed};
use crate::values::Values;

verus! {

/// What was read from the host.
pub struct EnvironmentScan {
    pub summary: ConfigSummary,
    /// The variables of the environment.
    pub env: Values,
    /// The text of the configuration file, if it could be read.
    pub config: Option<String>,
    pub home_present: bool,
    pub config_status: ConfigFileStatus,
    pub user_hooks: bool,
    /// The root of the project that has hooks.
    pub project: Option<String>,
    pub trusted_roots: Vec<String>,
    pub pty_available: bool,
    pub state_dir: String,
    pub state_dir_writable: bool,
    pub probes: Vec<RunProbe>,
    pub crashes: Vec<CrashSighting>,
    pub logs: LogSummary,
    pub now_ms: u128,
    /// The line of the latest error with secrets taken out.
    pub redacted_error: String,
    /// When the latest error of each log was, as it is shown.
    pub core_error_time: String,
    pub shell_error_time: String,
}

/// The report after the provider and the configuration.
pub open spec fn after_config(r: HealthView, s: EnvironmentScan, elapsed_ms: u128) -> HealthView {
    let adapter = trimmed(s.summary.adapter_default@);
    let present = credentials(adapter, s.env@, document_in(opt_view(s.config)));
    r.recorded(
        provider_facts(adapter, present, elapsed_ms),
        "provider"@,
        provider_findings(adapter, present),
    ).recorded(
        config_facts(s.home_present, s.config_status, s.summary, elapsed_ms),
        "config"@,
        config_findings(s.home_present, s.config_status),
    )
}

/// The report after hooks, terminals and permissions.
pub open spec fn after_permissions(r: HealthView, s: EnvironmentScan, elapsed_ms: u128) -> HealthView {
    r.recorded(
        hook_facts(
            s.user_hooks,
            s.project is Some,
            hooks_trusted(opt_view(s.project), texts(s.trusted_roots@)),
            elapsed_ms,
        ),
        "hooks"@,
        hook_findings(opt_view(s.project), texts(s.trusted_roots@)),
    ).recorded(
        seq![
            derived(
                HealthFactCategory::Pty,
                "pty.ptmx_available"@,
                FactValueView::Bool(s.pty_available),
                elapsed_ms,
            ),
        ],
        "pty"@,
        pty_findings(s.pty_available),
    ).recorded(
        permission_facts(s.state_dir@, s.state_dir_writable, elapsed_ms),
        "permissions"@,
        permission_findings(s.state_dir@, s.state_dir_writable),
    )
}

/// The report after running processes and logs.
pub open spec fn after_logs(r: HealthView, s: EnvironmentScan, elapsed_ms: u128) -> HealthView {
    let ps = by_pid(probe_views(s.probes@));
    let sample = error_sample(s.logs@, s.redacted_error@);
    r.recorded(
        runtime_facts(ps, s.crashes@.len() as int, elapsed_ms),
        "runtime"@,
        orphan_findings(ps) + stale_findings(ps) + crash_findings(s.crashes@),
    ).recorded(
        log_facts(s.logs@, s.now_ms, s.redacted_error@, elapsed_ms),
        "logs"@,
        kind_findings(LogKind::Core, s.logs@.core, s.core_error_time@, sample) + kind_findings(
            LogKind::Shell,
            s.logs@.shell,
            s.shell_error_time@,
            sample,
        ),
    )
}

/// The report after all collectors.
pub open spec fn collected(r: HealthView, s: EnvironmentScan, elapsed_ms: u128) -> HealthView {
    after_logs(
        after_permissions(after_config(r, s, elapsed_ms), s, elapsed_ms),
        s,
        elapsed_ms,
    )
}

/// Runs all collectors on what was read from the host.
pub fn run_env_collectors(report: &mut HealthScanReport, scan: &EnvironmentScan, elapsed_ms: u128)
    requires
        scan.env.wf(),
    ensures
        final(report)@ == collected(old(report)@, *scan, elapsed_ms),
{
    let adapter = trim(scan.summary.adapter_default.as_str());
    let present: bool = provider_credentials_present(
        adapter.as_str(),
        &scan.env,
        match &scan.config {
            Some(text) => Some(text.as_str()),
            None => None,
        },
    );
    collect_provider(report, scan.summary.adapter_default.as_str(), present, elapsed_ms);
    collect_config(report, scan.home_present, scan.config_status, &scan.summary, elapsed_ms);
    collect_hooks(report, scan.user_hooks, &scan.project, &scan.trusted_roots, elapsed_ms);
    collect_pty(report, scan.pty_available, elapsed_ms);
    collect_permissions(report, scan.state_dir.as_str(), scan.state_dir_writable, elapsed_ms);
    collect_runtime(report, &scan.probes, &scan.crashes, elapsed_ms);
    collect_logs(
        report,
        &scan.logs,
        scan.now_ms,
        scan.redacted_error.as_str(),
        scan.core_error_time.as_str(),
        scan.shell_error_time.as_str(),
        elapsed_ms,
    );
}

/// Every collector leaves its mark, and nothing that was in the report is lost.
pub proof fn every_check_is_done(r: HealthView, s: EnvironmentScan, elapsed_ms: u128)
    ensures
        collected(r, s, elapsed_ms).checks_done == r.checks_done + seq![
            "provider"@,
            "config"@,
            "hooks"@,
            "pty"@,
            "permissions"@,
            "runtime"@,
            "logs"@,
        ],
        collected(r, s, elapsed_ms).facts.take(r.facts.len() as int) == r.facts,
        collected(r, s, elapsed_ms).findings.take(r.findings.len() as int) == r.findings,
{
    let all = collected(r, s, elapsed_ms);
    assert(all.checks_done =~= r.checks_done + seq![
        "provider"@,
        "config"@,
        "hooks"@,
        "pty"@,
        "permissions"@,
        "runtime"@,
        "logs"@,
    ]);
    assert(all.facts.take(r.facts.len() as int) =~= r.facts);
    assert(all.findings.take(r.findings.len() as int) =~= r.findings);
}

} // verus!
