//! English texts of the health report.

use vstd::prelude::*;

use crate::i18n::slots::{lemma_rest, lemma_slot, named_from, slots};
use crate::i18n::MessageId;

verus! {

/// The text of each message of this catalog.
pub open spec fn text(id: MessageId) -> Option<Seq<char>> {
    match id {
        MessageId::HealthBannerTitle => Some("Health check"@),
        MessageId::HealthStartupLabel => Some("Health"@),
        MessageId::HealthBannerTryLabel => Some("Prompt"@),
        MessageId::HealthBannerFindingLabel => Some("Finding"@),
        MessageId::HealthBannerEvidenceLabel => Some("Evidence"@),
        MessageId::HealthBannerMoreFindingsLabel => Some("{count} more finding(s)"@),
        MessageId::HealthBannerUnavailableLabel => Some("Unavailable"@),
        MessageId::HealthBannerFindingsSection => Some("Findings"@),
        MessageId::HealthBannerSuggestedPromptSection => Some("Suggested Prompts"@),
        MessageId::HealthBannerSuggestedPromptIntro => Some("You can type these prompts to the agent:"@),
        MessageId::HealthSeverityOk => Some("ok"@),
        MessageId::HealthSeverityWarning => Some("warning"@),
        MessageId::HealthSeverityCritical => Some("critical"@),
        MessageId::HealthSeverityDegraded => Some("degraded"@),
        MessageId::HealthSeverityUnavailable => Some("unavailable"@),
        MessageId::HealthMetricCpu => Some("CPU"@),
        MessageId::HealthMetricCpuLoadPerCore => Some("Load 1m"@),
        MessageId::HealthMetricLoad1mShort => Some("1m"@),
        MessageId::HealthMetricLoad5mShort => Some("5m"@),
        MessageId::HealthMetricLoadValue => Some("{load} / {cores} cores ({ratio}x)"@),
        MessageId::HealthMetricCpuPerCoreUnit => Some("x"@),
        MessageId::HealthMetricCpuUsed => Some("CPU used"@),
        MessageId::HealthMetricHost => Some("Host"@),
        MessageId::HealthMetricMemory => Some("Memory"@),
        MessageId::HealthMetricMemoryAvailable => Some("Mem avail"@),
        MessageId::HealthMetricMemoryUsed => Some("Mem used"@),
        MessageId::HealthMetricSwap => Some("Swap"@),
        MessageId::HealthMetricSwapUsed => Some("Swap used"@),
        MessageId::HealthMetricDisk => Some("Disk"@),
        MessageId::HealthMetricDiskUsed => Some("Disk used"@),
        MessageId::HealthMetricDiskMountUsed => Some("Disk {mount} used"@),
        MessageId::HealthMetricPressure => Some("Load"@),
        MessageId::HealthMetricLevels => Some("Resources"@),
        MessageId::HealthMetricSignal => Some("Signal"@),
        MessageId::HealthMetricService => Some("Service"@),
        MessageId::HealthEvidenceDiskAvailable => Some("{gib} GiB available"@),
        MessageId::HealthEvidenceMount => Some("mount {mount}"@),
        MessageId::HealthEvidenceOomKilledProcess => Some("killed {process}"@),
        MessageId::HealthEvidenceOomCgroup => Some("cgroup {cgroup}"@),
        MessageId::HealthEvidenceOomOneHourCount => Some("1h OOM {count}"@),
        MessageId::HealthEvidenceOomTwentyFourHourCount => Some("24h OOM {count}"@),
        MessageId::HealthEvidenceOomVictimKilledAgo => Some("{subject} killed {age} ago"@),
        MessageId::HealthEvidenceOomVictimKilled => Some("{subject} killed"@),
        MessageId::HealthEvidenceOomAge => Some("OOM {age} ago"@),
        MessageId::HealthOomScopeMemcg => Some("cgroup memory limit"@),
        MessageId::HealthOomScopeHost => Some("host memory pressure"@),
        MessageId::HealthOomScopeCpuset => Some("cpuset/NUMA memory pressure"@),
        MessageId::HealthOomScopeMemoryPolicy => Some("memory policy pressure"@),
        MessageId::HealthOomScopeUnknown => Some("unknown OOM scope"@),
        MessageId::HealthTryAnalyzeMemoryPressure => Some("analyze memory pressure"@),
        MessageId::HealthTryCheckSwapPressure => Some("check active swap pressure"@),
        MessageId::HealthTryCheckRecentOom => Some("analyze latest OOM cause"@),
        MessageId::HealthTryInspectDiskUsage => Some("inspect disk usage"@),
        MessageId::HealthTryInspectServiceStatus => Some("inspect service status"@),
        MessageId::HealthTryInspectHighLoad => Some("inspect high load"@),
        MessageId::HealthTryInspectProcessMemory => Some("inspect {process} memory"@),
        MessageId::HealthTryReviewUnavailableChecks => Some("review unavailable checks"@),
        MessageId::HealthPromptAnalyzeMemoryPressure => Some("Analyze memory pressure and identify top consumers that may affect this shell."@),
        MessageId::HealthPromptCheckSwapPressure => Some("Check whether swap pressure is active and which processes are driving it."@),
        MessageId::HealthPromptCheckRecentOom => Some("Help me analyze the cause of the most recent OOM, focusing on the killed process, cgroup, and memory state around the event."@),
        MessageId::HealthPromptInspectDiskUsage => Some("Inspect the risky mount and suggest safe disk cleanup targets."@),
        MessageId::HealthPromptInspectServiceStatus => Some("Inspect the configured service state and likely failure cause."@),
        MessageId::HealthPromptInspectHighLoad => Some("Analyze high load and identify CPU or IO pressure sources."@),
        MessageId::HealthPromptInspectProcessMemory => Some("Help me analyze why the latest OOM killed {process}, focusing on cgroup scope and memory limits."@),
        MessageId::HealthPromptReviewUnavailableChecks => Some("Explain why startup health checks were unavailable and how to restore them."@),
        MessageId::HealthInsightMemoryAvailableLow => Some("available memory is low; this can slow commands or make new processes fail"@),
        MessageId::HealthInsightDiskHigh => Some("disk usage is high on the riskiest mount; writes or builds may fail soon"@),
        MessageId::HealthInsightRecentOom => Some("the latest OOM has already happened; review the killed process, cgroup, and memory state around the event"@),
        MessageId::HealthInsightCpuLoadHigh => Some("load stayed high across recent windows; commands may be delayed"@),
        MessageId::HealthInsightSwapPressure => Some("swap usage is high with memory pressure context; paging can slow command response"@),
        MessageId::HealthInsightServiceState => Some("service unit {service} observed {observed}, expected {expected}"@),
        MessageId::HealthInsightGeneric => Some("startup health found a signal worth checking"@),
        MessageId::HealthUnavailablePermissionDenied => Some("permission denied"@),
        MessageId::HealthUnavailableCommandMissing => Some("command missing"@),
        MessageId::HealthUnavailableTimeout => Some("timed out"@),
        MessageId::HealthUnavailableUnsupported => Some("unsupported"@),
        MessageId::HealthUnavailableParseError => Some("parse error"@),
        MessageId::HealthFindingPlatformUnsupported => Some("platform unsupported"@),
        MessageId::HealthFindingCoreCollectorUnavailable => Some("core check unavailable"@),
        MessageId::HealthFindingCpuLoadHigh => Some("system load high"@),
        MessageId::HealthFindingMemoryAvailableLow => Some("available memory low"@),
        MessageId::HealthFindingSwapPressure => Some("swap pressure with context"@),
        MessageId::HealthFindingDiskHigh => Some("disk usage high"@),
        MessageId::HealthFindingRecentOom => Some("recent OOM signal"@),
        MessageId::HealthFindingKernelPanic => Some("recent kernel panic"@),
        MessageId::HealthFindingServiceFailed => Some("service failed"@),
        MessageId::HealthFindingServiceInactive => Some("service inactive"@),
        MessageId::HealthCollectorProvider => Some("Provider"@),
        MessageId::HealthCollectorConfig => Some("Config"@),
        MessageId::HealthCollectorHooks => Some("Hooks"@),
        MessageId::HealthCollectorPty => Some("PTY"@),
        MessageId::HealthCollectorPermissions => Some("Permissions"@),
        MessageId::HealthCollectorRuntime => Some("Runtime"@),
        MessageId::HealthCollectorLogs => Some("Logs"@),
        MessageId::DoctorTitle => Some("cosh-shell doctor"@),
        MessageId::DoctorStatusLabel => Some("status"@),
        MessageId::DoctorChecksLabel => Some("checks"@),
        MessageId::DoctorRemediationLabel => Some("remediation"@),
        MessageId::DoctorAllHealthy => Some("all checks passed"@),
        MessageId::HealthFindingProviderUnconfigured => Some("AI provider not ready"@),
        MessageId::HealthFindingConfigUnavailable => Some("configuration unavailable"@),
        MessageId::HealthFindingHooksUntrusted => Some("project hooks not trusted"@),
        MessageId::HealthFindingPtyUnavailable => Some("PTY support unavailable"@),
        MessageId::HealthFindingPermissionsUnwritable => Some("config directory not writable"@),
        MessageId::HealthFindingOrphanCore => Some("orphaned cosh-core process (pid {pid})"@),
        MessageId::HealthFindingStaleEntry => Some("{kind} entry left behind (pid {pid}, started {time})"@),
        MessageId::HealthFindingCrash => Some("{kind} panicked at {time}: {panic}"@),
        MessageId::HealthFindingRecentErrors => Some("{count} ERROR entries in {file} within 24h (last {time})"@),
        MessageId::HealthFindingWarnFlood => Some("{count} WARN entries in {file} within 24h (retry loop?)"@),
        MessageId::HealthRemediationProvider => Some("configure credentials for adapter '{adapter}' (env or config.toml) or run /auth"@),
        MessageId::HealthRemediationUnknownAdapter => Some("'{adapter}' is not a supported adapter; set adapter_default to one of: fake, ClaudeCode, qwen-cli, cosh-core"@),
        MessageId::HealthRemediationConfig => Some("set HOME so cosh-shell can resolve ~/.copilot-shell and load config"@),
        MessageId::HealthRemediationConfigUnreadable => Some("make ~/.copilot-shell/config.toml a readable file (not a directory) and fix its permissions"@),
        MessageId::HealthRemediationConfigInvalid => Some("repair ~/.copilot-shell/config.toml so cosh-shell can load it (valid TOML or recognized key=value entries)"@),
        MessageId::HealthRemediationHooks => Some("review and trust project hooks under {path} before they can run"@),
        MessageId::HealthRemediationPty => Some("run cosh-shell from a real terminal; interactive shell needs a PTY (/dev/ptmx)"@),
        MessageId::HealthRemediationPermissions => Some("fix permissions on {path} so cosh-shell can write config, logs and state"@),
        MessageId::HealthRemediationOrphanCore => Some("no shell owns this core; stop it with: kill {pid}"@),
        MessageId::HealthRemediationStaleEntry => Some("correlate with crash records; run `cosh-shell diagnostics export` to collect evidence"@),
        MessageId::HealthRemediationCrash => Some("run `cosh-shell diagnostics export` and inspect the crashes section"@),
        MessageId::HealthRemediationLogs => Some("run `cosh-shell diagnostics export` and inspect the logs section"@),
        MessageId::HealthTryReasonMemoryLow => Some("available memory is low"@),
        MessageId::HealthTryReasonSwapWithContext => Some("swap is high with pressure context"@),
        MessageId::HealthTryReasonRecentOom => Some("recent OOM is worth reviewing"@),
        MessageId::HealthTryReasonDiskHigh => Some("disk space is constrained"@),
        MessageId::HealthTryReasonServiceState => Some("configured service state is unexpected"@),
        MessageId::HealthTryReasonHighLoad => Some("load is elevated across recent windows"@),
        MessageId::HealthTryReasonMissingCoreCheck => Some("a core health check is unavailable"@),
        MessageId::HealthLiveSectionTitle => Some("live session"@),
        MessageId::HealthLiveCoreAlive => Some("core: alive (live registry response)"@),
        MessageId::HealthLiveCoreNoResponse => Some("core: no response ({reason})"@),
        MessageId::HealthLiveCoreNoRuntime => Some("core: no persistent runtime"@),
        MessageId::HealthLiveRecovery => Some("recovery: {state}"@),
        MessageId::HealthLiveRoutingFacts => Some("routing: ai={ai}, assistance={assistance}, integration={integration}, marker generation={generation}"@),
        MessageId::HealthLiveCnfHandler => Some("command-not-found handler: {ownership}"@),
        MessageId::HealthLiveLastRoute => Some("last route: {route}"@),
        MessageId::HealthLiveRoutingHint => Some("no routing anomaly in live facts; if natural-language input still does not route, check wrapper coverage and marker generation"@),
        MessageId::HealthFindingRouteFallback => Some("routing compatibility fallback, not a provider failure: {reason}"@),
        MessageId::HealthFindingCoreNoResponse => Some("core did not respond to the live probe: {reason}"@),
        MessageId::HealthFindingRecoveryFailed => Some("session recovery is in an abnormal state ({state})"@),
        MessageId::HealthRemediationRouteFallback => Some("see the troubleshooting guide section on input routing"@),
        MessageId::HealthRemediationCoreNoResponse => Some("run `cosh-shell diagnostics export` to collect evidence, then restart cosh-shell"@),
        MessageId::HealthLiveReasonAiDisabled => Some("AI is disabled"@),
        MessageId::HealthLiveReasonAssistanceOff => Some("assistance (routing) is off"@),
        MessageId::HealthLiveReasonUserCnf => Some("a user command-not-found handler takes precedence"@),
        MessageId::HealthLiveReasonCnfOverridden => Some("the command-not-found handler was overridden after startup"@),
        MessageId::HealthLiveReasonCnfMissing => Some("the command-not-found handler was removed"@),
        MessageId::DoctorVersionLine => Some("version: cosh-shell {shell_version}, cosh-core {core_version}"@),
        MessageId::DoctorHostLine => Some("host: {host}"@),
        MessageId::DoctorRuntimeLine => Some("runtime: {summary}"@),
        MessageId::DoctorRuntimeSummaryNone => Some("no active sessions"@),
        MessageId::DoctorRoutingLine => Some("routing: ai={ai}, integration={integration}, command-not-found handler={cnf}, last route={route}"@),
        MessageId::DoctorRoutingUnavailable => Some("routing: live probe unavailable; run /health inside the affected session"@),
        MessageId::DoctorLogsLine => Some("logs: level={level}, last write {last}; 24h errors: {errors}"@),
        MessageId::DoctorLogsNoFiles => Some("no log files"@),
        MessageId::DoctorCrashesLine => Some("crashes: {count} in the last 24h{detail}"@),
        MessageId::DoctorExportHint => Some("next step: run `cosh-shell diagnostics export` to collect a redacted evidence bundle (see docs/user-guide/en/user-entrypoint/cosh-ng/troubleshooting.md)"@),
        MessageId::HelpDiagnosticsHint => Some("Troubleshooting: run /health inside the session, or `cosh-shell doctor` after exit; see docs/user-guide/en/user-entrypoint/cosh-ng/troubleshooting.md"@),
        MessageId::HealthFindingWorkspaceConfinementUnsupported => Some("workspace confinement needs Linux {required} or newer"@),
        MessageId::HealthRemediationWorkspaceConfinement => Some("the running kernel is {kernel}; boot Linux {required} or newer so that the agent can confine its workspace"@),
        _ => None,
    }
}

/// The text of `id`, if this catalog holds it.
pub fn message(id: MessageId) -> (res: Option<&'static str>)
    ensures
        match res {
            Some(s) => text(id) == Some(s@),
            None => text(id) is None,
        },
{
    match id {
        MessageId::HealthBannerTitle => Some("Health check"),
        MessageId::HealthStartupLabel => Some("Health"),
        MessageId::HealthBannerTryLabel => Some("Prompt"),
        MessageId::HealthBannerFindingLabel => Some("Finding"),
        MessageId::HealthBannerEvidenceLabel => Some("Evidence"),
        MessageId::HealthBannerMoreFindingsLabel => Some("{count} more finding(s)"),
        MessageId::HealthBannerUnavailableLabel => Some("Unavailable"),
        MessageId::HealthBannerFindingsSection => Some("Findings"),
        MessageId::HealthBannerSuggestedPromptSection => Some("Suggested Prompts"),
        MessageId::HealthBannerSuggestedPromptIntro => Some("You can type these prompts to the agent:"),
        MessageId::HealthSeverityOk => Some("ok"),
        MessageId::HealthSeverityWarning => Some("warning"),
        MessageId::HealthSeverityCritical => Some("critical"),
        MessageId::HealthSeverityDegraded => Some("degraded"),
        MessageId::HealthSeverityUnavailable => Some("unavailable"),
        MessageId::HealthMetricCpu => Some("CPU"),
        MessageId::HealthMetricCpuLoadPerCore => Some("Load 1m"),
        MessageId::HealthMetricLoad1mShort => Some("1m"),
        MessageId::HealthMetricLoad5mShort => Some("5m"),
        MessageId::HealthMetricLoadValue => Some("{load} / {cores} cores ({ratio}x)"),
        MessageId::HealthMetricCpuPerCoreUnit => Some("x"),
        MessageId::HealthMetricCpuUsed => Some("CPU used"),
        MessageId::HealthMetricHost => Some("Host"),
        MessageId::HealthMetricMemory => Some("Memory"),
        MessageId::HealthMetricMemoryAvailable => Some("Mem avail"),
        MessageId::HealthMetricMemoryUsed => Some("Mem used"),
        MessageId::HealthMetricSwap => Some("Swap"),
        MessageId::HealthMetricSwapUsed => Some("Swap used"),
        MessageId::HealthMetricDisk => Some("Disk"),
        MessageId::HealthMetricDiskUsed => Some("Disk used"),
        MessageId::HealthMetricDiskMountUsed => Some("Disk {mount} used"),
        MessageId::HealthMetricPressure => Some("Load"),
        MessageId::HealthMetricLevels => Some("Resources"),
        MessageId::HealthMetricSignal => Some("Signal"),
        MessageId::HealthMetricService => Some("Service"),
        MessageId::HealthEvidenceDiskAvailable => Some("{gib} GiB available"),
        MessageId::HealthEvidenceMount => Some("mount {mount}"),
        MessageId::HealthEvidenceOomKilledProcess => Some("killed {process}"),
        MessageId::HealthEvidenceOomCgroup => Some("cgroup {cgroup}"),
        MessageId::HealthEvidenceOomOneHourCount => Some("1h OOM {count}"),
        MessageId::HealthEvidenceOomTwentyFourHourCount => Some("24h OOM {count}"),
        MessageId::HealthEvidenceOomVictimKilledAgo => Some("{subject} killed {age} ago"),
        MessageId::HealthEvidenceOomVictimKilled => Some("{subject} killed"),
        MessageId::HealthEvidenceOomAge => Some("OOM {age} ago"),
        MessageId::HealthOomScopeMemcg => Some("cgroup memory limit"),
        MessageId::HealthOomScopeHost => Some("host memory pressure"),
        MessageId::HealthOomScopeCpuset => Some("cpuset/NUMA memory pressure"),
        MessageId::HealthOomScopeMemoryPolicy => Some("memory policy pressure"),
        MessageId::HealthOomScopeUnknown => Some("unknown OOM scope"),
        MessageId::HealthTryAnalyzeMemoryPressure => Some("analyze memory pressure"),
        MessageId::HealthTryCheckSwapPressure => Some("check active swap pressure"),
        MessageId::HealthTryCheckRecentOom => Some("analyze latest OOM cause"),
        MessageId::HealthTryInspectDiskUsage => Some("inspect disk usage"),
        MessageId::HealthTryInspectServiceStatus => Some("inspect service status"),
        MessageId::HealthTryInspectHighLoad => Some("inspect high load"),
        MessageId::HealthTryInspectProcessMemory => Some("inspect {process} memory"),
        MessageId::HealthTryReviewUnavailableChecks => Some("review unavailable checks"),
        MessageId::HealthPromptAnalyzeMemoryPressure => Some("Analyze memory pressure and identify top consumers that may affect this shell."),
        MessageId::HealthPromptCheckSwapPressure => Some("Check whether swap pressure is active and which processes are driving it."),
        MessageId::HealthPromptCheckRecentOom => Some("Help me analyze the cause of the most recent OOM, focusing on the killed process, cgroup, and memory state around the event."),
        MessageId::HealthPromptInspectDiskUsage => Some("Inspect the risky mount and suggest safe disk cleanup targets."),
        MessageId::HealthPromptInspectServiceStatus => Some("Inspect the configured service state and likely failure cause."),
        MessageId::HealthPromptInspectHighLoad => Some("Analyze high load and identify CPU or IO pressure sources."),
        MessageId::HealthPromptInspectProcessMemory => Some("Help me analyze why the latest OOM killed {process}, focusing on cgroup scope and memory limits."),
        MessageId::HealthPromptReviewUnavailableChecks => Some("Explain why startup health checks were unavailable and how to restore them."),
        MessageId::HealthInsightMemoryAvailableLow => Some("available memory is low; this can slow commands or make new processes fail"),
        MessageId::HealthInsightDiskHigh => Some("disk usage is high on the riskiest mount; writes or builds may fail soon"),
        MessageId::HealthInsightRecentOom => Some("the latest OOM has already happened; review the killed process, cgroup, and memory state around the event"),
        MessageId::HealthInsightCpuLoadHigh => Some("load stayed high across recent windows; commands may be delayed"),
        MessageId::HealthInsightSwapPressure => Some("swap usage is high with memory pressure context; paging can slow command response"),
        MessageId::HealthInsightServiceState => Some("service unit {service} observed {observed}, expected {expected}"),
        MessageId::HealthInsightGeneric => Some("startup health found a signal worth checking"),
        MessageId::HealthUnavailablePermissionDenied => Some("permission denied"),
        MessageId::HealthUnavailableCommandMissing => Some("command missing"),
        MessageId::HealthUnavailableTimeout => Some("timed out"),
        MessageId::HealthUnavailableUnsupported => Some("unsupported"),
        MessageId::HealthUnavailableParseError => Some("parse error"),
        MessageId::HealthFindingPlatformUnsupported => Some("platform unsupported"),
        MessageId::HealthFindingCoreCollectorUnavailable => Some("core check unavailable"),
        MessageId::HealthFindingCpuLoadHigh => Some("system load high"),
        MessageId::HealthFindingMemoryAvailableLow => Some("available memory low"),
        MessageId::HealthFindingSwapPressure => Some("swap pressure with context"),
        MessageId::HealthFindingDiskHigh => Some("disk usage high"),
        MessageId::HealthFindingRecentOom => Some("recent OOM signal"),
        MessageId::HealthFindingKernelPanic => Some("recent kernel panic"),
        MessageId::HealthFindingServiceFailed => Some("service failed"),
        MessageId::HealthFindingServiceInactive => Some("service inactive"),
        MessageId::HealthCollectorProvider => Some("Provider"),
        MessageId::HealthCollectorConfig => Some("Config"),
        MessageId::HealthCollectorHooks => Some("Hooks"),
        MessageId::HealthCollectorPty => Some("PTY"),
        MessageId::HealthCollectorPermissions => Some("Permissions"),
        MessageId::HealthCollectorRuntime => Some("Runtime"),
        MessageId::HealthCollectorLogs => Some("Logs"),
        MessageId::DoctorTitle => Some("cosh-shell doctor"),
        MessageId::DoctorStatusLabel => Some("status"),
        MessageId::DoctorChecksLabel => Some("checks"),
        MessageId::DoctorRemediationLabel => Some("remediation"),
        MessageId::DoctorAllHealthy => Some("all checks passed"),
        MessageId::HealthFindingProviderUnconfigured => Some("AI provider not ready"),
        MessageId::HealthFindingConfigUnavailable => Some("configuration unavailable"),
        MessageId::HealthFindingHooksUntrusted => Some("project hooks not trusted"),
        MessageId::HealthFindingPtyUnavailable => Some("PTY support unavailable"),
        MessageId::HealthFindingPermissionsUnwritable => Some("config directory not writable"),
        MessageId::HealthFindingOrphanCore => Some("orphaned cosh-core process (pid {pid})"),
        MessageId::HealthFindingStaleEntry => Some("{kind} entry left behind (pid {pid}, started {time})"),
        MessageId::HealthFindingCrash => Some("{kind} panicked at {time}: {panic}"),
        MessageId::HealthFindingRecentErrors => Some("{count} ERROR entries in {file} within 24h (last {time})"),
        MessageId::HealthFindingWarnFlood => Some("{count} WARN entries in {file} within 24h (retry loop?)"),
        MessageId::HealthRemediationProvider => Some("configure credentials for adapter '{adapter}' (env or config.toml) or run /auth"),
        MessageId::HealthRemediationUnknownAdapter => Some("'{adapter}' is not a supported adapter; set adapter_default to one of: fake, ClaudeCode, qwen-cli, cosh-core"),
        MessageId::HealthRemediationConfig => Some("set HOME so cosh-shell can resolve ~/.copilot-shell and load config"),
        MessageId::HealthRemediationConfigUnreadable => Some("make ~/.copilot-shell/config.toml a readable file (not a directory) and fix its permissions"),
        MessageId::HealthRemediationConfigInvalid => Some("repair ~/.copilot-shell/config.toml so cosh-shell can load it (valid TOML or recognized key=value entries)"),
        MessageId::HealthRemediationHooks => Some("review and trust project hooks under {path} before they can run"),
        MessageId::HealthRemediationPty => Some("run cosh-shell from a real terminal; interactive shell needs a PTY (/dev/ptmx)"),
        MessageId::HealthRemediationPermissions => Some("fix permissions on {path} so cosh-shell can write config, logs and state"),
        MessageId::HealthRemediationOrphanCore => Some("no shell owns this core; stop it with: kill {pid}"),
        MessageId::HealthRemediationStaleEntry => Some("correlate with crash records; run `cosh-shell diagnostics export` to collect evidence"),
        MessageId::HealthRemediationCrash => Some("run `cosh-shell diagnostics export` and inspect the crashes section"),
        MessageId::HealthRemediationLogs => Some("run `cosh-shell diagnostics export` and inspect the logs section"),
        MessageId::HealthTryReasonMemoryLow => Some("available memory is low"),
        MessageId::HealthTryReasonSwapWithContext => Some("swap is high with pressure context"),
        MessageId::HealthTryReasonRecentOom => Some("recent OOM is worth reviewing"),
        MessageId::HealthTryReasonDiskHigh => Some("disk space is constrained"),
        MessageId::HealthTryReasonServiceState => Some("configured service state is unexpected"),
        MessageId::HealthTryReasonHighLoad => Some("load is elevated across recent windows"),
        MessageId::HealthTryReasonMissingCoreCheck => Some("a core health check is unavailable"),
        MessageId::HealthLiveSectionTitle => Some("live session"),
        MessageId::HealthLiveCoreAlive => Some("core: alive (live registry response)"),
        MessageId::HealthLiveCoreNoResponse => Some("core: no response ({reason})"),
        MessageId::HealthLiveCoreNoRuntime => Some("core: no persistent runtime"),
        MessageId::HealthLiveRecovery => Some("recovery: {state}"),
        MessageId::HealthLiveRoutingFacts => Some("routing: ai={ai}, assistance={assistance}, integration={integration}, marker generation={generation}"),
        MessageId::HealthLiveCnfHandler => Some("command-not-found handler: {ownership}"),
        MessageId::HealthLiveLastRoute => Some("last route: {route}"),
        MessageId::HealthLiveRoutingHint => Some("no routing anomaly in live facts; if natural-language input still does not route, check wrapper coverage and marker generation"),
        MessageId::HealthFindingRouteFallback => Some("routing compatibility fallback, not a provider failure: {reason}"),
        MessageId::HealthFindingCoreNoResponse => Some("core did not respond to the live probe: {reason}"),
        MessageId::HealthFindingRecoveryFailed => Some("session recovery is in an abnormal state ({state})"),
        MessageId::HealthRemediationRouteFallback => Some("see the troubleshooting guide section on input routing"),
        MessageId::HealthRemediationCoreNoResponse => Some("run `cosh-shell diagnostics export` to collect evidence, then restart cosh-shell"),
        MessageId::HealthLiveReasonAiDisabled => Some("AI is disabled"),
        MessageId::HealthLiveReasonAssistanceOff => Some("assistance (routing) is off"),
        MessageId::HealthLiveReasonUserCnf => Some("a user command-not-found handler takes precedence"),
        MessageId::HealthLiveReasonCnfOverridden => Some("the command-not-found handler was overridden after startup"),
        MessageId::HealthLiveReasonCnfMissing => Some("the command-not-found handler was removed"),
        MessageId::DoctorVersionLine => Some("version: cosh-shell {shell_version}, cosh-core {core_version}"),
        MessageId::DoctorHostLine => Some("host: {host}"),
        MessageId::DoctorRuntimeLine => Some("runtime: {summary}"),
        MessageId::DoctorRuntimeSummaryNone => Some("no active sessions"),
        MessageId::DoctorRoutingLine => Some("routing: ai={ai}, integration={integration}, command-not-found handler={cnf}, last route={route}"),
        MessageId::DoctorRoutingUnavailable => Some("routing: live probe unavailable; run /health inside the affected session"),
        MessageId::DoctorLogsLine => Some("logs: level={level}, last write {last}; 24h errors: {errors}"),
        MessageId::DoctorLogsNoFiles => Some("no log files"),
        MessageId::DoctorCrashesLine => Some("crashes: {count} in the last 24h{detail}"),
        MessageId::DoctorExportHint => Some("next step: run `cosh-shell diagnostics export` to collect a redacted evidence bundle (see docs/user-guide/en/user-entrypoint/cosh-ng/troubleshooting.md)"),
        MessageId::HelpDiagnosticsHint => Some("Troubleshooting: run /health inside the session, or `cosh-shell doctor` after exit; see docs/user-guide/en/user-entrypoint/cosh-ng/troubleshooting.md"),
        MessageId::HealthFindingWorkspaceConfinementUnsupported => Some("workspace confinement needs Linux {required} or newer"),
        MessageId::HealthRemediationWorkspaceConfinement => Some("the running kernel is {kernel}; boot Linux {required} or newer so that the agent can confine its workspace"),
        _ => None,
    }
}

/// No text of this catalog is empty, and between its braces stand the slots of its
/// message.
pub(crate) proof fn lemma_slots(id: MessageId)
    ensures
        text(id) matches Some(t) ==> t.len() > 0 && named_from(t, 0, None) == slots(id),
{
    if let Some(t) = text(id) {
        match id {
            MessageId::HealthBannerTitle => {
                reveal_strlit("Health check");
                lemma_rest(t, 0);
            },
            MessageId::HealthStartupLabel => {
                reveal_strlit("Health");
                lemma_rest(t, 0);
            },
            MessageId::HealthBannerTryLabel => {
                reveal_strlit("Prompt");
                lemma_rest(t, 0);
            },
            MessageId::HealthBannerFindingLabel => {
                reveal_strlit("Finding");
                lemma_rest(t, 0);
            },
            MessageId::HealthBannerEvidenceLabel => {
                reveal_strlit("Evidence");
                lemma_rest(t, 0);
            },
            MessageId::HealthBannerMoreFindingsLabel => {
                reveal_strlit("{count} more finding(s)");
                reveal_strlit("count");
                lemma_slot(t, 0, 0, "count"@);
                lemma_rest(t, 7);
            },
            MessageId::HealthBannerUnavailableLabel => {
                reveal_strlit("Unavailable");
                lemma_rest(t, 0);
            },
            MessageId::HealthBannerFindingsSection => {
                reveal_strlit("Findings");
                lemma_rest(t, 0);
            },
            MessageId::HealthBannerSuggestedPromptSection => {
                reveal_strlit("Suggested Prompts");
                lemma_rest(t, 0);
            },
            MessageId::HealthBannerSuggestedPromptIntro => {
                reveal_strlit("You can type these prompts to the agent:");
                lemma_rest(t, 0);
            },
            MessageId::HealthSeverityOk => {
                reveal_strlit("ok");
                lemma_rest(t, 0);
            },
            MessageId::HealthSeverityWarning => {
                reveal_strlit("warning");
                lemma_rest(t, 0);
            },
            MessageId::HealthSeverityCritical => {
                reveal_strlit("critical");
                lemma_rest(t, 0);
            },
            MessageId::HealthSeverityDegraded => {
                reveal_strlit("degraded");
                lemma_rest(t, 0);
            },
            MessageId::HealthSeverityUnavailable => {
                reveal_strlit("unavailable");
                lemma_rest(t, 0);
            },
            MessageId::HealthMetricCpu => {
                reveal_strlit("CPU");
                lemma_rest(t, 0);
            },
            MessageId::HealthMetricCpuLoadPerCore => {
                reveal_strlit("Load 1m");
                lemma_rest(t, 0);
            },
            MessageId::HealthMetricLoad1mShort => {
                reveal_strlit("1m");
                lemma_rest(t, 0);
            },
            MessageId::HealthMetricLoad5mShort => {
                reveal_strlit("5m");
                lemma_rest(t, 0);
            },
            MessageId::HealthMetricLoadValue => {
                reveal_strlit("{load} / {cores} cores ({ratio}x)");
                reveal_strlit("load");
                reveal_strlit("cores");
                reveal_strlit("ratio");
                lemma_slot(t, 0, 0, "load"@);
                lemma_slot(t, 6, 9, "cores"@);
                lemma_slot(t, 16, 24, "ratio"@);
                lemma_rest(t, 31);
            },
            MessageId::HealthMetricCpuPerCoreUnit => {
                reveal_strlit("x");
                lemma_rest(t, 0);
            },
            MessageId::HealthMetricCpuUsed => {
                reveal_strlit("CPU used");
                lemma_rest(t, 0);
            },
            MessageId::HealthMetricHost => {
                reveal_strlit("Host");
                lemma_rest(t, 0);
            },
            MessageId::HealthMetricMemory => {
                reveal_strlit("Memory");
                lemma_rest(t, 0);
            },
            MessageId::HealthMetricMemoryAvailable => {
                reveal_strlit("Mem avail");
                lemma_rest(t, 0);
            },
            MessageId::HealthMetricMemoryUsed => {
                reveal_strlit("Mem used");
                lemma_rest(t, 0);
            },
            MessageId::HealthMetricSwap => {
                reveal_strlit("Swap");
                lemma_rest(t, 0);
            },
            MessageId::HealthMetricSwapUsed => {
                reveal_strlit("Swap used");
                lemma_rest(t, 0);
            },
            MessageId::HealthMetricDisk => {
                reveal_strlit("Disk");
                lemma_rest(t, 0);
            },
            MessageId::HealthMetricDiskUsed => {
                reveal_strlit("Disk used");
                lemma_rest(t, 0);
            },
            MessageId::HealthMetricDiskMountUsed => {
                reveal_strlit("Disk {mount} used");
                reveal_strlit("mount");
                lemma_slot(t, 0, 5, "mount"@);
                lemma_rest(t, 12);
            },
            MessageId::HealthMetricPressure => {
                reveal_strlit("Load");
                lemma_rest(t, 0);
            },
            MessageId::HealthMetricLevels => {
                reveal_strlit("Resources");
                lemma_rest(t, 0);
            },
            MessageId::HealthMetricSignal => {
                reveal_strlit("Signal");
                lemma_rest(t, 0);
            },
            MessageId::HealthMetricService => {
                reveal_strlit("Service");
                lemma_rest(t, 0);
            },
            MessageId::HealthEvidenceDiskAvailable => {
                reveal_strlit("{gib} GiB available");
                reveal_strlit("gib");
                lemma_slot(t, 0, 0, "gib"@);
                lemma_rest(t, 5);
            },
            MessageId::HealthEvidenceMount => {
                reveal_strlit("mount {mount}");
                reveal_strlit("mount");
                lemma_slot(t, 0, 6, "mount"@);
                lemma_rest(t, 13);
            },
            MessageId::HealthEvidenceOomKilledProcess => {
                reveal_strlit("killed {process}");
                reveal_strlit("process");
                lemma_slot(t, 0, 7, "process"@);
                lemma_rest(t, 16);
            },
            MessageId::HealthEvidenceOomCgroup => {
                reveal_strlit("cgroup {cgroup}");
                reveal_strlit("cgroup");
                lemma_slot(t, 0, 7, "cgroup"@);
                lemma_rest(t, 15);
            },
            MessageId::HealthEvidenceOomOneHourCount => {
                reveal_strlit("1h OOM {count}");
                reveal_strlit("count");
                lemma_slot(t, 0, 7, "count"@);
                lemma_rest(t, 14);
            },
            MessageId::HealthEvidenceOomTwentyFourHourCount => {
                reveal_strlit("24h OOM {count}");
                reveal_strlit("count");
                lemma_slot(t, 0, 8, "count"@);
                lemma_rest(t, 15);
            },
            MessageId::HealthEvidenceOomVictimKilledAgo => {
                reveal_strlit("{subject} killed {age} ago");
                reveal_strlit("subject");
                reveal_strlit("age");
                lemma_slot(t, 0, 0, "subject"@);
                lemma_slot(t, 9, 17, "age"@);
                lemma_rest(t, 22);
            },
            MessageId::HealthEvidenceOomVictimKilled => {
                reveal_strlit("{subject} killed");
                reveal_strlit("subject");
                lemma_slot(t, 0, 0, "subject"@);
                lemma_rest(t, 9);
            },
            MessageId::HealthEvidenceOomAge => {
                reveal_strlit("OOM {age} ago");
                reveal_strlit("age");
                lemma_slot(t, 0, 4, "age"@);
                lemma_rest(t, 9);
            },
            MessageId::HealthOomScopeMemcg => {
                reveal_strlit("cgroup memory limit");
                lemma_rest(t, 0);
            },
            MessageId::HealthOomScopeHost => {
                reveal_strlit("host memory pressure");
                lemma_rest(t, 0);
            },
            MessageId::HealthOomScopeCpuset => {
                reveal_strlit("cpuset/NUMA memory pressure");
                lemma_rest(t, 0);
            },
            MessageId::HealthOomScopeMemoryPolicy => {
                reveal_strlit("memory policy pressure");
                lemma_rest(t, 0);
            },
            MessageId::HealthOomScopeUnknown => {
                reveal_strlit("unknown OOM scope");
                lemma_rest(t, 0);
            },
            MessageId::HealthTryAnalyzeMemoryPressure => {
                reveal_strlit("analyze memory pressure");
                lemma_rest(t, 0);
            },
            MessageId::HealthTryCheckSwapPressure => {
                reveal_strlit("check active swap pressure");
                lemma_rest(t, 0);
            },
            MessageId::HealthTryCheckRecentOom => {
                reveal_strlit("analyze latest OOM cause");
                lemma_rest(t, 0);
            },
            MessageId::HealthTryInspectDiskUsage => {
                reveal_strlit("inspect disk usage");
                lemma_rest(t, 0);
            },
            MessageId::HealthTryInspectServiceStatus => {
                reveal_strlit("inspect service status");
                lemma_rest(t, 0);
            },
            MessageId::HealthTryInspectHighLoad => {
                reveal_strlit("inspect high load");
                lemma_rest(t, 0);
            },
            MessageId::HealthTryInspectProcessMemory => {
                reveal_strlit("inspect {process} memory");
                reveal_strlit("process");
                lemma_slot(t, 0, 8, "process"@);
                lemma_rest(t, 17);
            },
            MessageId::HealthTryReviewUnavailableChecks => {
                reveal_strlit("review unavailable checks");
                lemma_rest(t, 0);
            },
            MessageId::HealthPromptAnalyzeMemoryPressure => {
                reveal_strlit("Analyze memory pressure and identify top consumers that may affect this shell.");
                lemma_rest(t, 0);
            },
            MessageId::HealthPromptCheckSwapPressure => {
                reveal_strlit("Check whether swap pressure is active and which processes are driving it.");
                lemma_rest(t, 0);
            },
            MessageId::HealthPromptCheckRecentOom => {
                reveal_strlit("Help me analyze the cause of the most recent OOM, focusing on the killed process, cgroup, and memory state around the event.");
                lemma_rest(t, 0);
            },
            MessageId::HealthPromptInspectDiskUsage => {
                reveal_strlit("Inspect the risky mount and suggest safe disk cleanup targets.");
                lemma_rest(t, 0);
            },
            MessageId::HealthPromptInspectServiceStatus => {
                reveal_strlit("Inspect the configured service state and likely failure cause.");
                lemma_rest(t, 0);
            },
            MessageId::HealthPromptInspectHighLoad => {
                reveal_strlit("Analyze high load and identify CPU or IO pressure sources.");
                lemma_rest(t, 0);
            },
            MessageId::HealthPromptInspectProcessMemory => {
                reveal_strlit("Help me analyze why the latest OOM killed {process}, focusing on cgroup scope and memory limits.");
                reveal_strlit("process");
                lemma_slot(t, 0, 42, "process"@);
                lemma_rest(t, 51);
            },
            MessageId::HealthPromptReviewUnavailableChecks => {
                reveal_strlit("Explain why startup health checks were unavailable and how to restore them.");
                lemma_rest(t, 0);
            },
            MessageId::HealthInsightMemoryAvailableLow => {
                reveal_strlit("available memory is low; this can slow commands or make new processes fail");
                lemma_rest(t, 0);
            },
            MessageId::HealthInsightDiskHigh => {
                reveal_strlit("disk usage is high on the riskiest mount; writes or builds may fail soon");
                lemma_rest(t, 0);
            },
            MessageId::HealthInsightRecentOom => {
                reveal_strlit("the latest OOM has already happened; review the killed process, cgroup, and memory state around the event");
                lemma_rest(t, 0);
            },
            MessageId::HealthInsightCpuLoadHigh => {
                reveal_strlit("load stayed high across recent windows; commands may be delayed");
                lemma_rest(t, 0);
            },
            MessageId::HealthInsightSwapPressure => {
                reveal_strlit("swap usage is high with memory pressure context; paging can slow command response");
                lemma_rest(t, 0);
            },
            MessageId::HealthInsightServiceState => {
                reveal_strlit("service unit {service} observed {observed}, expected {expected}");
                reveal_strlit("service");
                reveal_strlit("observed");
                reveal_strlit("expected");
                lemma_slot(t, 0, 13, "service"@);
                lemma_slot(t, 22, 32, "observed"@);
                lemma_slot(t, 42, 53, "expected"@);
                lemma_rest(t, 63);
            },
            MessageId::HealthInsightGeneric => {
                reveal_strlit("startup health found a signal worth checking");
                lemma_rest(t, 0);
            },
            MessageId::HealthUnavailablePermissionDenied => {
                reveal_strlit("permission denied");
                lemma_rest(t, 0);
            },
            MessageId::HealthUnavailableCommandMissing => {
                reveal_strlit("command missing");
                lemma_rest(t, 0);
            },
            MessageId::HealthUnavailableTimeout => {
                reveal_strlit("timed out");
                lemma_rest(t, 0);
            },
            MessageId::HealthUnavailableUnsupported => {
                reveal_strlit("unsupported");
                lemma_rest(t, 0);
            },
            MessageId::HealthUnavailableParseError => {
                reveal_strlit("parse error");
                lemma_rest(t, 0);
            },
            MessageId::HealthFindingPlatformUnsupported => {
                reveal_strlit("platform unsupported");
                lemma_rest(t, 0);
            },
            MessageId::HealthFindingCoreCollectorUnavailable => {
                reveal_strlit("core check unavailable");
                lemma_rest(t, 0);
            },
            MessageId::HealthFindingCpuLoadHigh => {
                reveal_strlit("system load high");
                lemma_rest(t, 0);
            },
            MessageId::HealthFindingMemoryAvailableLow => {
                reveal_strlit("available memory low");
                lemma_rest(t, 0);
            },
            MessageId::HealthFindingSwapPressure => {
                reveal_strlit("swap pressure with context");
                lemma_rest(t, 0);
            },
            MessageId::HealthFindingDiskHigh => {
                reveal_strlit("disk usage high");
                lemma_rest(t, 0);
            },
            MessageId::HealthFindingRecentOom => {
                reveal_strlit("recent OOM signal");
                lemma_rest(t, 0);
            },
            MessageId::HealthFindingKernelPanic => {
                reveal_strlit("recent kernel panic");
                lemma_rest(t, 0);
            },
            MessageId::HealthFindingServiceFailed => {
                reveal_strlit("service failed");
                lemma_rest(t, 0);
            },
            MessageId::HealthFindingServiceInactive => {
                reveal_strlit("service inactive");
                lemma_rest(t, 0);
            },
            MessageId::HealthCollectorProvider => {
                reveal_strlit("Provider");
                lemma_rest(t, 0);
            },
            MessageId::HealthCollectorConfig => {
                reveal_strlit("Config");
                lemma_rest(t, 0);
            },
            MessageId::HealthCollectorHooks => {
                reveal_strlit("Hooks");
                lemma_rest(t, 0);
            },
            MessageId::HealthCollectorPty => {
                reveal_strlit("PTY");
                lemma_rest(t, 0);
            },
            MessageId::HealthCollectorPermissions => {
                reveal_strlit("Permissions");
                lemma_rest(t, 0);
            },
            MessageId::HealthCollectorRuntime => {
                reveal_strlit("Runtime");
                lemma_rest(t, 0);
            },
            MessageId::HealthCollectorLogs => {
                reveal_strlit("Logs");
                lemma_rest(t, 0);
            },
            MessageId::DoctorTitle => {
                reveal_strlit("cosh-shell doctor");
                lemma_rest(t, 0);
            },
            MessageId::DoctorStatusLabel => {
                reveal_strlit("status");
                lemma_rest(t, 0);
            },
            MessageId::DoctorChecksLabel => {
                reveal_strlit("checks");
                lemma_rest(t, 0);
            },
            MessageId::DoctorRemediationLabel => {
                reveal_strlit("remediation");
                lemma_rest(t, 0);
            },
            MessageId::DoctorAllHealthy => {
                reveal_strlit("all checks passed");
                lemma_rest(t, 0);
            },
            MessageId::HealthFindingProviderUnconfigured => {
                reveal_strlit("AI provider not ready");
                lemma_rest(t, 0);
            },
            MessageId::HealthFindingConfigUnavailable => {
                reveal_strlit("configuration unavailable");
                lemma_rest(t, 0);
            },
            MessageId::HealthFindingHooksUntrusted => {
                reveal_strlit("project hooks not trusted");
                lemma_rest(t, 0);
            },
            MessageId::HealthFindingPtyUnavailable => {
                reveal_strlit("PTY support unavailable");
                lemma_rest(t, 0);
            },
            MessageId::HealthFindingPermissionsUnwritable => {
                reveal_strlit("config directory not writable");
                lemma_rest(t, 0);
            },
            MessageId::HealthFindingOrphanCore => {
                reveal_strlit("orphaned cosh-core process (pid {pid})");
                reveal_strlit("pid");
                lemma_slot(t, 0, 32, "pid"@);
                lemma_rest(t, 37);
            },
            MessageId::HealthFindingStaleEntry => {
                reveal_strlit("{kind} entry left behind (pid {pid}, started {time})");
                reveal_strlit("kind");
                reveal_strlit("pid");
                reveal_strlit("time");
                lemma_slot(t, 0, 0, "kind"@);
                lemma_slot(t, 6, 30, "pid"@);
                lemma_slot(t, 35, 45, "time"@);
                lemma_rest(t, 51);
            },
            MessageId::HealthFindingCrash => {
                reveal_strlit("{kind} panicked at {time}: {panic}");
                reveal_strlit("kind");
                reveal_strlit("time");
                reveal_strlit("panic");
                lemma_slot(t, 0, 0, "kind"@);
                lemma_slot(t, 6, 19, "time"@);
                lemma_slot(t, 25, 27, "panic"@);
                lemma_rest(t, 34);
            },
            MessageId::HealthFindingRecentErrors => {
                reveal_strlit("{count} ERROR entries in {file} within 24h (last {time})");
                reveal_strlit("count");
                reveal_strlit("file");
                reveal_strlit("time");
                lemma_slot(t, 0, 0, "count"@);
                lemma_slot(t, 7, 25, "file"@);
                lemma_slot(t, 31, 49, "time"@);
                lemma_rest(t, 55);
            },
            MessageId::HealthFindingWarnFlood => {
                reveal_strlit("{count} WARN entries in {file} within 24h (retry loop?)");
                reveal_strlit("count");
                reveal_strlit("file");
                lemma_slot(t, 0, 0, "count"@);
                lemma_slot(t, 7, 24, "file"@);
                lemma_rest(t, 30);
            },
            MessageId::HealthRemediationProvider => {
                reveal_strlit("configure credentials for adapter '{adapter}' (env or config.toml) or run /auth");
                reveal_strlit("adapter");
                lemma_slot(t, 0, 35, "adapter"@);
                lemma_rest(t, 44);
            },
            MessageId::HealthRemediationUnknownAdapter => {
                reveal_strlit("'{adapter}' is not a supported adapter; set adapter_default to one of: fake, ClaudeCode, qwen-cli, cosh-core");
                reveal_strlit("adapter");
                lemma_slot(t, 0, 1, "adapter"@);
                lemma_rest(t, 10);
            },
            MessageId::HealthRemediationConfig => {
                reveal_strlit("set HOME so cosh-shell can resolve ~/.copilot-shell and load config");
                lemma_rest(t, 0);
            },
            MessageId::HealthRemediationConfigUnreadable => {
                reveal_strlit("make ~/.copilot-shell/config.toml a readable file (not a directory) and fix its permissions");
                lemma_rest(t, 0);
            },
            MessageId::HealthRemediationConfigInvalid => {
                reveal_strlit("repair ~/.copilot-shell/config.toml so cosh-shell can load it (valid TOML or recognized key=value entries)");
                lemma_rest(t, 0);
            },
            MessageId::HealthRemediationHooks => {
                reveal_strlit("review and trust project hooks under {path} before they can run");
                reveal_strlit("path");
                lemma_slot(t, 0, 37, "path"@);
                lemma_rest(t, 43);
            },
            MessageId::HealthRemediationPty => {
                reveal_strlit("run cosh-shell from a real terminal; interactive shell needs a PTY (/dev/ptmx)");
                lemma_rest(t, 0);
            },
            MessageId::HealthRemediationPermissions => {
                reveal_strlit("fix permissions on {path} so cosh-shell can write config, logs and state");
                reveal_strlit("path");
                lemma_slot(t, 0, 19, "path"@);
                lemma_rest(t, 25);
            },
            MessageId::HealthRemediationOrphanCore => {
                reveal_strlit("no shell owns this core; stop it with: kill {pid}");
                reveal_strlit("pid");
                lemma_slot(t, 0, 44, "pid"@);
                lemma_rest(t, 49);
            },
            MessageId::HealthRemediationStaleEntry => {
                reveal_strlit("correlate with crash records; run `cosh-shell diagnostics export` to collect evidence");
                lemma_rest(t, 0);
            },
            MessageId::HealthRemediationCrash => {
                reveal_strlit("run `cosh-shell diagnostics export` and inspect the crashes section");
                lemma_rest(t, 0);
            },
            MessageId::HealthRemediationLogs => {
                reveal_strlit("run `cosh-shell diagnostics export` and inspect the logs section");
                lemma_rest(t, 0);
            },
            MessageId::HealthTryReasonMemoryLow => {
                reveal_strlit("available memory is low");
                lemma_rest(t, 0);
            },
            MessageId::HealthTryReasonSwapWithContext => {
                reveal_strlit("swap is high with pressure context");
                lemma_rest(t, 0);
            },
            MessageId::HealthTryReasonRecentOom => {
                reveal_strlit("recent OOM is worth reviewing");
                lemma_rest(t, 0);
            },
            MessageId::HealthTryReasonDiskHigh => {
                reveal_strlit("disk space is constrained");
                lemma_rest(t, 0);
            },
            MessageId::HealthTryReasonServiceState => {
                reveal_strlit("configured service state is unexpected");
                lemma_rest(t, 0);
            },
            MessageId::HealthTryReasonHighLoad => {
                reveal_strlit("load is elevated across recent windows");
                lemma_rest(t, 0);
            },
            MessageId::HealthTryReasonMissingCoreCheck => {
                reveal_strlit("a core health check is unavailable");
                lemma_rest(t, 0);
            },
            MessageId::HealthLiveSectionTitle => {
                reveal_strlit("live session");
                lemma_rest(t, 0);
            },
            MessageId::HealthLiveCoreAlive => {
                reveal_strlit("core: alive (live registry response)");
                lemma_rest(t, 0);
            },
            MessageId::HealthLiveCoreNoResponse => {
                reveal_strlit("core: no response ({reason})");
                reveal_strlit("reason");
                lemma_slot(t, 0, 19, "reason"@);
                lemma_rest(t, 27);
            },
            MessageId::HealthLiveCoreNoRuntime => {
                reveal_strlit("core: no persistent runtime");
                lemma_rest(t, 0);
            },
            MessageId::HealthLiveRecovery => {
                reveal_strlit("recovery: {state}");
                reveal_strlit("state");
                lemma_slot(t, 0, 10, "state"@);
                lemma_rest(t, 17);
            },
            MessageId::HealthLiveRoutingFacts => {
                reveal_strlit("routing: ai={ai}, assistance={assistance}, integration={integration}, marker generation={generation}");
                reveal_strlit("ai");
                reveal_strlit("assistance");
                reveal_strlit("integration");
                reveal_strlit("generation");
                lemma_slot(t, 0, 12, "ai"@);
                lemma_slot(t, 16, 29, "assistance"@);
                lemma_slot(t, 41, 55, "integration"@);
                lemma_slot(t, 68, 88, "generation"@);
                lemma_rest(t, 100);
            },
            MessageId::HealthLiveCnfHandler => {
                reveal_strlit("command-not-found handler: {ownership}");
                reveal_strlit("ownership");
                lemma_slot(t, 0, 27, "ownership"@);
                lemma_rest(t, 38);
            },
            MessageId::HealthLiveLastRoute => {
                reveal_strlit("last route: {route}");
                reveal_strlit("route");
                lemma_slot(t, 0, 12, "route"@);
                lemma_rest(t, 19);
            },
            MessageId::HealthLiveRoutingHint => {
                reveal_strlit("no routing anomaly in live facts; if natural-language input still does not route, check wrapper coverage and marker generation");
                lemma_rest(t, 0);
            },
            MessageId::HealthFindingRouteFallback => {
                reveal_strlit("routing compatibility fallback, not a provider failure: {reason}");
                reveal_strlit("reason");
                lemma_slot(t, 0, 56, "reason"@);
                lemma_rest(t, 64);
            },
            MessageId::HealthFindingCoreNoResponse => {
                reveal_strlit("core did not respond to the live probe: {reason}");
                reveal_strlit("reason");
                lemma_slot(t, 0, 40, "reason"@);
                lemma_rest(t, 48);
            },
            MessageId::HealthFindingRecoveryFailed => {
                reveal_strlit("session recovery is in an abnormal state ({state})");
                reveal_strlit("state");
                lemma_slot(t, 0, 42, "state"@);
                lemma_rest(t, 49);
            },
            MessageId::HealthRemediationRouteFallback => {
                reveal_strlit("see the troubleshooting guide section on input routing");
                lemma_rest(t, 0);
            },
            MessageId::HealthRemediationCoreNoResponse => {
                reveal_strlit("run `cosh-shell diagnostics export` to collect evidence, then restart cosh-shell");
                lemma_rest(t, 0);
            },
            MessageId::HealthLiveReasonAiDisabled => {
                reveal_strlit("AI is disabled");
                lemma_rest(t, 0);
            },
            MessageId::HealthLiveReasonAssistanceOff => {
                reveal_strlit("assistance (routing) is off");
                lemma_rest(t, 0);
            },
            MessageId::HealthLiveReasonUserCnf => {
                reveal_strlit("a user command-not-found handler takes precedence");
                lemma_rest(t, 0);
            },
            MessageId::HealthLiveReasonCnfOverridden => {
                reveal_strlit("the command-not-found handler was overridden after startup");
                lemma_rest(t, 0);
            },
            MessageId::HealthLiveReasonCnfMissing => {
                reveal_strlit("the command-not-found handler was removed");
                lemma_rest(t, 0);
            },
            MessageId::DoctorVersionLine => {
                reveal_strlit("version: cosh-shell {shell_version}, cosh-core {core_version}");
                reveal_strlit("shell_version");
                reveal_strlit("core_version");
                lemma_slot(t, 0, 20, "shell_version"@);
                lemma_slot(t, 35, 47, "core_version"@);
                lemma_rest(t, 61);
            },
            MessageId::DoctorHostLine => {
                reveal_strlit("host: {host}");
                reveal_strlit("host");
                lemma_slot(t, 0, 6, "host"@);
                lemma_rest(t, 12);
            },
            MessageId::DoctorRuntimeLine => {
                reveal_strlit("runtime: {summary}");
                reveal_strlit("summary");
                lemma_slot(t, 0, 9, "summary"@);
                lemma_rest(t, 18);
            },
            MessageId::DoctorRuntimeSummaryNone => {
                reveal_strlit("no active sessions");
                lemma_rest(t, 0);
            },
            MessageId::DoctorRoutingLine => {
                reveal_strlit("routing: ai={ai}, integration={integration}, command-not-found handler={cnf}, last route={route}");
                reveal_strlit("ai");
                reveal_strlit("integration");
                reveal_strlit("cnf");
                reveal_strlit("route");
                lemma_slot(t, 0, 12, "ai"@);
                lemma_slot(t, 16, 30, "integration"@);
                lemma_slot(t, 43, 71, "cnf"@);
                lemma_slot(t, 76, 89, "route"@);
                lemma_rest(t, 96);
            },
            MessageId::DoctorRoutingUnavailable => {
                reveal_strlit("routing: live probe unavailable; run /health inside the affected session");
                lemma_rest(t, 0);
            },
            MessageId::DoctorLogsLine => {
                reveal_strlit("logs: level={level}, last write {last}; 24h errors: {errors}");
                reveal_strlit("level");
                reveal_strlit("last");
                reveal_strlit("errors");
                lemma_slot(t, 0, 12, "level"@);
                lemma_slot(t, 19, 32, "last"@);
                lemma_slot(t, 38, 52, "errors"@);
                lemma_rest(t, 60);
            },
            MessageId::DoctorLogsNoFiles => {
                reveal_strlit("no log files");
                lemma_rest(t, 0);
            },
            MessageId::DoctorCrashesLine => {
                reveal_strlit("crashes: {count} in the last 24h{detail}");
                reveal_strlit("count");
                reveal_strlit("detail");
                lemma_slot(t, 0, 9, "count"@);
                lemma_slot(t, 16, 32, "detail"@);
                lemma_rest(t, 40);
            },
            MessageId::DoctorExportHint => {
                reveal_strlit("next step: run `cosh-shell diagnostics export` to collect a redacted evidence bundle (see docs/user-guide/en/user-entrypoint/cosh-ng/troubleshooting.md)");
                lemma_rest(t, 0);
            },
            MessageId::HelpDiagnosticsHint => {
                reveal_strlit("Troubleshooting: run /health inside the session, or `cosh-shell doctor` after exit; see docs/user-guide/en/user-entrypoint/cosh-ng/troubleshooting.md");
                lemma_rest(t, 0);
            },
            MessageId::HealthFindingWorkspaceConfinementUnsupported => {
                reveal_strlit("workspace confinement needs Linux {required} or newer");
                reveal_strlit("required");
                lemma_slot(t, 0, 34, "required"@);
                lemma_rest(t, 44);
            },
            MessageId::HealthRemediationWorkspaceConfinement => {
                reveal_strlit("the running kernel is {kernel}; boot Linux {required} or newer so that the agent can confine its workspace");
                reveal_strlit("kernel");
                reveal_strlit("required");
                lemma_slot(t, 0, 22, "kernel"@);
                lemma_slot(t, 30, 43, "required"@);
                lemma_rest(t, 53);
            },
            _ => {},
        }
        assert(named_from(t, 0, None) =~= slots(id));
    }
}

} // verus!
