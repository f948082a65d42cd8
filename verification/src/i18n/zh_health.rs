//! Chinese texts of the health report.

use vstd::prelude::*;

use crate::i18n::slots::{lemma_rest, lemma_slot, named_from, slots};
use crate::i18n::MessageId;

verus! {

/// The text of each message of this catalog.
pub open spec fn text(id: MessageId) -> Option<Seq<char>> {
    match id {
        MessageId::HealthBannerTitle => Some("健康检查"@),
        MessageId::HealthStartupLabel => Some("健康"@),
        MessageId::HealthBannerTryLabel => Some("可输入"@),
        MessageId::HealthBannerFindingLabel => Some("发现"@),
        MessageId::HealthBannerEvidenceLabel => Some("证据"@),
        MessageId::HealthBannerMoreFindingsLabel => Some("另有 {count} 个问题"@),
        MessageId::HealthBannerUnavailableLabel => Some("不可用"@),
        MessageId::HealthBannerFindingsSection => Some("发现的问题"@),
        MessageId::HealthBannerSuggestedPromptSection => Some("建议下一步"@),
        MessageId::HealthBannerSuggestedPromptIntro => Some("以下提示词可直接输入给 Agent："@),
        MessageId::HealthSeverityOk => Some("正常"@),
        MessageId::HealthSeverityWarning => Some("警告"@),
        MessageId::HealthSeverityCritical => Some("严重"@),
        MessageId::HealthSeverityDegraded => Some("降级"@),
        MessageId::HealthSeverityUnavailable => Some("不可用"@),
        MessageId::HealthMetricCpu => Some("CPU"@),
        MessageId::HealthMetricCpuLoadPerCore => Some("1分钟负载"@),
        MessageId::HealthMetricLoad1mShort => Some("1分钟"@),
        MessageId::HealthMetricLoad5mShort => Some("5分钟"@),
        MessageId::HealthMetricLoadValue => Some("{load} / {cores}核（{ratio}倍）"@),
        MessageId::HealthMetricCpuPerCoreUnit => Some("倍"@),
        MessageId::HealthMetricCpuUsed => Some("CPU 已用"@),
        MessageId::HealthMetricHost => Some("主机"@),
        MessageId::HealthMetricMemory => Some("内存"@),
        MessageId::HealthMetricMemoryAvailable => Some("内存可用"@),
        MessageId::HealthMetricMemoryUsed => Some("内存已用"@),
        MessageId::HealthMetricSwap => Some("Swap"@),
        MessageId::HealthMetricSwapUsed => Some("Swap 已用"@),
        MessageId::HealthMetricDisk => Some("磁盘"@),
        MessageId::HealthMetricDiskUsed => Some("磁盘已用"@),
        MessageId::HealthMetricDiskMountUsed => Some("磁盘 {mount} 已用"@),
        MessageId::HealthMetricPressure => Some("负载"@),
        MessageId::HealthMetricLevels => Some("资源"@),
        MessageId::HealthMetricSignal => Some("信号"@),
        MessageId::HealthMetricService => Some("服务"@),
        MessageId::HealthEvidenceDiskAvailable => Some("可用 {gib} GiB"@),
        MessageId::HealthEvidenceMount => Some("挂载点 {mount}"@),
        MessageId::HealthEvidenceOomKilledProcess => Some("杀掉 {process}"@),
        MessageId::HealthEvidenceOomCgroup => Some("cgroup {cgroup}"@),
        MessageId::HealthEvidenceOomOneHourCount => Some("1h OOM {count}"@),
        MessageId::HealthEvidenceOomTwentyFourHourCount => Some("24h OOM {count}"@),
        MessageId::HealthEvidenceOomVictimKilledAgo => Some("{age}前杀掉 {subject}"@),
        MessageId::HealthEvidenceOomVictimKilled => Some("杀掉 {subject}"@),
        MessageId::HealthEvidenceOomAge => Some("OOM 发生于 {age}前"@),
        MessageId::HealthOomScopeMemcg => Some("cgroup 内存限制触发"@),
        MessageId::HealthOomScopeHost => Some("整机内存不足触发"@),
        MessageId::HealthOomScopeCpuset => Some("cpuset/NUMA 范围内存不足"@),
        MessageId::HealthOomScopeMemoryPolicy => Some("内存策略范围不足"@),
        MessageId::HealthOomScopeUnknown => Some("OOM 触发范围未识别"@),
        MessageId::HealthTryAnalyzeMemoryPressure => Some("分析内存压力"@),
        MessageId::HealthTryCheckSwapPressure => Some("检查换页压力"@),
        MessageId::HealthTryCheckRecentOom => Some("分析最近一次 OOM 原因"@),
        MessageId::HealthTryInspectDiskUsage => Some("检查磁盘占用"@),
        MessageId::HealthTryInspectServiceStatus => Some("检查服务状态"@),
        MessageId::HealthTryInspectHighLoad => Some("分析高负载"@),
        MessageId::HealthTryInspectProcessMemory => Some("检查 {process} 内存"@),
        MessageId::HealthTryReviewUnavailableChecks => Some("查看缺失检查"@),
        MessageId::HealthPromptAnalyzeMemoryPressure => Some("分析内存压力，找出可能影响当前 shell 的主要占用来源。"@),
        MessageId::HealthPromptCheckSwapPressure => Some("检查是否存在换页压力，并找出主要相关进程。"@),
        MessageId::HealthPromptCheckRecentOom => Some("帮我分析最近一次 OOM 的原因，重点看被杀进程、cgroup 和当时内存水位。"@),
        MessageId::HealthPromptInspectDiskUsage => Some("检查高风险挂载点占用，并给出安全清理目标。"@),
        MessageId::HealthPromptInspectServiceStatus => Some("检查配置服务状态，并分析最近可能的失败原因。"@),
        MessageId::HealthPromptInspectHighLoad => Some("分析当前高负载，判断主要来自 CPU 还是 IO 压力。"@),
        MessageId::HealthPromptInspectProcessMemory => Some("帮我分析最近一次 OOM 为什么杀掉 {process}，重点看 cgroup 和内存上限。"@),
        MessageId::HealthPromptReviewUnavailableChecks => Some("说明启动健康检查为什么不可用，以及如何恢复这些检查。"@),
        MessageId::HealthInsightMemoryAvailableLow => Some("可用内存偏低；命令可能变慢，新进程也可能启动失败"@),
        MessageId::HealthInsightDiskHigh => Some("最高风险挂载点磁盘水位偏高；写入或构建可能很快失败"@),
        MessageId::HealthInsightRecentOom => Some("最近一次 OOM 已发生；应回溯被杀进程、cgroup 和当时内存水位"@),
        MessageId::HealthInsightCpuLoadHigh => Some("最近多个窗口负载都偏高；命令响应可能变慢"@),
        MessageId::HealthInsightSwapPressure => Some("Swap 使用偏高并伴随内存压力；频繁换页可能拖慢命令响应"@),
        MessageId::HealthInsightServiceState => Some("服务单元 {service} 当前 {observed}，预期 {expected}"@),
        MessageId::HealthInsightGeneric => Some("启动健康检查发现了值得排查的信号"@),
        MessageId::HealthUnavailablePermissionDenied => Some("权限不足"@),
        MessageId::HealthUnavailableCommandMissing => Some("命令缺失"@),
        MessageId::HealthUnavailableTimeout => Some("检查超时"@),
        MessageId::HealthUnavailableUnsupported => Some("平台不支持"@),
        MessageId::HealthUnavailableParseError => Some("解析失败"@),
        MessageId::HealthFindingPlatformUnsupported => Some("平台不支持"@),
        MessageId::HealthFindingCoreCollectorUnavailable => Some("核心检查不可用"@),
        MessageId::HealthFindingCpuLoadHigh => Some("系统负载偏高"@),
        MessageId::HealthFindingMemoryAvailableLow => Some("可用内存偏低"@),
        MessageId::HealthFindingSwapPressure => Some("换页压力有上下文"@),
        MessageId::HealthFindingDiskHigh => Some("磁盘水位偏高"@),
        MessageId::HealthFindingRecentOom => Some("近期 OOM 信号"@),
        MessageId::HealthFindingKernelPanic => Some("近期内核 panic"@),
        MessageId::HealthFindingServiceFailed => Some("服务失败"@),
        MessageId::HealthFindingServiceInactive => Some("服务未运行"@),
        MessageId::HealthCollectorProvider => Some("Provider"@),
        MessageId::HealthCollectorConfig => Some("配置"@),
        MessageId::HealthCollectorHooks => Some("Hooks"@),
        MessageId::HealthCollectorPty => Some("PTY"@),
        MessageId::HealthCollectorPermissions => Some("权限"@),
        MessageId::HealthCollectorRuntime => Some("运行时"@),
        MessageId::HealthCollectorLogs => Some("日志"@),
        MessageId::DoctorTitle => Some("cosh-shell 体检"@),
        MessageId::DoctorStatusLabel => Some("状态"@),
        MessageId::DoctorChecksLabel => Some("检查项"@),
        MessageId::DoctorRemediationLabel => Some("补救"@),
        MessageId::DoctorAllHealthy => Some("全部检查通过"@),
        MessageId::HealthFindingProviderUnconfigured => Some("AI provider 未就绪"@),
        MessageId::HealthFindingConfigUnavailable => Some("配置不可用"@),
        MessageId::HealthFindingHooksUntrusted => Some("项目 hooks 未信任"@),
        MessageId::HealthFindingPtyUnavailable => Some("PTY 支持不可用"@),
        MessageId::HealthFindingPermissionsUnwritable => Some("配置目录不可写"@),
        MessageId::HealthFindingOrphanCore => Some("孤立的 cosh-core 进程（pid {pid}）"@),
        MessageId::HealthFindingStaleEntry => Some("{kind} 进程留下残留条目（pid {pid}，启动于 {time}）"@),
        MessageId::HealthFindingCrash => Some("{kind} 于 {time} 发生 panic：{panic}"@),
        MessageId::HealthFindingRecentErrors => Some("{file} 24h 内有 {count} 条 ERROR（最近一条 {time}）"@),
        MessageId::HealthFindingWarnFlood => Some("{file} 24h 内有 {count} 条 WARN（疑似重试循环）"@),
        MessageId::HealthRemediationProvider => Some("为 adapter '{adapter}' 配置凭据（环境变量或 config.toml），或运行 /auth"@),
        MessageId::HealthRemediationUnknownAdapter => Some("'{adapter}' 不是受支持的 adapter；请将 adapter_default 设为以下之一：fake, ClaudeCode, qwen-cli, cosh-core"@),
        MessageId::HealthRemediationConfig => Some("设置 HOME，以便 cosh-shell 解析 ~/.copilot-shell 并加载配置"@),
        MessageId::HealthRemediationConfigUnreadable => Some("请将 ~/.copilot-shell/config.toml 设为可读文件（而非目录）并修正其权限"@),
        MessageId::HealthRemediationConfigInvalid => Some("修复 ~/.copilot-shell/config.toml，使 cosh-shell 能加载（合法 TOML 或可识别的 key=value 条目）"@),
        MessageId::HealthRemediationHooks => Some("检查并信任 {path} 下的项目 hooks 后它们才会运行"@),
        MessageId::HealthRemediationPty => Some("请在真实终端中运行 cosh-shell；交互式 shell 需要 PTY（/dev/ptmx）"@),
        MessageId::HealthRemediationPermissions => Some("修正 {path} 的权限，使 cosh-shell 能写入配置、日志与状态"@),
        MessageId::HealthRemediationOrphanCore => Some("没有 shell 持有该 core；用以下命令停止：kill {pid}"@),
        MessageId::HealthRemediationStaleEntry => Some("请与 crash 记录关联查看；运行 `cosh-shell diagnostics export` 收集证据"@),
        MessageId::HealthRemediationCrash => Some("运行 `cosh-shell diagnostics export` 并在 crashes 部分查看崩溃详情"@),
        MessageId::HealthRemediationLogs => Some("运行 `cosh-shell diagnostics export` 并在 logs 部分查看错误日志"@),
        MessageId::HealthTryReasonMemoryLow => Some("可用内存偏低"@),
        MessageId::HealthTryReasonSwapWithContext => Some("swap 偏高且有压力上下文"@),
        MessageId::HealthTryReasonRecentOom => Some("近期 OOM 值得回溯原因"@),
        MessageId::HealthTryReasonDiskHigh => Some("磁盘空间紧张"@),
        MessageId::HealthTryReasonServiceState => Some("配置服务状态异常"@),
        MessageId::HealthTryReasonHighLoad => Some("最近负载持续偏高"@),
        MessageId::HealthTryReasonMissingCoreCheck => Some("核心健康检查缺失"@),
        MessageId::HealthLiveSectionTitle => Some("活会话"@),
        MessageId::HealthLiveCoreAlive => Some("core：存活（live registry 响应正常）"@),
        MessageId::HealthLiveCoreNoResponse => Some("core：无响应（{reason}）"@),
        MessageId::HealthLiveCoreNoRuntime => Some("core：无持久运行时"@),
        MessageId::HealthLiveRecovery => Some("恢复状态：{state}"@),
        MessageId::HealthLiveRoutingFacts => Some("路由：ai={ai}，assistance={assistance}，integration={integration}，marker generation={generation}"@),
        MessageId::HealthLiveCnfHandler => Some("command-not-found 处理器：{ownership}"@),
        MessageId::HealthLiveLastRoute => Some("最近路由决策：{route}"@),
        MessageId::HealthLiveRoutingHint => Some("live 事实未发现路由异常；若自然语言输入仍不路由，请检查 wrapper 覆盖与 marker generation"@),
        MessageId::HealthFindingRouteFallback => Some("路由兼容性回退，非 provider 故障：{reason}"@),
        MessageId::HealthFindingCoreNoResponse => Some("core 对 live 探测无响应：{reason}"@),
        MessageId::HealthFindingRecoveryFailed => Some("会话恢复处于异常状态（{state}）"@),
        MessageId::HealthRemediationRouteFallback => Some("参见排查文档的“输入路由”章节"@),
        MessageId::HealthRemediationCoreNoResponse => Some("运行 `cosh-shell diagnostics export` 收集证据，然后重启 cosh-shell"@),
        MessageId::HealthLiveReasonAiDisabled => Some("AI 已禁用"@),
        MessageId::HealthLiveReasonAssistanceOff => Some("assistance（路由）已关闭"@),
        MessageId::HealthLiveReasonUserCnf => Some("用户自定义 command-not-found handler 优先"@),
        MessageId::HealthLiveReasonCnfOverridden => Some("command-not-found handler 在启动后被覆盖"@),
        MessageId::HealthLiveReasonCnfMissing => Some("command-not-found handler 已被移除"@),
        MessageId::DoctorVersionLine => Some("版本：cosh-shell {shell_version}，cosh-core {core_version}"@),
        MessageId::DoctorHostLine => Some("主机：{host}"@),
        MessageId::DoctorRuntimeLine => Some("运行时：{summary}"@),
        MessageId::DoctorRuntimeSummaryNone => Some("无活跃会话"@),
        MessageId::DoctorRoutingLine => Some("路由：ai={ai}，integration={integration}，command-not-found handler={cnf}，最近路由决策={route}"@),
        MessageId::DoctorRoutingUnavailable => Some("路由：live 探针不可用；请在受影响会话内运行 /health"@),
        MessageId::DoctorLogsLine => Some("日志：level={level}，最近写入 {last}；24h 错误：{errors}"@),
        MessageId::DoctorLogsNoFiles => Some("无日志文件"@),
        MessageId::DoctorCrashesLine => Some("崩溃：24h 内 {count} 起{detail}"@),
        MessageId::DoctorExportHint => Some("下一步：运行 `cosh-shell diagnostics export` 收集脱敏证据包"@),
        MessageId::HelpDiagnosticsHint => Some("遇到问题：先在会话内运行 /health，或退出后运行 `cosh-shell doctor`"@),
        MessageId::HealthFindingWorkspaceConfinementUnsupported => Some("工作区隔离需要 Linux {required} 或更高版本"@),
        MessageId::HealthRemediationWorkspaceConfinement => Some("当前内核为 {kernel}；请使用 Linux {required} 或更高版本的内核启动，以便 Agent 隔离工作区"@),
        _ => None,
    }
}

/// The text of `id`, if this catalog holds it.
pub fn message(id: MessageId) -> (res: Option<&'static str>)
    ensures
        match res {
            Some(s) => text(id) == Some(s@),
            None => text(id) is None,
        },
{
    match id {
        MessageId::HealthBannerTitle => Some("健康检查"),
        MessageId::HealthStartupLabel => Some("健康"),
        MessageId::HealthBannerTryLabel => Some("可输入"),
        MessageId::HealthBannerFindingLabel => Some("发现"),
        MessageId::HealthBannerEvidenceLabel => Some("证据"),
        MessageId::HealthBannerMoreFindingsLabel => Some("另有 {count} 个问题"),
        MessageId::HealthBannerUnavailableLabel => Some("不可用"),
        MessageId::HealthBannerFindingsSection => Some("发现的问题"),
        MessageId::HealthBannerSuggestedPromptSection => Some("建议下一步"),
        MessageId::HealthBannerSuggestedPromptIntro => Some("以下提示词可直接输入给 Agent："),
        MessageId::HealthSeverityOk => Some("正常"),
        MessageId::HealthSeverityWarning => Some("警告"),
        MessageId::HealthSeverityCritical => Some("严重"),
        MessageId::HealthSeverityDegraded => Some("降级"),
        MessageId::HealthSeverityUnavailable => Some("不可用"),
        MessageId::HealthMetricCpu => Some("CPU"),
        MessageId::HealthMetricCpuLoadPerCore => Some("1分钟负载"),
        MessageId::HealthMetricLoad1mShort => Some("1分钟"),
        MessageId::HealthMetricLoad5mShort => Some("5分钟"),
        MessageId::HealthMetricLoadValue => Some("{load} / {cores}核（{ratio}倍）"),
        MessageId::HealthMetricCpuPerCoreUnit => Some("倍"),
        MessageId::HealthMetricCpuUsed => Some("CPU 已用"),
        MessageId::HealthMetricHost => Some("主机"),
        MessageId::HealthMetricMemory => Some("内存"),
        MessageId::HealthMetricMemoryAvailable => Some("内存可用"),
        MessageId::HealthMetricMemoryUsed => Some("内存已用"),
        MessageId::HealthMetricSwap => Some("Swap"),
        MessageId::HealthMetricSwapUsed => Some("Swap 已用"),
        MessageId::HealthMetricDisk => Some("磁盘"),
        MessageId::HealthMetricDiskUsed => Some("磁盘已用"),
        MessageId::HealthMetricDiskMountUsed => Some("磁盘 {mount} 已用"),
        MessageId::HealthMetricPressure => Some("负载"),
        MessageId::HealthMetricLevels => Some("资源"),
        MessageId::HealthMetricSignal => Some("信号"),
        MessageId::HealthMetricService => Some("服务"),
        MessageId::HealthEvidenceDiskAvailable => Some("可用 {gib} GiB"),
        MessageId::HealthEvidenceMount => Some("挂载点 {mount}"),
        MessageId::HealthEvidenceOomKilledProcess => Some("杀掉 {process}"),
        MessageId::HealthEvidenceOomCgroup => Some("cgroup {cgroup}"),
        MessageId::HealthEvidenceOomOneHourCount => Some("1h OOM {count}"),
        MessageId::HealthEvidenceOomTwentyFourHourCount => Some("24h OOM {count}"),
        MessageId::HealthEvidenceOomVictimKilledAgo => Some("{age}前杀掉 {subject}"),
        MessageId::HealthEvidenceOomVictimKilled => Some("杀掉 {subject}"),
        MessageId::HealthEvidenceOomAge => Some("OOM 发生于 {age}前"),
        MessageId::HealthOomScopeMemcg => Some("cgroup 内存限制触发"),
        MessageId::HealthOomScopeHost => Some("整机内存不足触发"),
        MessageId::HealthOomScopeCpuset => Some("cpuset/NUMA 范围内存不足"),
        MessageId::HealthOomScopeMemoryPolicy => Some("内存策略范围不足"),
        MessageId::HealthOomScopeUnknown => Some("OOM 触发范围未识别"),
        MessageId::HealthTryAnalyzeMemoryPressure => Some("分析内存压力"),
        MessageId::HealthTryCheckSwapPressure => Some("检查换页压力"),
        MessageId::HealthTryCheckRecentOom => Some("分析最近一次 OOM 原因"),
        MessageId::HealthTryInspectDiskUsage => Some("检查磁盘占用"),
        MessageId::HealthTryInspectServiceStatus => Some("检查服务状态"),
        MessageId::HealthTryInspectHighLoad => Some("分析高负载"),
        MessageId::HealthTryInspectProcessMemory => Some("检查 {process} 内存"),
        MessageId::HealthTryReviewUnavailableChecks => Some("查看缺失检查"),
        MessageId::HealthPromptAnalyzeMemoryPressure => Some("分析内存压力，找出可能影响当前 shell 的主要占用来源。"),
        MessageId::HealthPromptCheckSwapPressure => Some("检查是否存在换页压力，并找出主要相关进程。"),
        MessageId::HealthPromptCheckRecentOom => Some("帮我分析最近一次 OOM 的原因，重点看被杀进程、cgroup 和当时内存水位。"),
        MessageId::HealthPromptInspectDiskUsage => Some("检查高风险挂载点占用，并给出安全清理目标。"),
        MessageId::HealthPromptInspectServiceStatus => Some("检查配置服务状态，并分析最近可能的失败原因。"),
        MessageId::HealthPromptInspectHighLoad => Some("分析当前高负载，判断主要来自 CPU 还是 IO 压力。"),
        MessageId::HealthPromptInspectProcessMemory => Some("帮我分析最近一次 OOM 为什么杀掉 {process}，重点看 cgroup 和内存上限。"),
        MessageId::HealthPromptReviewUnavailableChecks => Some("说明启动健康检查为什么不可用，以及如何恢复这些检查。"),
        MessageId::HealthInsightMemoryAvailableLow => Some("可用内存偏低；命令可能变慢，新进程也可能启动失败"),
        MessageId::HealthInsightDiskHigh => Some("最高风险挂载点磁盘水位偏高；写入或构建可能很快失败"),
        MessageId::HealthInsightRecentOom => Some("最近一次 OOM 已发生；应回溯被杀进程、cgroup 和当时内存水位"),
        MessageId::HealthInsightCpuLoadHigh => Some("最近多个窗口负载都偏高；命令响应可能变慢"),
        MessageId::HealthInsightSwapPressure => Some("Swap 使用偏高并伴随内存压力；频繁换页可能拖慢命令响应"),
        MessageId::HealthInsightServiceState => Some("服务单元 {service} 当前 {observed}，预期 {expected}"),
        MessageId::HealthInsightGeneric => Some("启动健康检查发现了值得排查的信号"),
        MessageId::HealthUnavailablePermissionDenied => Some("权限不足"),
        MessageId::HealthUnavailableCommandMissing => Some("命令缺失"),
        MessageId::HealthUnavailableTimeout => Some("检查超时"),
        MessageId::HealthUnavailableUnsupported => Some("平台不支持"),
        MessageId::HealthUnavailableParseError => Some("解析失败"),
        MessageId::HealthFindingPlatformUnsupported => Some("平台不支持"),
        MessageId::HealthFindingCoreCollectorUnavailable => Some("核心检查不可用"),
        MessageId::HealthFindingCpuLoadHigh => Some("系统负载偏高"),
        MessageId::HealthFindingMemoryAvailableLow => Some("可用内存偏低"),
        MessageId::HealthFindingSwapPressure => Some("换页压力有上下文"),
        MessageId::HealthFindingDiskHigh => Some("磁盘水位偏高"),
        MessageId::HealthFindingRecentOom => Some("近期 OOM 信号"),
        MessageId::HealthFindingKernelPanic => Some("近期内核 panic"),
        MessageId::HealthFindingServiceFailed => Some("服务失败"),
        MessageId::HealthFindingServiceInactive => Some("服务未运行"),
        MessageId::HealthCollectorProvider => Some("Provider"),
        MessageId::HealthCollectorConfig => Some("配置"),
        MessageId::HealthCollectorHooks => Some("Hooks"),
        MessageId::HealthCollectorPty => Some("PTY"),
        MessageId::HealthCollectorPermissions => Some("权限"),
        MessageId::HealthCollectorRuntime => Some("运行时"),
        MessageId::HealthCollectorLogs => Some("日志"),
        MessageId::DoctorTitle => Some("cosh-shell 体检"),
        MessageId::DoctorStatusLabel => Some("状态"),
        MessageId::DoctorChecksLabel => Some("检查项"),
        MessageId::DoctorRemediationLabel => Some("补救"),
        MessageId::DoctorAllHealthy => Some("全部检查通过"),
        MessageId::HealthFindingProviderUnconfigured => Some("AI provider 未就绪"),
        MessageId::HealthFindingConfigUnavailable => Some("配置不可用"),
        MessageId::HealthFindingHooksUntrusted => Some("项目 hooks 未信任"),
        MessageId::HealthFindingPtyUnavailable => Some("PTY 支持不可用"),
        MessageId::HealthFindingPermissionsUnwritable => Some("配置目录不可写"),
        MessageId::HealthFindingOrphanCore => Some("孤立的 cosh-core 进程（pid {pid}）"),
        MessageId::HealthFindingStaleEntry => Some("{kind} 进程留下残留条目（pid {pid}，启动于 {time}）"),
        MessageId::HealthFindingCrash => Some("{kind} 于 {time} 发生 panic：{panic}"),
        MessageId::HealthFindingRecentErrors => Some("{file} 24h 内有 {count} 条 ERROR（最近一条 {time}）"),
        MessageId::HealthFindingWarnFlood => Some("{file} 24h 内有 {count} 条 WARN（疑似重试循环）"),
        MessageId::HealthRemediationProvider => Some("为 adapter '{adapter}' 配置凭据（环境变量或 config.toml），或运行 /auth"),
        MessageId::HealthRemediationUnknownAdapter => Some("'{adapter}' 不是受支持的 adapter；请将 adapter_default 设为以下之一：fake, ClaudeCode, qwen-cli, cosh-core"),
        MessageId::HealthRemediationConfig => Some("设置 HOME，以便 cosh-shell 解析 ~/.copilot-shell 并加载配置"),
        MessageId::HealthRemediationConfigUnreadable => Some("请将 ~/.copilot-shell/config.toml 设为可读文件（而非目录）并修正其权限"),
        MessageId::HealthRemediationConfigInvalid => Some("修复 ~/.copilot-shell/config.toml，使 cosh-shell 能加载（合法 TOML 或可识别的 key=value 条目）"),
        MessageId::HealthRemediationHooks => Some("检查并信任 {path} 下的项目 hooks 后它们才会运行"),
        MessageId::HealthRemediationPty => Some("请在真实终端中运行 cosh-shell；交互式 shell 需要 PTY（/dev/ptmx）"),
        MessageId::HealthRemediationPermissions => Some("修正 {path} 的权限，使 cosh-shell 能写入配置、日志与状态"),
        MessageId::HealthRemediationOrphanCore => Some("没有 shell 持有该 core；用以下命令停止：kill {pid}"),
        MessageId::HealthRemediationStaleEntry => Some("请与 crash 记录关联查看；运行 `cosh-shell diagnostics export` 收集证据"),
        MessageId::HealthRemediationCrash => Some("运行 `cosh-shell diagnostics export` 并在 crashes 部分查看崩溃详情"),
        MessageId::HealthRemediationLogs => Some("运行 `cosh-shell diagnostics export` 并在 logs 部分查看错误日志"),
        MessageId::HealthTryReasonMemoryLow => Some("可用内存偏低"),
        MessageId::HealthTryReasonSwapWithContext => Some("swap 偏高且有压力上下文"),
        MessageId::HealthTryReasonRecentOom => Some("近期 OOM 值得回溯原因"),
        MessageId::HealthTryReasonDiskHigh => Some("磁盘空间紧张"),
        MessageId::HealthTryReasonServiceState => Some("配置服务状态异常"),
        MessageId::HealthTryReasonHighLoad => Some("最近负载持续偏高"),
        MessageId::HealthTryReasonMissingCoreCheck => Some("核心健康检查缺失"),
        MessageId::HealthLiveSectionTitle => Some("活会话"),
        MessageId::HealthLiveCoreAlive => Some("core：存活（live registry 响应正常）"),
        MessageId::HealthLiveCoreNoResponse => Some("core：无响应（{reason}）"),
        MessageId::HealthLiveCoreNoRuntime => Some("core：无持久运行时"),
        MessageId::HealthLiveRecovery => Some("恢复状态：{state}"),
        MessageId::HealthLiveRoutingFacts => Some("路由：ai={ai}，assistance={assistance}，integration={integration}，marker generation={generation}"),
        MessageId::HealthLiveCnfHandler => Some("command-not-found 处理器：{ownership}"),
        MessageId::HealthLiveLastRoute => Some("最近路由决策：{route}"),
        MessageId::HealthLiveRoutingHint => Some("live 事实未发现路由异常；若自然语言输入仍不路由，请检查 wrapper 覆盖与 marker generation"),
        MessageId::HealthFindingRouteFallback => Some("路由兼容性回退，非 provider 故障：{reason}"),
        MessageId::HealthFindingCoreNoResponse => Some("core 对 live 探测无响应：{reason}"),
        MessageId::HealthFindingRecoveryFailed => Some("会话恢复处于异常状态（{state}）"),
        MessageId::HealthRemediationRouteFallback => Some("参见排查文档的“输入路由”章节"),
        MessageId::HealthRemediationCoreNoResponse => Some("运行 `cosh-shell diagnostics export` 收集证据，然后重启 cosh-shell"),
        MessageId::HealthLiveReasonAiDisabled => Some("AI 已禁用"),
        MessageId::HealthLiveReasonAssistanceOff => Some("assistance（路由）已关闭"),
        MessageId::HealthLiveReasonUserCnf => Some("用户自定义 command-not-found handler 优先"),
        MessageId::HealthLiveReasonCnfOverridden => Some("command-not-found handler 在启动后被覆盖"),
        MessageId::HealthLiveReasonCnfMissing => Some("command-not-found handler 已被移除"),
        MessageId::DoctorVersionLine => Some("版本：cosh-shell {shell_version}，cosh-core {core_version}"),
        MessageId::DoctorHostLine => Some("主机：{host}"),
        MessageId::DoctorRuntimeLine => Some("运行时：{summary}"),
        MessageId::DoctorRuntimeSummaryNone => Some("无活跃会话"),
        MessageId::DoctorRoutingLine => Some("路由：ai={ai}，integration={integration}，command-not-found handler={cnf}，最近路由决策={route}"),
        MessageId::DoctorRoutingUnavailable => Some("路由：live 探针不可用；请在受影响会话内运行 /health"),
        MessageId::DoctorLogsLine => Some("日志：level={level}，最近写入 {last}；24h 错误：{errors}"),
        MessageId::DoctorLogsNoFiles => Some("无日志文件"),
        MessageId::DoctorCrashesLine => Some("崩溃：24h 内 {count} 起{detail}"),
        MessageId::DoctorExportHint => Some("下一步：运行 `cosh-shell diagnostics export` 收集脱敏证据包"),
        MessageId::HelpDiagnosticsHint => Some("遇到问题：先在会话内运行 /health，或退出后运行 `cosh-shell doctor`"),
        MessageId::HealthFindingWorkspaceConfinementUnsupported => Some("工作区隔离需要 Linux {required} 或更高版本"),
        MessageId::HealthRemediationWorkspaceConfinement => Some("当前内核为 {kernel}；请使用 Linux {required} 或更高版本的内核启动，以便 Agent 隔离工作区"),
        _ => None,
    }
}

/// No text of this catalog is empty, and between its braces stand the slots of its
/// message.
pub(crate) proof fn lemma_slots(id: MessageId)
    ensures
        text(id) matches Some(t) ==> t.len() > 0 && named_from(t, 0, None) == slots(id),
{
    if let Some(t) = text(id) {
        match id {
            MessageId::HealthBannerTitle => {
                reveal_strlit("健康检查");
                lemma_rest(t, 0);
            },
            MessageId::HealthStartupLabel => {
                reveal_strlit("健康");
                lemma_rest(t, 0);
            },
            MessageId::HealthBannerTryLabel => {
                reveal_strlit("可输入");
                lemma_rest(t, 0);
            },
            MessageId::HealthBannerFindingLabel => {
                reveal_strlit("发现");
                lemma_rest(t, 0);
            },
            MessageId::HealthBannerEvidenceLabel => {
                reveal_strlit("证据");
                lemma_rest(t, 0);
            },
            MessageId::HealthBannerMoreFindingsLabel => {
                reveal_strlit("另有 {count} 个问题");
                reveal_strlit("count");
                lemma_slot(t, 0, 3, "count"@);
                lemma_rest(t, 10);
            },
            MessageId::HealthBannerUnavailableLabel => {
                reveal_strlit("不可用");
                lemma_rest(t, 0);
            },
            MessageId::HealthBannerFindingsSection => {
                reveal_strlit("发现的问题");
                lemma_rest(t, 0);
            },
            MessageId::HealthBannerSuggestedPromptSection => {
                reveal_strlit("建议下一步");
                lemma_rest(t, 0);
            },
            MessageId::HealthBannerSuggestedPromptIntro => {
                reveal_strlit("以下提示词可直接输入给 Agent：");
                lemma_rest(t, 0);
            },
            MessageId::HealthSeverityOk => {
                reveal_strlit("正常");
                lemma_rest(t, 0);
            },
            MessageId::HealthSeverityWarning => {
                reveal_strlit("警告");
                lemma_rest(t, 0);
            },
            MessageId::HealthSeverityCritical => {
                reveal_strlit("严重");
                lemma_rest(t, 0);
            },
            MessageId::HealthSeverityDegraded => {
                reveal_strlit("降级");
                lemma_rest(t, 0);
            },
            MessageId::HealthSeverityUnavailable => {
                reveal_strlit("不可用");
                lemma_rest(t, 0);
            },
            MessageId::HealthMetricCpu => {
                reveal_strlit("CPU");
                lemma_rest(t, 0);
            },
            MessageId::HealthMetricCpuLoadPerCore => {
                reveal_strlit("1分钟负载");
                lemma_rest(t, 0);
            },
            MessageId::HealthMetricLoad1mShort => {
                reveal_strlit("1分钟");
                lemma_rest(t, 0);
            },
            MessageId::HealthMetricLoad5mShort => {
                reveal_strlit("5分钟");
                lemma_rest(t, 0);
            },
            MessageId::HealthMetricLoadValue => {
                reveal_strlit("{load} / {cores}核（{ratio}倍）");
                reveal_strlit("load");
                reveal_strlit("cores");
                reveal_strlit("ratio");
                lemma_slot(t, 0, 0, "load"@);
                lemma_slot(t, 6, 9, "cores"@);
                lemma_slot(t, 16, 18, "ratio"@);
                lemma_rest(t, 25);
            },
            MessageId::HealthMetricCpuPerCoreUnit => {
                reveal_strlit("倍");
                lemma_rest(t, 0);
            },
            MessageId::HealthMetricCpuUsed => {
                reveal_strlit("CPU 已用");
                lemma_rest(t, 0);
            },
            MessageId::HealthMetricHost => {
                reveal_strlit("主机");
                lemma_rest(t, 0);
            },
            MessageId::HealthMetricMemory => {
                reveal_strlit("内存");
                lemma_rest(t, 0);
            },
            MessageId::HealthMetricMemoryAvailable => {
                reveal_strlit("内存可用");
                lemma_rest(t, 0);
            },
            MessageId::HealthMetricMemoryUsed => {
                reveal_strlit("内存已用");
                lemma_rest(t, 0);
            },
            MessageId::HealthMetricSwap => {
                reveal_strlit("Swap");
                lemma_rest(t, 0);
            },
            MessageId::HealthMetricSwapUsed => {
                reveal_strlit("Swap 已用");
                lemma_rest(t, 0);
            },
            MessageId::HealthMetricDisk => {
                reveal_strlit("磁盘");
                lemma_rest(t, 0);
            },
            MessageId::HealthMetricDiskUsed => {
                reveal_strlit("磁盘已用");
                lemma_rest(t, 0);
            },
            MessageId::HealthMetricDiskMountUsed => {
                reveal_strlit("磁盘 {mount} 已用");
                reveal_strlit("mount");
                lemma_slot(t, 0, 3, "mount"@);
                lemma_rest(t, 10);
            },
            MessageId::HealthMetricPressure => {
                reveal_strlit("负载");
                lemma_rest(t, 0);
            },
            MessageId::HealthMetricLevels => {
                reveal_strlit("资源");
                lemma_rest(t, 0);
            },
            MessageId::HealthMetricSignal => {
                reveal_strlit("信号");
                lemma_rest(t, 0);
            },
            MessageId::HealthMetricService => {
                reveal_strlit("服务");
                lemma_rest(t, 0);
            },
            MessageId::HealthEvidenceDiskAvailable => {
                reveal_strlit("可用 {gib} GiB");
                reveal_strlit("gib");
                lemma_slot(t, 0, 3, "gib"@);
                lemma_rest(t, 8);
            },
            MessageId::HealthEvidenceMount => {
                reveal_strlit("挂载点 {mount}");
                reveal_strlit("mount");
                lemma_slot(t, 0, 4, "mount"@);
                lemma_rest(t, 11);
            },
            MessageId::HealthEvidenceOomKilledProcess => {
                reveal_strlit("杀掉 {process}");
                reveal_strlit("process");
                lemma_slot(t, 0, 3, "process"@);
                lemma_rest(t, 12);
            },
            MessageId::HealthEvidenceOomCgroup => {
                reveal_strlit("cgroup {cgroup}");
                reveal_strlit("cgroup");
                lemma_slot(t, 0, 7, "cgroup"@);
                lemma_rest(t, 15);
            },
            MessageId::HealthEvidenceOomOneHourCount => {
                reveal_strlit("1h OOM {count}");
                reveal_strlit("count");
                lemma_slot(t, 0, 7, "count"@);
                lemma_rest(t, 14);
            },
            MessageId::HealthEvidenceOomTwentyFourHourCount => {
                reveal_strlit("24h OOM {count}");
                reveal_strlit("count");
                lemma_slot(t, 0, 8, "count"@);
                lemma_rest(t, 15);
            },
            MessageId::HealthEvidenceOomVictimKilledAgo => {
                reveal_strlit("{age}前杀掉 {subject}");
                reveal_strlit("age");
                reveal_strlit("subject");
                lemma_slot(t, 0, 0, "age"@);
                lemma_slot(t, 5, 9, "subject"@);
                lemma_rest(t, 18);
            },
            MessageId::HealthEvidenceOomVictimKilled => {
                reveal_strlit("杀掉 {subject}");
                reveal_strlit("subject");
                lemma_slot(t, 0, 3, "subject"@);
                lemma_rest(t, 12);
            },
            MessageId::HealthEvidenceOomAge => {
                reveal_strlit("OOM 发生于 {age}前");
                reveal_strlit("age");
                lemma_slot(t, 0, 8, "age"@);
                lemma_rest(t, 13);
            },
            MessageId::HealthOomScopeMemcg => {
                reveal_strlit("cgroup 内存限制触发");
                lemma_rest(t, 0);
            },
            MessageId::HealthOomScopeHost => {
                reveal_strlit("整机内存不足触发");
                lemma_rest(t, 0);
            },
            MessageId::HealthOomScopeCpuset => {
                reveal_strlit("cpuset/NUMA 范围内存不足");
                lemma_rest(t, 0);
            },
            MessageId::HealthOomScopeMemoryPolicy => {
                reveal_strlit("内存策略范围不足");
                lemma_rest(t, 0);
            },
            MessageId::HealthOomScopeUnknown => {
                reveal_strlit("OOM 触发范围未识别");
                lemma_rest(t, 0);
            },
            MessageId::HealthTryAnalyzeMemoryPressure => {
                reveal_strlit("分析内存压力");
                lemma_rest(t, 0);
            },
            MessageId::HealthTryCheckSwapPressure => {
                reveal_strlit("检查换页压力");
                lemma_rest(t, 0);
            },
            MessageId::HealthTryCheckRecentOom => {
                reveal_strlit("分析最近一次 OOM 原因");
                lemma_rest(t, 0);
            },
            MessageId::HealthTryInspectDiskUsage => {
                reveal_strlit("检查磁盘占用");
                lemma_rest(t, 0);
            },
            MessageId::HealthTryInspectServiceStatus => {
                reveal_strlit("检查服务状态");
                lemma_rest(t, 0);
            },
            MessageId::HealthTryInspectHighLoad => {
                reveal_strlit("分析高负载");
                lemma_rest(t, 0);
            },
            MessageId::HealthTryInspectProcessMemory => {
                reveal_strlit("检查 {process} 内存");
                reveal_strlit("process");
                lemma_slot(t, 0, 3, "process"@);
                lemma_rest(t, 12);
            },
            MessageId::HealthTryReviewUnavailableChecks => {
                reveal_strlit("查看缺失检查");
                lemma_rest(t, 0);
            },
            MessageId::HealthPromptAnalyzeMemoryPressure => {
                reveal_strlit("分析内存压力，找出可能影响当前 shell 的主要占用来源。");
                lemma_rest(t, 0);
            },
            MessageId::HealthPromptCheckSwapPressure => {
                reveal_strlit("检查是否存在换页压力，并找出主要相关进程。");
                lemma_rest(t, 0);
            },
            MessageId::HealthPromptCheckRecentOom => {
                reveal_strlit("帮我分析最近一次 OOM 的原因，重点看被杀进程、cgroup 和当时内存水位。");
                lemma_rest(t, 0);
            },
            MessageId::HealthPromptInspectDiskUsage => {
                reveal_strlit("检查高风险挂载点占用，并给出安全清理目标。");
                lemma_rest(t, 0);
            },
            MessageId::HealthPromptInspectServiceStatus => {
                reveal_strlit("检查配置服务状态，并分析最近可能的失败原因。");
                lemma_rest(t, 0);
            },
            MessageId::HealthPromptInspectHighLoad => {
                reveal_strlit("分析当前高负载，判断主要来自 CPU 还是 IO 压力。");
                lemma_rest(t, 0);
            },
            MessageId::HealthPromptInspectProcessMemory => {
                reveal_strlit("帮我分析最近一次 OOM 为什么杀掉 {process}，重点看 cgroup 和内存上限。");
                reveal_strlit("process");
                lemma_slot(t, 0, 19, "process"@);
                lemma_rest(t, 28);
            },
            MessageId::HealthPromptReviewUnavailableChecks => {
                reveal_strlit("说明启动健康检查为什么不可用，以及如何恢复这些检查。");
                lemma_rest(t, 0);
            },
            MessageId::HealthInsightMemoryAvailableLow => {
                reveal_strlit("可用内存偏低；命令可能变慢，新进程也可能启动失败");
                lemma_rest(t, 0);
            },
            MessageId::HealthInsightDiskHigh => {
                reveal_strlit("最高风险挂载点磁盘水位偏高；写入或构建可能很快失败");
                lemma_rest(t, 0);
            },
            MessageId::HealthInsightRecentOom => {
                reveal_strlit("最近一次 OOM 已发生；应回溯被杀进程、cgroup 和当时内存水位");
                lemma_rest(t, 0);
            },
            MessageId::HealthInsightCpuLoadHigh => {
                reveal_strlit("最近多个窗口负载都偏高；命令响应可能变慢");
                lemma_rest(t, 0);
            },
            MessageId::HealthInsightSwapPressure => {
                reveal_strlit("Swap 使用偏高并伴随内存压力；频繁换页可能拖慢命令响应");
                lemma_rest(t, 0);
            },
            MessageId::HealthInsightServiceState => {
                reveal_strlit("服务单元 {service} 当前 {observed}，预期 {expected}");
                reveal_strlit("service");
                reveal_strlit("observed");
                reveal_strlit("expected");
                lemma_slot(t, 0, 5, "service"@);
                lemma_slot(t, 14, 18, "observed"@);
                lemma_slot(t, 28, 32, "expected"@);
                lemma_rest(t, 42);
            },
            MessageId::HealthInsightGeneric => {
                reveal_strlit("启动健康检查发现了值得排查的信号");
                lemma_rest(t, 0);
            },
            MessageId::HealthUnavailablePermissionDenied => {
                reveal_strlit("权限不足");
                lemma_rest(t, 0);
            },
            MessageId::HealthUnavailableCommandMissing => {
                reveal_strlit("命令缺失");
                lemma_rest(t, 0);
            },
            MessageId::HealthUnavailableTimeout => {
                reveal_strlit("检查超时");
                lemma_rest(t, 0);
            },
            MessageId::HealthUnavailableUnsupported => {
                reveal_strlit("平台不支持");
                lemma_rest(t, 0);
            },
            MessageId::HealthUnavailableParseError => {
                reveal_strlit("解析失败");
                lemma_rest(t, 0);
            },
            MessageId::HealthFindingPlatformUnsupported => {
                reveal_strlit("平台不支持");
                lemma_rest(t, 0);
            },
            MessageId::HealthFindingCoreCollectorUnavailable => {
                reveal_strlit("核心检查不可用");
                lemma_rest(t, 0);
            },
            MessageId::HealthFindingCpuLoadHigh => {
                reveal_strlit("系统负载偏高");
                lemma_rest(t, 0);
            },
            MessageId::HealthFindingMemoryAvailableLow => {
                reveal_strlit("可用内存偏低");
                lemma_rest(t, 0);
            },
            MessageId::HealthFindingSwapPressure => {
                reveal_strlit("换页压力有上下文");
                lemma_rest(t, 0);
            },
            MessageId::HealthFindingDiskHigh => {
                reveal_strlit("磁盘水位偏高");
                lemma_rest(t, 0);
            },
            MessageId::HealthFindingRecentOom => {
                reveal_strlit("近期 OOM 信号");
                lemma_rest(t, 0);
            },
            MessageId::HealthFindingKernelPanic => {
                reveal_strlit("近期内核 panic");
                lemma_rest(t, 0);
            },
            MessageId::HealthFindingServiceFailed => {
                reveal_strlit("服务失败");
                lemma_rest(t, 0);
            },
            MessageId::HealthFindingServiceInactive => {
                reveal_strlit("服务未运行");
                lemma_rest(t, 0);
            },
            MessageId::HealthCollectorProvider => {
                reveal_strlit("Provider");
                lemma_rest(t, 0);
            },
            MessageId::HealthCollectorConfig => {
                reveal_strlit("配置");
                lemma_rest(t, 0);
            },
            MessageId::HealthCollectorHooks => {
                reveal_strlit("Hooks");
                lemma_rest(t, 0);
            },
            MessageId::HealthCollectorPty => {
                reveal_strlit("PTY");
                lemma_rest(t, 0);
            },
            MessageId::HealthCollectorPermissions => {
                reveal_strlit("权限");
                lemma_rest(t, 0);
            },
            MessageId::HealthCollectorRuntime => {
                reveal_strlit("运行时");
                lemma_rest(t, 0);
            },
            MessageId::HealthCollectorLogs => {
                reveal_strlit("日志");
                lemma_rest(t, 0);
            },
            MessageId::DoctorTitle => {
                reveal_strlit("cosh-shell 体检");
                lemma_rest(t, 0);
            },
            MessageId::DoctorStatusLabel => {
                reveal_strlit("状态");
                lemma_rest(t, 0);
            },
            MessageId::DoctorChecksLabel => {
                reveal_strlit("检查项");
                lemma_rest(t, 0);
            },
            MessageId::DoctorRemediationLabel => {
                reveal_strlit("补救");
                lemma_rest(t, 0);
            },
            MessageId::DoctorAllHealthy => {
                reveal_strlit("全部检查通过");
                lemma_rest(t, 0);
            },
            MessageId::HealthFindingProviderUnconfigured => {
                reveal_strlit("AI provider 未就绪");
                lemma_rest(t, 0);
            },
            MessageId::HealthFindingConfigUnavailable => {
                reveal_strlit("配置不可用");
                lemma_rest(t, 0);
            },
            MessageId::HealthFindingHooksUntrusted => {
                reveal_strlit("项目 hooks 未信任");
                lemma_rest(t, 0);
            },
            MessageId::HealthFindingPtyUnavailable => {
                reveal_strlit("PTY 支持不可用");
                lemma_rest(t, 0);
            },
            MessageId::HealthFindingPermissionsUnwritable => {
                reveal_strlit("配置目录不可写");
                lemma_rest(t, 0);
            },
            MessageId::HealthFindingOrphanCore => {
                reveal_strlit("孤立的 cosh-core 进程（pid {pid}）");
                reveal_strlit("pid");
                lemma_slot(t, 0, 21, "pid"@);
                lemma_rest(t, 26);
            },
            MessageId::HealthFindingStaleEntry => {
                reveal_strlit("{kind} 进程留下残留条目（pid {pid}，启动于 {time}）");
                reveal_strlit("kind");
                reveal_strlit("pid");
                reveal_strlit("time");
                lemma_slot(t, 0, 0, "kind"@);
                lemma_slot(t, 6, 20, "pid"@);
                lemma_slot(t, 25, 30, "time"@);
                lemma_rest(t, 36);
            },
            MessageId::HealthFindingCrash => {
                reveal_strlit("{kind} 于 {time} 发生 panic：{panic}");
                reveal_strlit("kind");
                reveal_strlit("time");
                reveal_strlit("panic");
                lemma_slot(t, 0, 0, "kind"@);
                lemma_slot(t, 6, 9, "time"@);
                lemma_slot(t, 15, 25, "panic"@);
                lemma_rest(t, 32);
            },
            MessageId::HealthFindingRecentErrors => {
                reveal_strlit("{file} 24h 内有 {count} 条 ERROR（最近一条 {time}）");
                reveal_strlit("file");
                reveal_strlit("count");
                reveal_strlit("time");
                lemma_slot(t, 0, 0, "file"@);
                lemma_slot(t, 6, 14, "count"@);
                lemma_slot(t, 21, 35, "time"@);
                lemma_rest(t, 41);
            },
            MessageId::HealthFindingWarnFlood => {
                reveal_strlit("{file} 24h 内有 {count} 条 WARN（疑似重试循环）");
                reveal_strlit("file");
                reveal_strlit("count");
                lemma_slot(t, 0, 0, "file"@);
                lemma_slot(t, 6, 14, "count"@);
                lemma_rest(t, 21);
            },
            MessageId::HealthRemediationProvider => {
                reveal_strlit("为 adapter '{adapter}' 配置凭据（环境变量或 config.toml），或运行 /auth");
                reveal_strlit("adapter");
                lemma_slot(t, 0, 11, "adapter"@);
                lemma_rest(t, 20);
            },
            MessageId::HealthRemediationUnknownAdapter => {
                reveal_strlit("'{adapter}' 不是受支持的 adapter；请将 adapter_default 设为以下之一：fake, ClaudeCode, qwen-cli, cosh-core");
                reveal_strlit("adapter");
                lemma_slot(t, 0, 1, "adapter"@);
                lemma_rest(t, 10);
            },
            MessageId::HealthRemediationConfig => {
                reveal_strlit("设置 HOME，以便 cosh-shell 解析 ~/.copilot-shell 并加载配置");
                lemma_rest(t, 0);
            },
            MessageId::HealthRemediationConfigUnreadable => {
                reveal_strlit("请将 ~/.copilot-shell/config.toml 设为可读文件（而非目录）并修正其权限");
                lemma_rest(t, 0);
            },
            MessageId::HealthRemediationConfigInvalid => {
                reveal_strlit("修复 ~/.copilot-shell/config.toml，使 cosh-shell 能加载（合法 TOML 或可识别的 key=value 条目）");
                lemma_rest(t, 0);
            },
            MessageId::HealthRemediationHooks => {
                reveal_strlit("检查并信任 {path} 下的项目 hooks 后它们才会运行");
                reveal_strlit("path");
                lemma_slot(t, 0, 6, "path"@);
                lemma_rest(t, 12);
            },
            MessageId::HealthRemediationPty => {
                reveal_strlit("请在真实终端中运行 cosh-shell；交互式 shell 需要 PTY（/dev/ptmx）");
                lemma_rest(t, 0);
            },
            MessageId::HealthRemediationPermissions => {
                reveal_strlit("修正 {path} 的权限，使 cosh-shell 能写入配置、日志与状态");
                reveal_strlit("path");
                lemma_slot(t, 0, 3, "path"@);
                lemma_rest(t, 9);
            },
            MessageId::HealthRemediationOrphanCore => {
                reveal_strlit("没有 shell 持有该 core；用以下命令停止：kill {pid}");
                reveal_strlit("pid");
                lemma_slot(t, 0, 31, "pid"@);
                lemma_rest(t, 36);
            },
            MessageId::HealthRemediationStaleEntry => {
                reveal_strlit("请与 crash 记录关联查看；运行 `cosh-shell diagnostics export` 收集证据");
                lemma_rest(t, 0);
            },
            MessageId::HealthRemediationCrash => {
                reveal_strlit("运行 `cosh-shell diagnostics export` 并在 crashes 部分查看崩溃详情");
                lemma_rest(t, 0);
            },
            MessageId::HealthRemediationLogs => {
                reveal_strlit("运行 `cosh-shell diagnostics export` 并在 logs 部分查看错误日志");
                lemma_rest(t, 0);
            },
            MessageId::HealthTryReasonMemoryLow => {
                reveal_strlit("可用内存偏低");
                lemma_rest(t, 0);
            },
            MessageId::HealthTryReasonSwapWithContext => {
                reveal_strlit("swap 偏高且有压力上下文");
                lemma_rest(t, 0);
            },
            MessageId::HealthTryReasonRecentOom => {
                reveal_strlit("近期 OOM 值得回溯原因");
                lemma_rest(t, 0);
            },
            MessageId::HealthTryReasonDiskHigh => {
                reveal_strlit("磁盘空间紧张");
                lemma_rest(t, 0);
            },
            MessageId::HealthTryReasonServiceState => {
                reveal_strlit("配置服务状态异常");
                lemma_rest(t, 0);
            },
            MessageId::HealthTryReasonHighLoad => {
                reveal_strlit("最近负载持续偏高");
                lemma_rest(t, 0);
            },
            MessageId::HealthTryReasonMissingCoreCheck => {
                reveal_strlit("核心健康检查缺失");
                lemma_rest(t, 0);
            },
            MessageId::HealthLiveSectionTitle => {
                reveal_strlit("活会话");
                lemma_rest(t, 0);
            },
            MessageId::HealthLiveCoreAlive => {
                reveal_strlit("core：存活（live registry 响应正常）");
                lemma_rest(t, 0);
            },
            MessageId::HealthLiveCoreNoResponse => {
                reveal_strlit("core：无响应（{reason}）");
                reveal_strlit("reason");
                lemma_slot(t, 0, 9, "reason"@);
                lemma_rest(t, 17);
            },
            MessageId::HealthLiveCoreNoRuntime => {
                reveal_strlit("core：无持久运行时");
                lemma_rest(t, 0);
            },
            MessageId::HealthLiveRecovery => {
                reveal_strlit("恢复状态：{state}");
                reveal_strlit("state");
                lemma_slot(t, 0, 5, "state"@);
                lemma_rest(t, 12);
            },
            MessageId::HealthLiveRoutingFacts => {
                reveal_strlit("路由：ai={ai}，assistance={assistance}，integration={integration}，marker generation={generation}");
                reveal_strlit("ai");
                reveal_strlit("assistance");
                reveal_strlit("integration");
                reveal_strlit("generation");
                lemma_slot(t, 0, 6, "ai"@);
                lemma_slot(t, 10, 22, "assistance"@);
                lemma_slot(t, 34, 47, "integration"@);
                lemma_slot(t, 60, 79, "generation"@);
                lemma_rest(t, 91);
            },
            MessageId::HealthLiveCnfHandler => {
                reveal_strlit("command-not-found 处理器：{ownership}");
                reveal_strlit("ownership");
                lemma_slot(t, 0, 22, "ownership"@);
                lemma_rest(t, 33);
            },
            MessageId::HealthLiveLastRoute => {
                reveal_strlit("最近路由决策：{route}");
                reveal_strlit("route");
                lemma_slot(t, 0, 7, "route"@);
                lemma_rest(t, 14);
            },
            MessageId::HealthLiveRoutingHint => {
                reveal_strlit("live 事实未发现路由异常；若自然语言输入仍不路由，请检查 wrapper 覆盖与 marker generation");
                lemma_rest(t, 0);
            },
            MessageId::HealthFindingRouteFallback => {
                reveal_strlit("路由兼容性回退，非 provider 故障：{reason}");
                reveal_strlit("reason");
                lemma_slot(t, 0, 22, "reason"@);
                lemma_rest(t, 30);
            },
            MessageId::HealthFindingCoreNoResponse => {
                reveal_strlit("core 对 live 探测无响应：{reason}");
                reveal_strlit("reason");
                lemma_slot(t, 0, 18, "reason"@);
                lemma_rest(t, 26);
            },
            MessageId::HealthFindingRecoveryFailed => {
                reveal_strlit("会话恢复处于异常状态（{state}）");
                reveal_strlit("state");
                lemma_slot(t, 0, 11, "state"@);
                lemma_rest(t, 18);
            },
            MessageId::HealthRemediationRouteFallback => {
                reveal_strlit("参见排查文档的“输入路由”章节");
                lemma_rest(t, 0);
            },
            MessageId::HealthRemediationCoreNoResponse => {
                reveal_strlit("运行 `cosh-shell diagnostics export` 收集证据，然后重启 cosh-shell");
                lemma_rest(t, 0);
            },
            MessageId::HealthLiveReasonAiDisabled => {
                reveal_strlit("AI 已禁用");
                lemma_rest(t, 0);
            },
            MessageId::HealthLiveReasonAssistanceOff => {
                reveal_strlit("assistance（路由）已关闭");
                lemma_rest(t, 0);
            },
            MessageId::HealthLiveReasonUserCnf => {
                reveal_strlit("用户自定义 command-not-found handler 优先");
                lemma_rest(t, 0);
            },
            MessageId::HealthLiveReasonCnfOverridden => {
                reveal_strlit("command-not-found handler 在启动后被覆盖");
                lemma_rest(t, 0);
            },
            MessageId::HealthLiveReasonCnfMissing => {
                reveal_strlit("command-not-found handler 已被移除");
                lemma_rest(t, 0);
            },
            MessageId::DoctorVersionLine => {
                reveal_strlit("版本：cosh-shell {shell_version}，cosh-core {core_version}");
                reveal_strlit("shell_version");
                reveal_strlit("core_version");
                lemma_slot(t, 0, 14, "shell_version"@);
                lemma_slot(t, 29, 40, "core_version"@);
                lemma_rest(t, 54);
            },
            MessageId::DoctorHostLine => {
                reveal_strlit("主机：{host}");
                reveal_strlit("host");
                lemma_slot(t, 0, 3, "host"@);
                lemma_rest(t, 9);
            },
            MessageId::DoctorRuntimeLine => {
                reveal_strlit("运行时：{summary}");
                reveal_strlit("summary");
                lemma_slot(t, 0, 4, "summary"@);
                lemma_rest(t, 13);
            },
            MessageId::DoctorRuntimeSummaryNone => {
                reveal_strlit("无活跃会话");
                lemma_rest(t, 0);
            },
            MessageId::DoctorRoutingLine => {
                reveal_strlit("路由：ai={ai}，integration={integration}，command-not-found handler={cnf}，最近路由决策={route}");
                reveal_strlit("ai");
                reveal_strlit("integration");
                reveal_strlit("cnf");
                reveal_strlit("route");
                lemma_slot(t, 0, 6, "ai"@);
                lemma_slot(t, 10, 23, "integration"@);
                lemma_slot(t, 36, 63, "cnf"@);
                lemma_slot(t, 68, 76, "route"@);
                lemma_rest(t, 83);
            },
            MessageId::DoctorRoutingUnavailable => {
                reveal_strlit("路由：live 探针不可用；请在受影响会话内运行 /health");
                lemma_rest(t, 0);
            },
            MessageId::DoctorLogsLine => {
                reveal_strlit("日志：level={level}，最近写入 {last}；24h 错误：{errors}");
                reveal_strlit("level");
                reveal_strlit("last");
                reveal_strlit("errors");
                lemma_slot(t, 0, 9, "level"@);
                lemma_slot(t, 16, 22, "last"@);
                lemma_slot(t, 28, 36, "errors"@);
                lemma_rest(t, 44);
            },
            MessageId::DoctorLogsNoFiles => {
                reveal_strlit("无日志文件");
                lemma_rest(t, 0);
            },
            MessageId::DoctorCrashesLine => {
                reveal_strlit("崩溃：24h 内 {count} 起{detail}");
                reveal_strlit("count");
                reveal_strlit("detail");
                lemma_slot(t, 0, 9, "count"@);
                lemma_slot(t, 16, 18, "detail"@);
                lemma_rest(t, 26);
            },
            MessageId::DoctorExportHint => {
                reveal_strlit("下一步：运行 `cosh-shell diagnostics export` 收集脱敏证据包");
                lemma_rest(t, 0);
            },
            MessageId::HelpDiagnosticsHint => {
                reveal_strlit("遇到问题：先在会话内运行 /health，或退出后运行 `cosh-shell doctor`");
                lemma_rest(t, 0);
            },
            MessageId::HealthFindingWorkspaceConfinementUnsupported => {
                reveal_strlit("工作区隔离需要 Linux {required} 或更高版本");
                reveal_strlit("required");
                lemma_slot(t, 0, 14, "required"@);
                lemma_rest(t, 24);
            },
            MessageId::HealthRemediationWorkspaceConfinement => {
                reveal_strlit("当前内核为 {kernel}；请使用 Linux {required} 或更高版本的内核启动，以便 Agent 隔离工作区");
                reveal_strlit("kernel");
                reveal_strlit("required");
                lemma_slot(t, 0, 6, "kernel"@);
                lemma_slot(t, 14, 25, "required"@);
                lemma_rest(t, 35);
            },
            _ => {},
        }
        assert(named_from(t, 0, None) =~= slots(id));
    }
}

} // verus!
