//! Message catalogs in two languages.

use vstd::prelude::*;

use vstd::string::*;

use crate::i18n::slots::{asks_for, lemma_asks_for, slots};
use crate::text::laws::occurrences_are_replaced;
use crate::text::{push_char, replace_all, replaced};

pub mod en_auth;
pub mod en_health;
pub mod slots;
pub mod zh_auth;
pub mod zh_health;

verus! {

/// The languages of the catalogs.
#[derive(Clone, Copy, Debug, PartialEq, Eq, Structural)]
pub enum Language {
    EnUs,
    ZhCn,
}

/// The messages of the catalogs.
#[derive(Clone, Copy, Debug, PartialEq, Eq, Structural)]
pub enum MessageId {
    AuthSelectProviderQuestion,
    HealthBannerTitle,
    HealthStartupLabel,
    HealthBannerTryLabel,
    HealthBannerFindingLabel,
    HealthBannerEvidenceLabel,
    HealthBannerMoreFindingsLabel,
    HealthBannerUnavailableLabel,
    HealthBannerFindingsSection,
    HealthBannerSuggestedPromptSection,
    HealthBannerSuggestedPromptIntro,
    HealthSeverityOk,
    HealthSeverityWarning,
    HealthSeverityCritical,
    HealthSeverityDegraded,
    HealthSeverityUnavailable,
    HealthMetricCpu,
    HealthMetricCpuLoadPerCore,
    HealthMetricLoad1mShort,
    HealthMetricLoad5mShort,
    HealthMetricLoadValue,
    HealthMetricCpuPerCoreUnit,
    HealthMetricCpuUsed,
    HealthMetricHost,
    HealthMetricMemory,
    HealthMetricMemoryAvailable,
    HealthMetricMemoryUsed,
    HealthMetricSwap,
    HealthMetricSwapUsed,
    HealthMetricDisk,
    HealthMetricDiskUsed,
    HealthMetricDiskMountUsed,
    HealthMetricPressure,
    HealthMetricLevels,
    HealthMetricSignal,
    HealthMetricService,
    HealthEvidenceDiskAvailable,
    HealthEvidenceMount,
    HealthEvidenceOomKilledProcess,
    HealthEvidenceOomCgroup,
    HealthEvidenceOomOneHourCount,
    HealthEvidenceOomTwentyFourHourCount,
    HealthEvidenceOomVictimKilledAgo,
    HealthEvidenceOomVictimKilled,
    HealthEvidenceOomAge,
    HealthOomScopeMemcg,
    HealthOomScopeHost,
    HealthOomScopeCpuset,
    HealthOomScopeMemoryPolicy,
    HealthOomScopeUnknown,
    HealthTryAnalyzeMemoryPressure,
    HealthTryCheckSwapPressure,
    HealthTryCheckRecentOom,
    HealthTryInspectDiskUsage,
    HealthTryInspectServiceStatus,
    HealthTryInspectHighLoad,
    HealthTryInspectProcessMemory,
    HealthTryReviewUnavailableChecks,
    HealthPromptAnalyzeMemoryPressure,
    HealthPromptCheckSwapPressure,
    HealthPromptCheckRecentOom,
    HealthPromptInspectDiskUsage,
    HealthPromptInspectServiceStatus,
    HealthPromptInspectHighLoad,
    HealthPromptInspectProcessMemory,
    HealthPromptReviewUnavailableChecks,
    HealthInsightMemoryAvailableLow,
    HealthInsightDiskHigh,
    HealthInsightRecentOom,
    HealthInsightCpuLoadHigh,
    HealthInsightSwapPressure,
    HealthInsightServiceState,
    HealthInsightGeneric,
    HealthUnavailablePermissionDenied,
    HealthUnavailableCommandMissing,
    HealthUnavailableTimeout,
    HealthUnavailableUnsupported,
    HealthUnavailableParseError,
    HealthFindingPlatformUnsupported,
    HealthFindingCoreCollectorUnavailable,
    HealthFindingCpuLoadHigh,
    HealthFindingMemoryAvailableLow,
    HealthFindingSwapPressure,
    HealthFindingDiskHigh,
    HealthFindingRecentOom,
    HealthFindingKernelPanic,
    HealthFindingServiceFailed,
    HealthFindingServiceInactive,
    HealthCollectorProvider,
    HealthCollectorConfig,
    HealthCollectorHooks,
    HealthCollectorPty,
    HealthCollectorPermissions,
    HealthCollectorRuntime,
    HealthCollectorLogs,
    DoctorTitle,
    DoctorStatusLabel,
    DoctorChecksLabel,
    DoctorRemediationLabel,
    DoctorAllHealthy,
    HealthFindingProviderUnconfigured,
    HealthFindingConfigUnavailable,
    HealthFindingHooksUntrusted,
    HealthFindingPtyUnavailable,
    HealthFindingPermissionsUnwritable,
    HealthFindingOrphanCore,
    HealthFindingStaleEntry,
    HealthFindingCrash,
    HealthFindingRecentErrors,
    HealthFindingWarnFlood,
    HealthRemediationProvider,
    HealthRemediationUnknownAdapter,
    HealthRemediationConfig,
    HealthRemediationConfigUnreadable,
    HealthRemediationConfigInvalid,
    HealthRemediationHooks,
    HealthRemediationPty,
    HealthRemediationPermissions,
    HealthRemediationOrphanCore,
    HealthRemediationStaleEntry,
    HealthRemediationCrash,
    HealthRemediationLogs,
    HealthTryReasonMemoryLow,
    HealthTryReasonSwapWithContext,
    HealthTryReasonRecentOom,
    HealthTryReasonDiskHigh,
    HealthTryReasonServiceState,
    HealthTryReasonHighLoad,
    HealthTryReasonMissingCoreCheck,
    HealthLiveSectionTitle,
    HealthLiveCoreAlive,
    HealthLiveCoreNoResponse,
    HealthLiveCoreNoRuntime,
    HealthLiveRecovery,
    HealthLiveRoutingFacts,
    HealthLiveCnfHandler,
    HealthLiveLastRoute,
    HealthLiveRoutingHint,
    HealthFindingRouteFallback,
    HealthFindingCoreNoResponse,
    HealthFindingRecoveryFailed,
    HealthRemediationRouteFallback,
    HealthRemediationCoreNoResponse,
    HealthLiveReasonAiDisabled,
    HealthLiveReasonAssistanceOff,
    HealthLiveReasonUserCnf,
    HealthLiveReasonCnfOverridden,
    HealthLiveReasonCnfMissing,
    DoctorVersionLine,
    DoctorHostLine,
    DoctorRuntimeLine,
    DoctorRuntimeSummaryNone,
    DoctorRoutingLine,
    DoctorRoutingUnavailable,
    DoctorLogsLine,
    DoctorLogsNoFiles,
    DoctorCrashesLine,
    DoctorExportHint,
    HelpDiagnosticsHint,
    AuthEcsChecking,
    AuthEcsWaiting,
    AuthEcsRetry,
    AuthEcsCancelling,
    AuthEcsCleanupFailed,
    AuthEcsTimedOut,
    AuthEcsFailed,
    AuthEcsSaving,
    AuthEcsUnknown,
    AuthEcsReturn,
    AuthEcsCancelHint,
    AuthEcsRefreshing,
    HealthFindingWorkspaceConfinementUnsupported,
    HealthRemediationWorkspaceConfinement,
}

/// The place of each message in the catalog order.
pub open spec fn position(id: MessageId) -> int {
    match id {
        MessageId::AuthSelectProviderQuestion => 0,
        MessageId::HealthBannerTitle => 1,
        MessageId::HealthStartupLabel => 2,
        MessageId::HealthBannerTryLabel => 3,
        MessageId::HealthBannerFindingLabel => 4,
        MessageId::HealthBannerEvidenceLabel => 5,
        MessageId::HealthBannerMoreFindingsLabel => 6,
        MessageId::HealthBannerUnavailableLabel => 7,
        MessageId::HealthBannerFindingsSection => 8,
        MessageId::HealthBannerSuggestedPromptSection => 9,
        MessageId::HealthBannerSuggestedPromptIntro => 10,
        MessageId::HealthSeverityOk => 11,
        MessageId::HealthSeverityWarning => 12,
        MessageId::HealthSeverityCritical => 13,
        MessageId::HealthSeverityDegraded => 14,
        MessageId::HealthSeverityUnavailable => 15,
        MessageId::HealthMetricCpu => 16,
        MessageId::HealthMetricCpuLoadPerCore => 17,
        MessageId::HealthMetricLoad1mShort => 18,
        MessageId::HealthMetricLoad5mShort => 19,
        MessageId::HealthMetricLoadValue => 20,
        MessageId::HealthMetricCpuPerCoreUnit => 21,
        MessageId::HealthMetricCpuUsed => 22,
        MessageId::HealthMetricHost => 23,
        MessageId::HealthMetricMemory => 24,
        MessageId::HealthMetricMemoryAvailable => 25,
        MessageId::HealthMetricMemoryUsed => 26,
        MessageId::HealthMetricSwap => 27,
        MessageId::HealthMetricSwapUsed => 28,
        MessageId::HealthMetricDisk => 29,
        MessageId::HealthMetricDiskUsed => 30,
        MessageId::HealthMetricDiskMountUsed => 31,
        MessageId::HealthMetricPressure => 32,
        MessageId::HealthMetricLevels => 33,
        MessageId::HealthMetricSignal => 34,
        MessageId::HealthMetricService => 35,
        MessageId::HealthEvidenceDiskAvailable => 36,
        MessageId::HealthEvidenceMount => 37,
        MessageId::HealthEvidenceOomKilledProcess => 38,
        MessageId::HealthEvidenceOomCgroup => 39,
        MessageId::HealthEvidenceOomOneHourCount => 40,
        MessageId::HealthEvidenceOomTwentyFourHourCount => 41,
        MessageId::HealthEvidenceOomVictimKilledAgo => 42,
        MessageId::HealthEvidenceOomVictimKilled => 43,
        MessageId::HealthEvidenceOomAge => 44,
        MessageId::HealthOomScopeMemcg => 45,
        MessageId::HealthOomScopeHost => 46,
        MessageId::HealthOomScopeCpuset => 47,
        MessageId::HealthOomScopeMemoryPolicy => 48,
        MessageId::HealthOomScopeUnknown => 49,
        MessageId::HealthTryAnalyzeMemoryPressure => 50,
        MessageId::HealthTryCheckSwapPressure => 51,
        MessageId::HealthTryCheckRecentOom => 52,
        MessageId::HealthTryInspectDiskUsage => 53,
        MessageId::HealthTryInspectServiceStatus => 54,
        MessageId::HealthTryInspectHighLoad => 55,
        MessageId::HealthTryInspectProcessMemory => 56,
        MessageId::HealthTryReviewUnavailableChecks => 57,
        MessageId::HealthPromptAnalyzeMemoryPressure => 58,
        MessageId::HealthPromptCheckSwapPressure => 59,
        MessageId::HealthPromptCheckRecentOom => 60,
        MessageId::HealthPromptInspectDiskUsage => 61,
        MessageId::HealthPromptInspectServiceStatus => 62,
        MessageId::HealthPromptInspectHighLoad => 63,
        MessageId::HealthPromptInspectProcessMemory => 64,
        MessageId::HealthPromptReviewUnavailableChecks => 65,
        MessageId::HealthInsightMemoryAvailableLow => 66,
        MessageId::HealthInsightDiskHigh => 67,
        MessageId::HealthInsightRecentOom => 68,
        MessageId::HealthInsightCpuLoadHigh => 69,
        MessageId::HealthInsightSwapPressure => 70,
        MessageId::HealthInsightServiceState => 71,
        MessageId::HealthInsightGeneric => 72,
        MessageId::HealthUnavailablePermissionDenied => 73,
        MessageId::HealthUnavailableCommandMissing => 74,
        MessageId::HealthUnavailableTimeout => 75,
        MessageId::HealthUnavailableUnsupported => 76,
        MessageId::HealthUnavailableParseError => 77,
        MessageId::HealthFindingPlatformUnsupported => 78,
        MessageId::HealthFindingCoreCollectorUnavailable => 79,
        MessageId::HealthFindingCpuLoadHigh => 80,
        MessageId::HealthFindingMemoryAvailableLow => 81,
        MessageId::HealthFindingSwapPressure => 82,
        MessageId::HealthFindingDiskHigh => 83,
        MessageId::HealthFindingRecentOom => 84,
        MessageId::HealthFindingKernelPanic => 85,
        MessageId::HealthFindingServiceFailed => 86,
        MessageId::HealthFindingServiceInactive => 87,
        MessageId::HealthCollectorProvider => 88,
        MessageId::HealthCollectorConfig => 89,
        MessageId::HealthCollectorHooks => 90,
        MessageId::HealthCollectorPty => 91,
        MessageId::HealthCollectorPermissions => 92,
        MessageId::HealthCollectorRuntime => 93,
        MessageId::HealthCollectorLogs => 94,
        MessageId::DoctorTitle => 95,
        MessageId::DoctorStatusLabel => 96,
        MessageId::DoctorChecksLabel => 97,
        MessageId::DoctorRemediationLabel => 98,
        MessageId::DoctorAllHealthy => 99,
        MessageId::HealthFindingProviderUnconfigured => 100,
        MessageId::HealthFindingConfigUnavailable => 101,
        MessageId::HealthFindingHooksUntrusted => 102,
        MessageId::HealthFindingPtyUnavailable => 103,
        MessageId::HealthFindingPermissionsUnwritable => 104,
        MessageId::HealthFindingOrphanCore => 105,
        MessageId::HealthFindingStaleEntry => 106,
        MessageId::HealthFindingCrash => 107,
        MessageId::HealthFindingRecentErrors => 108,
        MessageId::HealthFindingWarnFlood => 109,
        MessageId::HealthRemediationProvider => 110,
        MessageId::HealthRemediationUnknownAdapter => 111,
        MessageId::HealthRemediationConfig => 112,
        MessageId::HealthRemediationConfigUnreadable => 113,
        MessageId::HealthRemediationConfigInvalid => 114,
        MessageId::HealthRemediationHooks => 115,
        MessageId::HealthRemediationPty => 116,
        MessageId::HealthRemediationPermissions => 117,
        MessageId::HealthRemediationOrphanCore => 118,
        MessageId::HealthRemediationStaleEntry => 119,
        MessageId::HealthRemediationCrash => 120,
        MessageId::HealthRemediationLogs => 121,
        MessageId::HealthTryReasonMemoryLow => 122,
        MessageId::HealthTryReasonSwapWithContext => 123,
        MessageId::HealthTryReasonRecentOom => 124,
        MessageId::HealthTryReasonDiskHigh => 125,
        MessageId::HealthTryReasonServiceState => 126,
        MessageId::HealthTryReasonHighLoad => 127,
        MessageId::HealthTryReasonMissingCoreCheck => 128,
        MessageId::HealthLiveSectionTitle => 129,
        MessageId::HealthLiveCoreAlive => 130,
        MessageId::HealthLiveCoreNoResponse => 131,
        MessageId::HealthLiveCoreNoRuntime => 132,
        MessageId::HealthLiveRecovery => 133,
        MessageId::HealthLiveRoutingFacts => 134,
        MessageId::HealthLiveCnfHandler => 135,
        MessageId::HealthLiveLastRoute => 136,
        MessageId::HealthLiveRoutingHint => 137,
        MessageId::HealthFindingRouteFallback => 138,
        MessageId::HealthFindingCoreNoResponse => 139,
        MessageId::HealthFindingRecoveryFailed => 140,
        MessageId::HealthRemediationRouteFallback => 141,
        MessageId::HealthRemediationCoreNoResponse => 142,
        MessageId::HealthLiveReasonAiDisabled => 143,
        MessageId::HealthLiveReasonAssistanceOff => 144,
        MessageId::HealthLiveReasonUserCnf => 145,
        MessageId::HealthLiveReasonCnfOverridden => 146,
        MessageId::HealthLiveReasonCnfMissing => 147,
        MessageId::DoctorVersionLine => 148,
        MessageId::DoctorHostLine => 149,
        MessageId::DoctorRuntimeLine => 150,
        MessageId::DoctorRuntimeSummaryNone => 151,
        MessageId::DoctorRoutingLine => 152,
        MessageId::DoctorRoutingUnavailable => 153,
        MessageId::DoctorLogsLine => 154,
        MessageId::DoctorLogsNoFiles => 155,
        MessageId::DoctorCrashesLine => 156,
        MessageId::DoctorExportHint => 157,
        MessageId::HelpDiagnosticsHint => 158,
        MessageId::AuthEcsChecking => 159,
        MessageId::AuthEcsWaiting => 160,
        MessageId::AuthEcsRetry => 161,
        MessageId::AuthEcsCancelling => 162,
        MessageId::AuthEcsCleanupFailed => 163,
        MessageId::AuthEcsTimedOut => 164,
        MessageId::AuthEcsFailed => 165,
        MessageId::AuthEcsSaving => 166,
        MessageId::AuthEcsUnknown => 167,
        MessageId::AuthEcsReturn => 168,
        MessageId::AuthEcsCancelHint => 169,
        MessageId::AuthEcsRefreshing => 170,
        MessageId::HealthFindingWorkspaceConfinementUnsupported => 171,
        MessageId::HealthRemediationWorkspaceConfinement => 172,
    }
}

impl MessageId {
    /// Every message.
    pub fn all() -> (res: Vec<MessageId>)
        ensures
            forall|id: MessageId| #![trigger res@.contains(id)] res@.contains(id),
    {
        let res: Vec<MessageId> = vec![
            MessageId::AuthSelectProviderQuestion,
            MessageId::HealthBannerTitle,
            MessageId::HealthStartupLabel,
            MessageId::HealthBannerTryLabel,
            MessageId::HealthBannerFindingLabel,
            MessageId::HealthBannerEvidenceLabel,
            MessageId::HealthBannerMoreFindingsLabel,
            MessageId::HealthBannerUnavailableLabel,
            MessageId::HealthBannerFindingsSection,
            MessageId::HealthBannerSuggestedPromptSection,
            MessageId::HealthBannerSuggestedPromptIntro,
            MessageId::HealthSeverityOk,
            MessageId::HealthSeverityWarning,
            MessageId::HealthSeverityCritical,
            MessageId::HealthSeverityDegraded,
            MessageId::HealthSeverityUnavailable,
            MessageId::HealthMetricCpu,
            MessageId::HealthMetricCpuLoadPerCore,
            MessageId::HealthMetricLoad1mShort,
            MessageId::HealthMetricLoad5mShort,
            MessageId::HealthMetricLoadValue,
            MessageId::HealthMetricCpuPerCoreUnit,
            MessageId::HealthMetricCpuUsed,
            MessageId::HealthMetricHost,
            MessageId::HealthMetricMemory,
            MessageId::HealthMetricMemoryAvailable,
            MessageId::HealthMetricMemoryUsed,
            MessageId::HealthMetricSwap,
            MessageId::HealthMetricSwapUsed,
            MessageId::HealthMetricDisk,
            MessageId::HealthMetricDiskUsed,
            MessageId::HealthMetricDiskMountUsed,
            MessageId::HealthMetricPressure,
            MessageId::HealthMetricLevels,
            MessageId::HealthMetricSignal,
            MessageId::HealthMetricService,
            MessageId::HealthEvidenceDiskAvailable,
            MessageId::HealthEvidenceMount,
            MessageId::HealthEvidenceOomKilledProcess,
            MessageId::HealthEvidenceOomCgroup,
            MessageId::HealthEvidenceOomOneHourCount,
            MessageId::HealthEvidenceOomTwentyFourHourCount,
            MessageId::HealthEvidenceOomVictimKilledAgo,
            MessageId::HealthEvidenceOomVictimKilled,
            MessageId::HealthEvidenceOomAge,
            MessageId::HealthOomScopeMemcg,
            MessageId::HealthOomScopeHost,
            MessageId::HealthOomScopeCpuset,
            MessageId::HealthOomScopeMemoryPolicy,
            MessageId::HealthOomScopeUnknown,
            MessageId::HealthTryAnalyzeMemoryPressure,
            MessageId::HealthTryCheckSwapPressure,
            MessageId::HealthTryCheckRecentOom,
            MessageId::HealthTryInspectDiskUsage,
            MessageId::HealthTryInspectServiceStatus,
            MessageId::HealthTryInspectHighLoad,
            MessageId::HealthTryInspectProcessMemory,
            MessageId::HealthTryReviewUnavailableChecks,
            MessageId::HealthPromptAnalyzeMemoryPressure,
            MessageId::HealthPromptCheckSwapPressure,
            MessageId::HealthPromptCheckRecentOom,
            MessageId::HealthPromptInspectDiskUsage,
            MessageId::HealthPromptInspectServiceStatus,
            MessageId::HealthPromptInspectHighLoad,
            MessageId::HealthPromptInspectProcessMemory,
            MessageId::HealthPromptReviewUnavailableChecks,
            MessageId::HealthInsightMemoryAvailableLow,
            MessageId::HealthInsightDiskHigh,
            MessageId::HealthInsightRecentOom,
            MessageId::HealthInsightCpuLoadHigh,
            MessageId::HealthInsightSwapPressure,
            MessageId::HealthInsightServiceState,
            MessageId::HealthInsightGeneric,
            MessageId::HealthUnavailablePermissionDenied,
            MessageId::HealthUnavailableCommandMissing,
            MessageId::HealthUnavailableTimeout,
            MessageId::HealthUnavailableUnsupported,
            MessageId::HealthUnavailableParseError,
            MessageId::HealthFindingPlatformUnsupported,
            MessageId::HealthFindingCoreCollectorUnavailable,
            MessageId::HealthFindingCpuLoadHigh,
            MessageId::HealthFindingMemoryAvailableLow,
            MessageId::HealthFindingSwapPressure,
            MessageId::HealthFindingDiskHigh,
            MessageId::HealthFindingRecentOom,
            MessageId::HealthFindingKernelPanic,
            MessageId::HealthFindingServiceFailed,
            MessageId::HealthFindingServiceInactive,
            MessageId::HealthCollectorProvider,
            MessageId::HealthCollectorConfig,
            MessageId::HealthCollectorHooks,
            MessageId::HealthCollectorPty,
            MessageId::HealthCollectorPermissions,
            MessageId::HealthCollectorRuntime,
            MessageId::HealthCollectorLogs,
            MessageId::DoctorTitle,
            MessageId::DoctorStatusLabel,
            MessageId::DoctorChecksLabel,
            MessageId::DoctorRemediationLabel,
            MessageId::DoctorAllHealthy,
            MessageId::HealthFindingProviderUnconfigured,
            MessageId::HealthFindingConfigUnavailable,
            MessageId::HealthFindingHooksUntrusted,
            MessageId::HealthFindingPtyUnavailable,
            MessageId::HealthFindingPermissionsUnwritable,
            MessageId::HealthFindingOrphanCore,
            MessageId::HealthFindingStaleEntry,
            MessageId::HealthFindingCrash,
            MessageId::HealthFindingRecentErrors,
            MessageId::HealthFindingWarnFlood,
            MessageId::HealthRemediationProvider,
            MessageId::HealthRemediationUnknownAdapter,
            MessageId::HealthRemediationConfig,
            MessageId::HealthRemediationConfigUnreadable,
            MessageId::HealthRemediationConfigInvalid,
            MessageId::HealthRemediationHooks,
            MessageId::HealthRemediationPty,
            MessageId::HealthRemediationPermissions,
            MessageId::HealthRemediationOrphanCore,
            MessageId::HealthRemediationStaleEntry,
            MessageId::HealthRemediationCrash,
            MessageId::HealthRemediationLogs,
            MessageId::HealthTryReasonMemoryLow,
            MessageId::HealthTryReasonSwapWithContext,
            MessageId::HealthTryReasonRecentOom,
            MessageId::HealthTryReasonDiskHigh,
            MessageId::HealthTryReasonServiceState,
            MessageId::HealthTryReasonHighLoad,
            MessageId::HealthTryReasonMissingCoreCheck,
            MessageId::HealthLiveSectionTitle,
            MessageId::HealthLiveCoreAlive,
            MessageId::HealthLiveCoreNoResponse,
            MessageId::HealthLiveCoreNoRuntime,
            MessageId::HealthLiveRecovery,
            MessageId::HealthLiveRoutingFacts,
            MessageId::HealthLiveCnfHandler,
            MessageId::HealthLiveLastRoute,
            MessageId::HealthLiveRoutingHint,
            MessageId::HealthFindingRouteFallback,
            MessageId::HealthFindingCoreNoResponse,
            MessageId::HealthFindingRecoveryFailed,
            MessageId::HealthRemediationRouteFallback,
            MessageId::HealthRemediationCoreNoResponse,
            MessageId::HealthLiveReasonAiDisabled,
            MessageId::HealthLiveReasonAssistanceOff,
            MessageId::HealthLiveReasonUserCnf,
            MessageId::HealthLiveReasonCnfOverridden,
            MessageId::HealthLiveReasonCnfMissing,
            MessageId::DoctorVersionLine,
            MessageId::DoctorHostLine,
            MessageId::DoctorRuntimeLine,
            MessageId::DoctorRuntimeSummaryNone,
            MessageId::DoctorRoutingLine,
            MessageId::DoctorRoutingUnavailable,
            MessageId::DoctorLogsLine,
            MessageId::DoctorLogsNoFiles,
            MessageId::DoctorCrashesLine,
            MessageId::DoctorExportHint,
            MessageId::HelpDiagnosticsHint,
            MessageId::AuthEcsChecking,
            MessageId::AuthEcsWaiting,
            MessageId::AuthEcsRetry,
            MessageId::AuthEcsCancelling,
            MessageId::AuthEcsCleanupFailed,
            MessageId::AuthEcsTimedOut,
            MessageId::AuthEcsFailed,
            MessageId::AuthEcsSaving,
            MessageId::AuthEcsUnknown,
            MessageId::AuthEcsReturn,
            MessageId::AuthEcsCancelHint,
            MessageId::AuthEcsRefreshing,
            MessageId::HealthFindingWorkspaceConfinementUnsupported,
            MessageId::HealthRemediationWorkspaceConfinement,
        ];
        proof {
            assert forall|id: MessageId| #![trigger res@.contains(id)] res@.contains(id) by {
                let at = position(id);
                assert(res@[at] == id);
            }
        }
        res
    }
}

/// The text of `id` in `language`; a message outside the catalogs has none.
pub open spec fn catalog(language: Language, id: MessageId) -> Seq<char> {
    let (health, auth) = match language {
        Language::EnUs => (en_health::text(id), en_auth::text(id)),
        Language::ZhCn => (zh_health::text(id), zh_auth::text(id)),
    };
    match health {
        Some(s) => s,
        None => match auth {
            Some(s) => s,
            None => Seq::empty(),
        },
    }
}

/// A placeholder: the name in braces.
pub open spec fn placeholder(name: Seq<char>) -> Seq<char> {
    seq!['{'] + name + seq!['}']
}

/// `template` with each argument, in order, put in place of its placeholder.
pub open spec fn filled(template: Seq<char>, args: Seq<(Seq<char>, Seq<char>)>) -> Seq<char>
    decreases args.len(),
{
    if args.len() == 0 {
        template
    } else {
        replaced(filled(template, args.drop_last()), placeholder(args.last().0), args.last().1)
    }
}

/// The views of a list of arguments.
pub open spec fn arg_views(args: Seq<(&str, &str)>) -> Seq<(Seq<char>, Seq<char>)> {
    Seq::new(args.len(), |i: int| (args[i].0@, args[i].1@))
}

/// A catalog in one language.
#[derive(Clone, Copy, Debug)]
pub struct I18n {
    pub language: Language,
}

impl I18n {
    /// The catalog of `language`.
    pub fn new(language: Language) -> (res: I18n)
        ensures
            res.language == language,
    {
        I18n { language }
    }

    /// The text of `id`.
    pub fn t(&self, id: MessageId) -> (res: &'static str)
        ensures
            res@ == catalog(self.language, id),
    {
        let (health, auth) = match self.language {
            Language::EnUs => (en_health::message(id), en_auth::message(id)),
            Language::ZhCn => (zh_health::message(id), zh_auth::message(id)),
        };
        match health {
            Some(s) => s,
            None => match auth {
                Some(s) => s,
                None => {
                    proof {
                        reveal_strlit("");
                        assert(""@ =~= Seq::empty());
                    }
                    ""
                },
            },
        }
    }

    /// The text of `id` with its placeholders filled in.
    pub fn format(&self, id: MessageId, args: &[(&str, &str)]) -> (res: String)
        ensures
            res@ == filled(catalog(self.language, id), arg_views(args@)),
    {
        let mut out: String = self.t(id).to_owned();
        let ghost views = arg_views(args@);
        let mut i: usize = 0;
        while i < args.len()
            invariant
                i <= args@.len(),
                views == arg_views(args@),
                out@ == filled(catalog(self.language, id), views.take(i as int)),
            decreases args@.len() - i,
        {
            let mut name = String::new();
            push_char(&mut name, '{');
            name.append(args[i].0);
            push_char(&mut name, '}');
            proof {
                assert(name@ =~= placeholder(args@[i as int].0@));
                assert(views.take(i + 1).drop_last() =~= views.take(i as int));
                assert(views.take(i + 1).last() == (args@[i as int].0@, args@[i as int].1@));
            }
            out = replace_all(out.as_str(), name.as_str(), args[i].1);
            i = i + 1;
        }
        assert(views.take(args@.len() as int) =~= views);
        out
    }
}

/// The health and authentication catalogs hold the same messages in both
/// languages.
pub proof fn catalogs_hold_the_same_messages(id: MessageId)
    ensures
        en_health::text(id) is Some <==> zh_health::text(id) is Some,
        en_auth::text(id) is Some <==> zh_auth::text(id) is Some,
{
}

/// Every message has a text in exactly one catalog of each language.
pub proof fn every_message_has_a_text(id: MessageId)
    ensures
        en_health::text(id) is Some <==> en_auth::text(id) is None,
        zh_health::text(id) is Some <==> zh_auth::text(id) is None,
{
}

/// No message has an empty text, and its texts ask for the same values in both
/// languages: those of its slots.
pub proof fn languages_ask_for_the_same_values(id: MessageId, name: Seq<char>)
    ensures
        catalog(Language::EnUs, id).len() > 0,
        catalog(Language::ZhCn, id).len() > 0,
        asks_for(catalog(Language::EnUs, id), name) <==> slots(id).contains(name),
        asks_for(catalog(Language::ZhCn, id), name) <==> slots(id).contains(name),
{
    en_health::lemma_slots(id);
    en_auth::lemma_slots(id);
    zh_health::lemma_slots(id);
    zh_auth::lemma_slots(id);
    every_message_has_a_text(id);
    lemma_asks_for(catalog(Language::EnUs, id), name);
    lemma_asks_for(catalog(Language::ZhCn, id), name);
}

/// An argument fills in its own placeholder, and the arguments are filled in one
/// after the other.
pub proof fn arguments_fill_in_their_placeholder(
    rest: Seq<char>,
    args: Seq<(Seq<char>, Seq<char>)>,
    name: Seq<char>,
    value: Seq<char>,
)
    ensures
        filled(rest, Seq::empty()) == rest,
        filled(rest, args.push((name, value))) == replaced(filled(rest, args), placeholder(name), value),
        filled(placeholder(name) + rest, seq![(name, value)]) == value + replaced(
            rest,
            placeholder(name),
            value,
        ),
        placeholder(name) == seq!['{'] + name + seq!['}'],
{
    assert(args.push((name, value)).drop_last() =~= args);
    let one = seq![(name, value)];
    assert(one.drop_last() =~= Seq::empty());
    assert(filled(placeholder(name) + rest, one.drop_last()) == placeholder(name) + rest);
    occurrences_are_replaced(placeholder(name), value, rest);
}

} // verus!
