//! The report of the doctor as plain text.

use vstd::prelude::*;
use vstd::string::*;

use crate::diagnostics::registry::{EntryView, RoutingView, RunEntry};
use crate::health::logs::{maybe_scan, LogKind, LogScan, ScanView};
use crate::health::model::{
    finding_views, named_texts, worse, worst_finding, worst_unavailable, FindingView,
    HealthCollector, HealthFinding, HealthScanReport, HealthSeverity, HealthUnavailableReason,
    HealthView, UnavailableCollector,
};
use crate::health::runtime::{
    by_pid, lives, pid_order, probe_views, shorten, shortened, ProbeView, RunProbe,
};
use crate::i18n::{arg_views, catalog, filled, I18n, Language, MessageId};
use crate::order::{
    key_views, order, order_of, ordered_texts, positions, sorted_once, without_repeats, KeyView,
    SortKey,
};
use crate::text::{
    chars_of, decimal, decimal_text, first_at, join, joined, lemma_first_at_is, opt_view, same,
    text_of, texts,
};

verus! {

/// What the doctor says overall.
#[derive(Clone, Copy, Debug, PartialEq, Eq, Structural)]
pub enum DoctorStatus {
    Healthy,
    Warning,
    Error,
}

/// What the doctor says of a severity.
pub open spec fn status_for(severity: HealthSeverity) -> DoctorStatus {
    match severity {
        HealthSeverity::Healthy => DoctorStatus::Healthy,
        HealthSeverity::Unavailable | HealthSeverity::Warning => DoctorStatus::Warning,
        HealthSeverity::Critical => DoctorStatus::Error,
    }
}

/// The worst severity of a report.
pub open spec fn severity_of(report: HealthView) -> HealthSeverity {
    worse(worst_finding(report.findings), worst_unavailable(report.unavailable))
}

/// What the doctor says of a report.
pub fn doctor_status(report: &HealthScanReport) -> (res: DoctorStatus)
    ensures
        res == status_for(severity_of(report@)),
{
    match report.overall_severity() {
        HealthSeverity::Healthy => DoctorStatus::Healthy,
        HealthSeverity::Unavailable | HealthSeverity::Warning => DoctorStatus::Warning,
        HealthSeverity::Critical => DoctorStatus::Error,
    }
}

impl DoctorStatus {
    /// The word for each status.
    pub open spec fn word(self) -> Seq<char> {
        match self {
            DoctorStatus::Healthy => "healthy"@,
            DoctorStatus::Warning => "warning"@,
            DoctorStatus::Error => "error"@,
        }
    }

    /// The word for the status.
    pub fn token(self) -> (res: &'static str)
        ensures
            res@ == self.word(),
    {
        match self {
            DoctorStatus::Healthy => "healthy",
            DoctorStatus::Warning => "warning",
            DoctorStatus::Error => "error",
        }
    }
}

/// The exit code of a status.
pub open spec fn exit_code_for(status: DoctorStatus) -> i32 {
    match status {
        DoctorStatus::Healthy => 0,
        DoctorStatus::Warning => 1,
        DoctorStatus::Error => 2,
    }
}

/// The exit code for a report.
pub fn report_exit_code(report: &HealthScanReport) -> (res: i32)
    ensures
        res == exit_code_for(status_for(severity_of(report@))),
        res == (match status_for(severity_of(report@)) {
            DoctorStatus::Healthy => 0i32,
            DoctorStatus::Warning => 1i32,
            DoctorStatus::Error => 2i32,
        }),
{
    match doctor_status(report) {
        DoctorStatus::Healthy => 0,
        DoctorStatus::Warning => 1,
        DoctorStatus::Error => 2,
    }
}

/// The name of each collector.
pub open spec fn collector_name(collector: HealthCollector) -> Seq<char> {
    match collector {
        HealthCollector::Host => "host"@,
        HealthCollector::Cpu => "cpu"@,
        HealthCollector::Memory => "memory"@,
        HealthCollector::Disk => "disk"@,
        HealthCollector::KernelSignal => "kernel_signal"@,
        HealthCollector::ConfiguredService => "configured_service"@,
        HealthCollector::Provider => "provider"@,
        HealthCollector::Config => "config"@,
        HealthCollector::Hooks => "hooks"@,
        HealthCollector::Pty => "pty"@,
        HealthCollector::Permissions => "permissions"@,
        HealthCollector::Runtime => "runtime"@,
        HealthCollector::Logs => "logs"@,
    }
}

/// The name of a collector.
pub fn collector_token(collector: HealthCollector) -> (res: &'static str)
    ensures
        res@ == collector_name(collector),
{
    match collector {
        HealthCollector::Host => "host",
        HealthCollector::Cpu => "cpu",
        HealthCollector::Memory => "memory",
        HealthCollector::Disk => "disk",
        HealthCollector::KernelSignal => "kernel_signal",
        HealthCollector::ConfiguredService => "configured_service",
        HealthCollector::Provider => "provider",
        HealthCollector::Config => "config",
        HealthCollector::Hooks => "hooks",
        HealthCollector::Pty => "pty",
        HealthCollector::Permissions => "permissions",
        HealthCollector::Runtime => "runtime",
        HealthCollector::Logs => "logs",
    }
}

/// The message for each reason.
pub open spec fn reason_message(reason: HealthUnavailableReason) -> MessageId {
    match reason {
        HealthUnavailableReason::PermissionDenied => MessageId::HealthUnavailablePermissionDenied,
        HealthUnavailableReason::CommandMissing => MessageId::HealthUnavailableCommandMissing,
        HealthUnavailableReason::Timeout => MessageId::HealthUnavailableTimeout,
        HealthUnavailableReason::Unsupported => MessageId::HealthUnavailableUnsupported,
        HealthUnavailableReason::ParseError => MessageId::HealthUnavailableParseError,
    }
}

/// The message for a reason.
pub fn unavailable_reason_message(reason: HealthUnavailableReason) -> (res: MessageId)
    ensures
        res == reason_message(reason),
{
    match reason {
        HealthUnavailableReason::PermissionDenied => MessageId::HealthUnavailablePermissionDenied,
        HealthUnavailableReason::CommandMissing => MessageId::HealthUnavailableCommandMissing,
        HealthUnavailableReason::Timeout => MessageId::HealthUnavailableTimeout,
        HealthUnavailableReason::Unsupported => MessageId::HealthUnavailableUnsupported,
        HealthUnavailableReason::ParseError => MessageId::HealthUnavailableParseError,
    }
}

fn fill(i18n: I18n, id: MessageId, args: &Vec<(String, String)>) -> (res: String)
    ensures
        res@ == filled(catalog(i18n.language, id), named_texts(args@)),
{
    let mut pairs: Vec<(&str, &str)> = Vec::new();
    let mut i: usize = 0;
    while i < args.len()
        invariant
            i <= args@.len(),
            pairs@.len() == i,
            forall|j: int|
                0 <= j < i ==> (#[trigger] pairs@[j]).0@ == args@[j].0@ && pairs@[j].1@
                    == args@[j].1@,
        decreases args@.len() - i,
    {
        pairs.push((args[i].0.as_str(), args[i].1.as_str()));
        i = i + 1;
    }
    assert(arg_views(pairs@) =~= named_texts(args@));
    i18n.format(id, pairs.as_slice())
}

/// What to do about a finding.
pub open spec fn remedy_for(finding: FindingView, language: Language) -> Option<Seq<char>> {
    match finding.detail_id {
        Some(id) => Some(filled(catalog(language, id), finding.detail_args)),
        None => None,
    }
}

/// What to do about a finding.
pub fn finding_remediation(finding: &HealthFinding, i18n: I18n) -> (res: Option<String>)
    ensures
        opt_view(res) == remedy_for(finding@, i18n.language),
{
    match finding.detail_id {
        Some(id) => Some(fill(i18n, id, &finding.detail_args)),
        None => None,
    }
}

/// The keys by which findings are ordered: the worst first, then by name.
pub open spec fn finding_keys(v: Seq<FindingView>) -> Seq<KeyView> {
    Seq::new(
        v.len(),
        |i: int| KeyView { rank: (3 - v[i].severity.rank()) as u128, text: v[i].id },
    )
}

/// Findings as they are shown.
pub open spec fn worst_first(v: Seq<FindingView>) -> Seq<FindingView> {
    Seq::new(v.len(), |i: int| v[order_of(finding_keys(v))[i]])
}

/// The lines for one finding.
pub open spec fn finding_lines(f: FindingView, language: Language) -> Seq<Seq<char>> {
    let title = "["@ + f.severity.name() + "] "@ + filled(
        catalog(language, f.title_id),
        f.detail_args,
    );
    match remedy_for(f, language) {
        Some(remedy) => seq![
            title,
            "  "@ + catalog(language, MessageId::DoctorRemediationLabel) + ": "@ + remedy,
        ],
        None => seq![title],
    }
}

/// The lines for findings.
pub open spec fn all_finding_lines(v: Seq<FindingView>, language: Language) -> Seq<Seq<char>>
    decreases v.len(),
{
    if v.len() == 0 {
        Seq::empty()
    } else {
        all_finding_lines(v.drop_last(), language) + finding_lines(v.last(), language)
    }
}

/// The line for a collector that could not run.
pub open spec fn unavailable_line(item: UnavailableCollector, language: Language) -> Seq<char> {
    "["@ + item.severity.name() + "] "@ + collector_name(item.collector) + ": "@ + catalog(
        language,
        reason_message(item.reason),
    )
}

/// The lines for collectors that could not run.
pub open spec fn unavailable_lines(items: Seq<UnavailableCollector>, language: Language) -> Seq<
    Seq<char>,
> {
    Seq::new(items.len(), |i: int| unavailable_line(items[i], language))
}

fn push_line(out: &mut Vec<String>, line: String)
    ensures
        texts(final(out)@) == texts(old(out)@).push(line@),
{
    out.push(line);
    assert(texts(out@) =~= texts(old(out)@).push(line@));
}

fn push_finding_lines(out: &mut Vec<String>, finding: &HealthFinding, i18n: I18n)
    ensures
        texts(final(out)@) == texts(old(out)@) + finding_lines(finding@, i18n.language),
{
    let ghost before = texts(out@);
    let title = fill(i18n, finding.title_id, &finding.detail_args);
    push_line(
        out,
        "[".to_owned().concat(finding.severity.label()).concat("] ").concat(title.as_str()),
    );
    if let Some(remedy) = finding_remediation(finding, i18n) {
        push_line(
            out,
            "  ".to_owned().concat(i18n.t(MessageId::DoctorRemediationLabel)).concat(": ").concat(
                remedy.as_str(),
            ),
        );
    }
    assert(texts(out@) =~= before + finding_lines(finding@, i18n.language));
}

/// The positions of findings as they are shown.
fn finding_order(findings: &Vec<HealthFinding>) -> (res: Vec<usize>)
    ensures
        res@.len() == findings@.len(),
        forall|i: int| 0 <= i < res@.len() ==> #[trigger] res@[i] < findings@.len(),
        forall|i: int|
            0 <= i < res@.len() ==> findings@[(#[trigger] res@[i]) as int]@ == worst_first(
                finding_views(findings@),
            )[i],
{
    let ghost all = finding_views(findings@);
    let mut keys: Vec<SortKey> = Vec::new();
    let mut j: usize = 0;
    while j < findings.len()
        invariant
            j <= findings@.len(),
            keys@.len() == j,
            all == finding_views(findings@),
            forall|k: int|
                0 <= k < j ==> (#[trigger] keys@[k])@ == (KeyView {
                    rank: (3 - all[k].severity.rank()) as u128,
                    text: all[k].id,
                }),
        decreases findings@.len() - j,
    {
        let rank: u8 = 3 - findings[j].severity.precedence();
        keys.push(SortKey { rank: rank as u128, text: findings[j].id.clone() });
        j = j + 1;
    }
    assert(key_views(keys@) =~= finding_keys(all));
    let at = order(&keys);
    proof {
        assert forall|i: int| 0 <= i < at@.len() implies findings@[(#[trigger] at@[i]) as int]@
            == worst_first(all)[i] by {
            assert(positions(at@)[i] == at@[i]);
        }
    }
    at
}

/// The first characters of a session id.
pub fn short_session(session: &str) -> (res: String)
    ensures
        res@ == shortened(session@, 8),
{
    shorten(session, 8)
}

/// The part of a summary for one shell.
pub open spec fn shell_part(entry: EntryView) -> Seq<char> {
    "pid "@ + decimal(entry.pid as nat)
}

/// The part of a summary for one core.
pub open spec fn core_part(entry: EntryView) -> Seq<char> {
    match entry.session_id {
        Some(session) => "pid "@ + decimal(entry.pid as nat) + ", session "@ + shortened(
            session,
            8,
        ),
        None => "pid "@ + decimal(entry.pid as nat),
    }
}

/// The parts of a summary for running shells.
pub open spec fn shell_parts(ps: Seq<ProbeView>) -> Seq<Seq<char>>
    decreases ps.len(),
{
    if ps.len() == 0 {
        Seq::empty()
    } else if lives(ps.last(), "shell"@) {
        shell_parts(ps.drop_last()).push(shell_part(ps.last().entry))
    } else {
        shell_parts(ps.drop_last())
    }
}

/// The parts of a summary for running cores.
pub open spec fn core_parts(ps: Seq<ProbeView>) -> Seq<Seq<char>>
    decreases ps.len(),
{
    if ps.len() == 0 {
        Seq::empty()
    } else if lives(ps.last(), "core"@) {
        core_parts(ps.drop_last()).push(core_part(ps.last().entry))
    } else {
        core_parts(ps.drop_last())
    }
}

/// What is said of running processes; nothing if there are none.
pub open spec fn summary_of(ps: Seq<ProbeView>) -> Seq<char> {
    let shells = shell_parts(ps);
    let cores = core_parts(ps);
    joined(
        (if shells.len() == 0 {
            Seq::empty()
        } else {
            seq![
                decimal(shells.len()) + " shell"@ + (if shells.len() == 1 {
                    ""@
                } else {
                    "s"@
                }) + " ("@ + joined(shells, ", "@) + ")"@,
            ]
        }) + (if cores.len() == 0 {
            Seq::empty()
        } else if cores.len() == 1 {
            seq!["core ("@ + joined(cores, ", "@) + ")"@]
        } else {
            seq![decimal(cores.len()) + " cores ("@ + joined(cores, ", "@) + ")"@]
        }),
        " + "@,
    )
}

fn part_for_core(entry: &RunEntry) -> (res: String)
    ensures
        res@ == core_part(entry@),
{
    let number = decimal_text(entry.pid as u128);
    let pid = "pid ".to_owned().concat(number.as_str());
    match &entry.session_id {
        Some(session) => {
            let short = short_session(session.as_str());
            pid.concat(", session ").concat(short.as_str())
        },
        None => pid,
    }
}

/// What is said of running processes.
pub fn runtime_summary(probes: &Vec<RunProbe>) -> (res: String)
    ensures
        res@ == summary_of(by_pid(probe_views(probes@))),
{
    let ghost ps = by_pid(probe_views(probes@));
    let at = pid_order(probes);
    let mut shells: Vec<String> = Vec::new();
    let mut cores: Vec<String> = Vec::new();
    let mut k: usize = 0;
    proof {
        assert(ps.take(0) =~= Seq::empty());
        assert(texts(shells@) =~= Seq::empty());
        assert(texts(cores@) =~= Seq::empty());
    }
    while k < at.len()
        invariant
            k <= at@.len(),
            at@.len() == probes@.len(),
            ps == by_pid(probe_views(probes@)),
            forall|i: int| 0 <= i < at@.len() ==> #[trigger] at@[i] < probes@.len(),
            forall|i: int|
                0 <= i < at@.len() ==> probes@[(#[trigger] at@[i]) as int]@ == ps[i],
            texts(shells@) == shell_parts(ps.take(k as int)),
            texts(cores@) == core_parts(ps.take(k as int)),
        decreases at@.len() - k,
    {
        let probe = &probes[at[k]];
        let ghost p = probe@;
        proof {
            assert(p == ps[k as int]);
            assert(ps.take(k + 1).drop_last() =~= ps.take(k as int));
            assert(ps.take(k + 1).last() == p);
        }
        if probe.alive {
            if same(probe.entry.kind.as_str(), "shell") {
                let number = decimal_text(probe.entry.pid as u128);
                push_line(&mut shells, "pid ".to_owned().concat(number.as_str()));
            }
            if same(probe.entry.kind.as_str(), "core") {
                push_line(&mut cores, part_for_core(&probe.entry));
            }
        }
        k = k + 1;
    }
    assert(ps.take(ps.len() as int) =~= ps);
    assert(texts(shells@).len() == shells@.len());
    assert(texts(cores@).len() == cores@.len());
    let mut parts: Vec<String> = Vec::new();
    assert(texts(parts@) =~= Seq::empty());
    if shells.len() > 0 {
        let number = decimal_text(shells.len() as u128);
        let list = join(&shells, ", ");
        let plural: &str = if shells.len() == 1 {
            ""
        } else {
            "s"
        };
        push_line(
            &mut parts,
            number.concat(" shell").concat(plural).concat(" (").concat(list.as_str()).concat(")"),
        );
    }
    if cores.len() > 0 {
        let list = join(&cores, ", ");
        if cores.len() == 1 {
            push_line(&mut parts, "core (".to_owned().concat(list.as_str()).concat(")"));
        } else {
            let number = decimal_text(cores.len() as u128);
            push_line(
                &mut parts,
                number.concat(" cores (").concat(list.as_str()).concat(")"),
            );
        }
    }
    let ghost expected = (if shells@.len() == 0 {
        Seq::empty()
    } else {
        seq![
            decimal(shell_parts(ps).len()) + " shell"@ + (if shell_parts(ps).len() == 1 {
                ""@
            } else {
                "s"@
            }) + " ("@ + joined(shell_parts(ps), ", "@) + ")"@,
        ]
    }) + (if cores@.len() == 0 {
        Seq::empty()
    } else if cores@.len() == 1 {
        seq!["core ("@ + joined(core_parts(ps), ", "@) + ")"@]
    } else {
        seq![
            decimal(core_parts(ps).len()) + " cores ("@ + joined(core_parts(ps), ", "@) + ")"@,
        ]
    });
    assert(texts(parts@) =~= expected);
    join(&parts, " + ")
}

/// The first running shell.
pub open spec fn first_shell(ps: Seq<ProbeView>) -> Option<EntryView>
    decreases ps.len(),
{
    if ps.len() == 0 {
        None
    } else if lives(ps[0], "shell"@) {
        Some(ps[0].entry)
    } else {
        first_shell(ps.skip(1))
    }
}

/// What is known of the routing of an entry.
pub open spec fn routing_of(entry: EntryView) -> RoutingView {
    match entry.routing {
        Some(r) => r,
        None => crate::diagnostics::registry::no_routing(),
    }
}

/// A text that may be missing.
pub open spec fn or_missing(text: Option<Seq<char>>) -> Seq<char> {
    match text {
        Some(s) => s,
        None => "n/a"@,
    }
}

/// The line on routing.
pub open spec fn routing_text(ps: Seq<ProbeView>, language: Language) -> Seq<char> {
    match first_shell(ps) {
        None => catalog(language, MessageId::DoctorRoutingUnavailable),
        Some(entry) => {
            let facts = routing_of(entry);
            filled(
                catalog(language, MessageId::DoctorRoutingLine),
                seq![
                    (
                        "ai"@,
                        if facts.ai_enabled {
                            "enabled"@
                        } else {
                            "disabled"@
                        },
                    ),
                    (
                        "integration"@,
                        if facts.integration.len() == 0 {
                            "n/a"@
                        } else {
                            facts.integration
                        },
                    ),
                    ("cnf"@, or_missing(facts.cnf_handler)),
                    ("route"@, or_missing(facts.last_route)),
                ],
            )
        },
    }
}

fn missing_or<'a>(text: &'a Option<String>) -> (res: &'a str)
    ensures
        res@ == or_missing(opt_view(*text)),
{
    match text {
        Some(s) => s.as_str(),
        None => "n/a",
    }
}

/// The line on routing: that of the first running shell.
pub fn routing_line(probes: &Vec<RunProbe>, i18n: I18n) -> (res: String)
    ensures
        res@ == routing_text(by_pid(probe_views(probes@)), i18n.language),
{
    let ghost ps = by_pid(probe_views(probes@));
    let at = pid_order(probes);
    let mut k: usize = 0;
    assert(ps.skip(0) =~= ps);
    while k < at.len()
        invariant
            k <= at@.len(),
            at@.len() == probes@.len(),
            ps.len() == probes@.len(),
            ps == by_pid(probe_views(probes@)),
            forall|i: int| 0 <= i < at@.len() ==> #[trigger] at@[i] < probes@.len(),
            forall|i: int|
                0 <= i < at@.len() ==> probes@[(#[trigger] at@[i]) as int]@ == ps[i],
            first_shell(ps.skip(k as int)) == first_shell(ps),
        decreases at@.len() - k,
    {
        let probe = &probes[at[k]];
        proof {
            let rest = ps.skip(k as int);
            assert(rest[0] == probe@);
            assert(rest.skip(1) =~= ps.skip(k + 1));
        }
        if probe.alive && same(probe.entry.kind.as_str(), "shell") {
            return route_line(&probe.entry, i18n);
        }
        k = k + 1;
    }
    i18n.t(MessageId::DoctorRoutingUnavailable).to_owned()
}

fn route_line(entry: &RunEntry, i18n: I18n) -> (res: String)
    ensures
        forall|ps: Seq<ProbeView>|
            #![trigger routing_text(ps, i18n.language)]
            first_shell(ps) == Some(entry@) ==> res@ == routing_text(ps, i18n.language),
{
    let unknown = crate::diagnostics::registry::RoutingFacts::unknown();
    let facts = match &entry.routing {
        Some(r) => r,
        None => &unknown,
    };
    assert(facts@ == routing_of(entry@));
    let ai: &str = if facts.ai_enabled {
        "enabled"
    } else {
        "disabled"
    };
    let integration: &str = if facts.integration.as_str().is_empty() {
        "n/a"
    } else {
        facts.integration.as_str()
    };
    let cnf = missing_or(&facts.cnf_handler);
    let route = missing_or(&facts.last_route);
    let mut args: Vec<(&str, &str)> = Vec::new();
    args.push(("ai", ai));
    args.push(("integration", integration));
    args.push(("cnf", cnf));
    args.push(("route", route));
    assert(arg_views(args@) =~= seq![
        ("ai"@, ai@),
        ("integration"@, integration@),
        ("cnf"@, cnf@),
        ("route"@, route@),
    ]);
    i18n.format(MessageId::DoctorRoutingLine, args.as_slice())
}

/// The time of day in a label, up to the minute.
pub open spec fn minute_of(label: Seq<char>) -> Seq<char> {
    let n = first_at(label, ' ');
    if n < label.len() {
        let time = label.skip(n + 1);
        if time.len() > 5 {
            time.take(5)
        } else {
            time
        }
    } else {
        label
    }
}

/// The time of day in a label, up to the minute.
pub fn short_time(label: &str) -> (res: String)
    ensures
        res@ == minute_of(label@),
{
    let chars = chars_of(label);
    let mut n: usize = 0;
    while n < chars.len() && chars[n] != ' '
        invariant
            n <= chars@.len(),
            chars@ == label@,
            forall|j: int| 0 <= j < n ==> label@[j] != ' ',
        decreases chars@.len() - n,
    {
        n = n + 1;
    }
    proof {
        lemma_first_at_is(label@, ' ', n as int);
    }
    if n == chars.len() {
        return label.to_owned();
    }
    let start: usize = n + 1;
    let end: usize = if chars.len() - start > 5 {
        start + 5
    } else {
        chars.len()
    };
    let res = text_of(&chars, start, end);
    proof {
        let time = label@.skip(n + 1);
        if time.len() > 5 {
            assert(time.take(5) =~= label@.subrange(start as int, end as int));
        } else {
            assert(time =~= label@.subrange(start as int, end as int));
        }
    }
    res
}

/// What the header says of the logs.
pub struct LogsHeader {
    /// The level that is logged.
    pub level: String,
    /// Whether there is any log file.
    pub any_file: bool,
    /// When a log was last written, as it is shown.
    pub last: Option<String>,
    pub core: Option<LogScan>,
    pub shell: Option<LogScan>,
    /// When the latest error of each log was, as it is shown.
    pub core_time: String,
    pub shell_time: String,
}

/// The errors of one log.
pub open spec fn errors_part(kind: LogKind, scan: Option<ScanView>, time: Seq<char>) -> Seq<Seq<char>> {
    match scan {
        Some(s) => match s.last_error {
            Some(_) => seq![
                decimal(s.errors as nat) + " ("@ + kind.short() + ", last "@ + time + ")"@,
            ],
            None => seq![decimal(s.errors as nat) + " ("@ + kind.short() + ")"@],
        },
        None => Seq::empty(),
    }
}

/// The line on logs.
pub open spec fn logs_text(header: LogsHeader, language: Language) -> Seq<char> {
    if !header.any_file {
        catalog(language, MessageId::DoctorLogsNoFiles)
    } else {
        filled(
            catalog(language, MessageId::DoctorLogsLine),
            seq![
                ("level"@, header.level@),
                ("last"@, or_missing(opt_view(header.last))),
                (
                    "errors"@,
                    joined(
                        errors_part(LogKind::Core, maybe_scan(header.core), header.core_time@)
                            + errors_part(
                            LogKind::Shell,
                            maybe_scan(header.shell),
                            header.shell_time@,
                        ),
                        ", "@,
                    ),
                ),
            ],
        )
    }
}

fn push_errors(out: &mut Vec<String>, kind: LogKind, scan: &Option<LogScan>, time: &str)
    ensures
        texts(final(out)@) == texts(old(out)@) + errors_part(kind, maybe_scan(*scan), time@),
{
    let ghost before = texts(out@);
    if let Some(s) = scan {
        let number = decimal_text(s.errors as u128);
        let head = number.concat(" (").concat(kind.short_name());
        if s.last_error.is_some() {
            push_line(out, head.concat(", last ").concat(time).concat(")"));
        } else {
            push_line(out, head.concat(")"));
        }
    }
    assert(texts(out@) =~= before + errors_part(kind, maybe_scan(*scan), time@));
}

/// The line on logs.
pub fn logs_line(header: &LogsHeader, i18n: I18n) -> (res: String)
    ensures
        res@ == logs_text(*header, i18n.language),
{
    if !header.any_file {
        return i18n.t(MessageId::DoctorLogsNoFiles).to_owned();
    }
    let mut parts: Vec<String> = Vec::new();
    assert(texts(parts@) =~= Seq::empty());
    push_errors(&mut parts, LogKind::Core, &header.core, header.core_time.as_str());
    push_errors(&mut parts, LogKind::Shell, &header.shell, header.shell_time.as_str());
    let ghost all = errors_part(LogKind::Core, maybe_scan(header.core), header.core_time@)
        + errors_part(LogKind::Shell, maybe_scan(header.shell), header.shell_time@);
    assert(texts(parts@) =~= all);
    let errors = join(&parts, ", ");
    let last = missing_or(&header.last);
    let mut args: Vec<(&str, &str)> = Vec::new();
    args.push(("level", header.level.as_str()));
    args.push(("last", last));
    args.push(("errors", errors.as_str()));
    assert(arg_views(args@) =~= seq![
        ("level"@, header.level@),
        ("last"@, last@),
        ("errors"@, errors@),
    ]);
    i18n.format(MessageId::DoctorLogsLine, args.as_slice())
}

/// A crash as the header shows it: what crashed, and the time of day.
pub struct CrashTime {
    pub kind: String,
    pub time: String,
}

/// The crashes of the header.
pub open spec fn crash_parts(crashes: Seq<CrashTime>) -> Seq<Seq<char>> {
    Seq::new(crashes.len(), |i: int| crashes[i].kind@ + ", "@ + crashes[i].time@)
}

/// The line on crashes.
pub open spec fn crashes_text(crashes: Seq<CrashTime>, language: Language) -> Seq<char> {
    filled(
        catalog(language, MessageId::DoctorCrashesLine),
        seq![
            ("count"@, decimal(crashes.len())),
            (
                "detail"@,
                if crashes.len() == 0 {
                    Seq::empty()
                } else {
                    " ("@ + joined(crash_parts(crashes), "; "@) + ")"@
                },
            ),
        ],
    )
}

/// The line on crashes.
pub fn crashes_line(crashes: &Vec<CrashTime>, i18n: I18n) -> (res: String)
    ensures
        res@ == crashes_text(crashes@, i18n.language),
{
    let mut parts: Vec<String> = Vec::new();
    let mut i: usize = 0;
    while i < crashes.len()
        invariant
            i <= crashes@.len(),
            parts@.len() == i,
            forall|j: int|
                0 <= j < i ==> (#[trigger] parts@[j])@ == crashes@[j].kind@ + ", "@
                    + crashes@[j].time@,
        decreases crashes@.len() - i,
    {
        parts.push(crashes[i].kind.clone().concat(", ").concat(crashes[i].time.as_str()));
        i = i + 1;
    }
    assert(texts(parts@) =~= crash_parts(crashes@));
    let detail: String = if crashes.len() == 0 {
        let empty = String::new();
        assert(empty@ =~= Seq::empty());
        empty
    } else {
        let list = join(&parts, "; ");
        " (".to_owned().concat(list.as_str()).concat(")")
    };
    let count = decimal_text(crashes.len() as u128);
    let mut args: Vec<(&str, &str)> = Vec::new();
    args.push(("count", count.as_str()));
    args.push(("detail", detail.as_str()));
    assert(arg_views(args@) =~= seq![("count"@, count@), ("detail"@, detail@)]);
    i18n.format(MessageId::DoctorCrashesLine, args.as_slice())
}

/// What the header of a report is made of.
pub struct DoctorHeader {
    pub version: String,
    /// System and architecture.
    pub host: String,
    pub probes: Vec<RunProbe>,
    pub logs: LogsHeader,
    pub crashes: Vec<CrashTime>,
}

/// The header of a report.
pub open spec fn header_lines(header: DoctorHeader, language: Language) -> Seq<Seq<char>> {
    let ps = by_pid(probe_views(header.probes@));
    let summary = summary_of(ps);
    seq![
        filled(
            catalog(language, MessageId::DoctorVersionLine),
            seq![("shell_version"@, header.version@), ("core_version"@, header.version@)],
        ),
        filled(catalog(language, MessageId::DoctorHostLine), seq![("host"@, header.host@)]),
        filled(
            catalog(language, MessageId::DoctorRuntimeLine),
            seq![
                (
                    "summary"@,
                    if summary.len() == 0 {
                        catalog(language, MessageId::DoctorRuntimeSummaryNone)
                    } else {
                        summary
                    },
                ),
            ],
        ),
        routing_text(ps, language),
        logs_text(header.logs, language),
        crashes_text(header.crashes@, language),
    ]
}

/// The header of a report.
pub fn render_static_facts(header: &DoctorHeader, i18n: I18n) -> (res: Vec<String>)
    ensures
        texts(res@) == header_lines(*header, i18n.language),
{
    let mut out: Vec<String> = Vec::new();
    assert(texts(out@) =~= Seq::empty());
    let mut version: Vec<(&str, &str)> = Vec::new();
    version.push(("shell_version", header.version.as_str()));
    version.push(("core_version", header.version.as_str()));
    assert(arg_views(version@) =~= seq![
        ("shell_version"@, header.version@),
        ("core_version"@, header.version@),
    ]);
    push_line(&mut out, i18n.format(MessageId::DoctorVersionLine, version.as_slice()));
    let mut host: Vec<(&str, &str)> = Vec::new();
    host.push(("host", header.host.as_str()));
    assert(arg_views(host@) =~= seq![("host"@, header.host@)]);
    push_line(&mut out, i18n.format(MessageId::DoctorHostLine, host.as_slice()));
    let running = runtime_summary(&header.probes);
    let summary: &str = if running.as_str().is_empty() {
        i18n.t(MessageId::DoctorRuntimeSummaryNone)
    } else {
        running.as_str()
    };
    let mut runtime: Vec<(&str, &str)> = Vec::new();
    runtime.push(("summary", summary));
    assert(arg_views(runtime@) =~= seq![("summary"@, summary@)]);
    push_line(&mut out, i18n.format(MessageId::DoctorRuntimeLine, runtime.as_slice()));
    push_line(&mut out, routing_line(&header.probes, i18n));
    push_line(&mut out, logs_line(&header.logs, i18n));
    push_line(&mut out, crashes_line(&header.crashes, i18n));
    assert(texts(out@) =~= header_lines(*header, i18n.language));
    out
}

/// The line on the checks that ran.
pub open spec fn checks_lines(checks: Seq<Seq<char>>, language: Language) -> Seq<Seq<char>> {
    if checks.len() == 0 {
        Seq::empty()
    } else {
        seq![
            catalog(language, MessageId::DoctorChecksLabel) + ": "@ + joined(
                without_repeats(ordered_texts(checks)),
                ", "@,
            ),
        ]
    }
}

/// The last lines: all is well, or what to do next.
pub open spec fn closing_lines(report: HealthView, language: Language) -> Seq<Seq<char>> {
    if report.findings.len() == 0 && report.unavailable.len() == 0 {
        seq![catalog(language, MessageId::DoctorAllHealthy)]
    } else {
        seq![Seq::empty(), catalog(language, MessageId::DoctorExportHint)]
    }
}

/// The first lines: the title, the status, the header and an empty line.
pub open spec fn opening_lines(header: DoctorHeader, report: HealthView, language: Language) -> Seq<
    Seq<char>,
> {
    seq![
        catalog(language, MessageId::DoctorTitle),
        catalog(language, MessageId::DoctorStatusLabel) + ": "@ + status_for(
            severity_of(report),
        ).word(),
    ] + header_lines(header, language) + seq![Seq::<char>::empty()]
}

/// A report as plain text.
pub open spec fn report_lines(header: DoctorHeader, report: HealthView, language: Language) -> Seq<
    Seq<char>,
> {
    opening_lines(header, report, language) + checks_lines(report.checks_done, language)
        + all_finding_lines(worst_first(report.findings), language) + unavailable_lines(
        report.unavailable,
        language,
    ) + closing_lines(report, language)
}

fn empty_text() -> (res: String)
    ensures
        res@ == Seq::<char>::empty(),
{
    let empty = String::new();
    assert(empty@ =~= Seq::empty());
    empty
}

fn push_all_findings(out: &mut Vec<String>, findings: &Vec<HealthFinding>, i18n: I18n)
    ensures
        texts(final(out)@) == texts(old(out)@) + all_finding_lines(
            worst_first(finding_views(findings@)),
            i18n.language,
        ),
{
    let ghost begin = texts(out@);
    let ghost all = worst_first(finding_views(findings@));
    let at = finding_order(findings);
    let mut k: usize = 0;
    proof {
        assert(all.take(0) =~= Seq::empty());
        assert(begin + all_finding_lines(all.take(0), i18n.language) =~= begin);
    }
    while k < at.len()
        invariant
            k <= at@.len(),
            at@.len() == findings@.len(),
            all == worst_first(finding_views(findings@)),
            forall|i: int| 0 <= i < at@.len() ==> #[trigger] at@[i] < findings@.len(),
            forall|i: int|
                0 <= i < at@.len() ==> findings@[(#[trigger] at@[i]) as int]@ == all[i],
            texts(out@) == begin + all_finding_lines(all.take(k as int), i18n.language),
        decreases at@.len() - k,
    {
        proof {
            assert(all.take(k + 1).drop_last() =~= all.take(k as int));
            assert(all.take(k + 1).last() == findings@[at@[k as int] as int]@);
        }
        let ghost before = texts(out@);
        push_finding_lines(out, &findings[at[k]], i18n);
        k = k + 1;
        assert(texts(out@) =~= begin + all_finding_lines(all.take(k as int), i18n.language));
    }
    assert(all.take(all.len() as int) =~= all);
}

fn push_unavailable(out: &mut Vec<String>, items: &Vec<UnavailableCollector>, i18n: I18n)
    ensures
        texts(final(out)@) == texts(old(out)@) + unavailable_lines(items@, i18n.language),
{
    let ghost begin = texts(out@);
    let ghost all = unavailable_lines(items@, i18n.language);
    let mut i: usize = 0;
    assert(begin + all.take(0) =~= begin);
    while i < items.len()
        invariant
            i <= items@.len(),
            all == unavailable_lines(items@, i18n.language),
            texts(out@) == begin + all.take(i as int),
        decreases items@.len() - i,
    {
        let item = items[i];
        push_line(
            out,
            "[".to_owned().concat(item.severity.label()).concat("] ").concat(
                collector_token(item.collector),
            ).concat(": ").concat(i18n.t(unavailable_reason_message(item.reason))),
        );
        assert(all[i as int] == unavailable_line(items@[i as int], i18n.language));
        i = i + 1;
        assert(texts(out@) =~= begin + all.take(i as int));
    }
    assert(all.take(all.len() as int) =~= all);
}

/// A report as plain text.
pub fn format_doctor_report_plain(
    header: &DoctorHeader,
    report: &HealthScanReport,
    i18n: I18n,
) -> (res: Vec<String>)
    ensures
        texts(res@) == report_lines(*header, report@, i18n.language),
{
    let ghost language = i18n.language;
    let mut out: Vec<String> = Vec::new();
    assert(texts(out@) =~= Seq::empty());
    push_line(&mut out, i18n.t(MessageId::DoctorTitle).to_owned());
    push_line(
        &mut out,
        i18n.t(MessageId::DoctorStatusLabel).to_owned().concat(": ").concat(
            doctor_status(report).token(),
        ),
    );
    let ghost two = texts(out@);
    let mut facts = render_static_facts(header, i18n);
    let ghost middle = texts(facts@);
    out.append(&mut facts);
    assert(texts(out@) =~= two + middle);
    push_line(&mut out, empty_text());
    assert(texts(out@) =~= opening_lines(*header, report@, language));
    let ghost opening = texts(out@);
    if report.checks_done.len() > 0 {
        let checks = sorted_once(&report.checks_done);
        let list = join(&checks, ", ");
        push_line(
            &mut out,
            i18n.t(MessageId::DoctorChecksLabel).to_owned().concat(": ").concat(list.as_str()),
        );
    }
    assert(texts(out@) =~= opening + checks_lines(report@.checks_done, language));
    push_all_findings(&mut out, &report.findings, i18n);
    push_unavailable(&mut out, &report.unavailable, i18n);
    let ghost body = texts(out@);
    if report.findings.len() == 0 && report.unavailable.len() == 0 {
        push_line(&mut out, i18n.t(MessageId::DoctorAllHealthy).to_owned());
    } else {
        push_line(&mut out, empty_text());
        push_line(&mut out, i18n.t(MessageId::DoctorExportHint).to_owned());
    }
    assert(texts(out@) =~= body + closing_lines(report@, language));
    out
}

/// A report with something to attend to never says that all is well, and its
/// status is not healthy if a finding is.
pub proof fn findings_are_never_healthy(report: HealthView, i: int)
    requires
        0 <= i < report.findings.len(),
        report.findings[i].severity != HealthSeverity::Healthy,
    ensures
        status_for(severity_of(report)) != DoctorStatus::Healthy,
        report.findings[i].severity == HealthSeverity::Critical ==> status_for(severity_of(report))
            == DoctorStatus::Error,
{
    crate::health::model::overall_covers_every_finding(report.findings, i);
}

} // verus!
