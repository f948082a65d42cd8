//! Running processes, entries that were left behind, and recent crashes.

use vstd::prelude::*;
use vstd::string::*;

use crate::diagnostics::registry::{EntryView, RunEntry};
use crate::health::model::{
    derived, env_finding, env_warning, fact_views, finding_views, named_texts, one_arg, one_text,
    push_arg, push_fact, push_finding, FactValueView, FactView, FindingView, HealthFact,
    HealthFactCategory, HealthFactValue, HealthFinding, HealthFindingCategory, HealthScanReport,
    HealthSeverity,
};
use crate::i18n::MessageId;
use crate::order::{key_views, order, order_of, positions, KeyView, SortKey};
use crate::text::{
    chars_of, decimal, decimal_text, is_text, join, joined, lines, lines_of, same,
    text_of, texts,
};
use crate::tree::{json_parse, json_read, json_tree, text_at, u64_at, Tree};

verus! {

/// How far back crashes and log lines count, in milliseconds.
pub const CRASH_WINDOW_MS: u128 = 86_400_000;

/// One crash.
#[derive(Clone, Debug)]
pub struct CrashRecord {
    /// What crashed.
    pub kind: String,
    pub ts_ms: u128,
    pub panic: String,
}

/// What a [`CrashRecord`] says.
#[verifier::ext_equal]
pub struct CrashView {
    pub kind: Seq<char>,
    pub ts_ms: u128,
    pub panic: Seq<char>,
}

impl View for CrashRecord {
    type V = CrashView;

    open spec fn view(&self) -> CrashView {
        CrashView { kind: self.kind@, ts_ms: self.ts_ms, panic: self.panic@ }
    }
}

/// The views of a list of crashes.
pub open spec fn crash_views(v: Seq<CrashRecord>) -> Seq<CrashView> {
    Seq::new(v.len(), |i: int| v[i]@)
}

/// Whether a point in time still counts.
pub open spec fn recent(ts_ms: u128, now_ms: u128) -> bool {
    now_ms - ts_ms <= CRASH_WINDOW_MS
}

/// Whether a point in time still counts.
pub fn is_recent(ts_ms: u128, now_ms: u128) -> (res: bool)
    ensures
        res == recent(ts_ms, now_ms),
{
    now_ms < ts_ms || now_ms - ts_ms <= CRASH_WINDOW_MS
}

/// The crash that a document records, if it still counts.
pub open spec fn crash_of(document: Tree, kind: Seq<char>, now_ms: u128) -> Option<CrashView> {
    let ts_ms = match document.u64_at("ts"@) {
        Some(ts) => ts as u128,
        None => 0,
    };
    if recent(ts_ms, now_ms) {
        Some(
            CrashView {
                kind,
                ts_ms,
                panic: match document.text_at("panic"@) {
                    Some(s) => s,
                    None => Seq::empty(),
                },
            },
        )
    } else {
        None
    }
}

/// The crash in a line of a crash log. A line that is no document has none.
pub open spec fn crash_in(line: Seq<char>, kind: Seq<char>, now_ms: u128) -> Option<CrashView> {
    match json_read(line) {
        Some(document) => crash_of(document, kind, now_ms),
        None => None,
    }
}

/// The crashes in lines of a crash log.
pub open spec fn crashes_in(all: Seq<Seq<char>>, kind: Seq<char>, now_ms: u128) -> Seq<CrashView>
    decreases all.len(),
{
    if all.len() == 0 {
        Seq::empty()
    } else {
        let rest = crashes_in(all.drop_last(), kind, now_ms);
        match crash_in(all.last(), kind, now_ms) {
            Some(c) => rest.push(c),
            None => rest,
        }
    }
}

/// The crash that a document records, if it still counts.
pub fn read_crash(document: &serde_json::Value, kind: &str, now_ms: u128) -> (res: Option<CrashRecord>)
    ensures
        match res {
            Some(c) => crash_of(json_tree(*document), kind@, now_ms) == Some(c@),
            None => crash_of(json_tree(*document), kind@, now_ms) is None,
        },
{
    let ts_ms: u128 = match u64_at(document, "ts") {
        Some(ts) => ts as u128,
        None => 0,
    };
    if !is_recent(ts_ms, now_ms) {
        return None;
    }
    let panic: String = match text_at(document, "panic") {
        Some(s) => s,
        None => {
            let empty = String::new();
            assert(empty@ =~= Seq::empty());
            empty
        },
    };
    Some(CrashRecord { kind: kind.to_owned(), ts_ms, panic })
}

/// The text of one crash log, and what it is about.
pub struct CrashLog {
    pub kind: String,
    pub content: String,
}

/// The crashes in crash logs, log after log.
pub open spec fn all_crashes(logs: Seq<CrashLog>, now_ms: u128) -> Seq<CrashView>
    decreases logs.len(),
{
    if logs.len() == 0 {
        Seq::empty()
    } else {
        all_crashes(logs.drop_last(), now_ms) + crashes_in(
            lines_of(logs.last().content@),
            logs.last().kind@,
            now_ms,
        )
    }
}

/// The keys by which crashes are ordered.
pub open spec fn crash_keys(v: Seq<CrashView>) -> Seq<KeyView> {
    Seq::new(v.len(), |i: int| KeyView { rank: v[i].ts_ms, text: Seq::empty() })
}

/// Crashes, oldest first.
pub open spec fn oldest_first(v: Seq<CrashView>) -> Seq<CrashView> {
    Seq::new(v.len(), |i: int| v[order_of(crash_keys(v))[i]])
}

fn push_crashes(out: &mut Vec<CrashRecord>, log: &CrashLog, now_ms: u128)
    ensures
        crash_views(final(out)@) == crash_views(old(out)@) + crashes_in(
            lines_of(log.content@),
            log.kind@,
            now_ms,
        ),
{
    let all = lines(log.content.as_str());
    let ghost views = texts(all@);
    let ghost begin = crash_views(out@);
    let mut i: usize = 0;
    proof {
        assert(views.take(0) =~= Seq::empty());
        assert(begin + crashes_in(views.take(0), log.kind@, now_ms) =~= begin);
    }
    while i < all.len()
        invariant
            i <= all@.len(),
            views == texts(all@),
            crash_views(out@) == begin + crashes_in(views.take(i as int), log.kind@, now_ms),
        decreases all@.len() - i,
    {
        proof {
            assert(views.take(i + 1).drop_last() =~= views.take(i as int));
            assert(views.take(i + 1).last() == all@[i as int]@);
        }
        let ghost before = crash_views(out@);
        let found: Option<CrashRecord> = match json_parse(all[i].as_str()) {
            Some(document) => read_crash(&document, log.kind.as_str(), now_ms),
            None => None,
        };
        if let Some(record) = found {
            out.push(record);
            assert(crash_views(out@) =~= before.push(record@));
        }
        i = i + 1;
        assert(crash_views(out@) =~= begin + crashes_in(views.take(i as int), log.kind@, now_ms));
    }
    assert(views.take(views.len() as int) =~= views);
}

/// The crashes in crash logs that still count, oldest first.
pub fn recent_crash_records(logs: &Vec<CrashLog>, now_ms: u128) -> (res: Vec<CrashRecord>)
    ensures
        crash_views(res@) == oldest_first(all_crashes(logs@, now_ms)),
{
    let mut found: Vec<CrashRecord> = Vec::new();
    let mut i: usize = 0;
    proof {
        assert(logs@.take(0) =~= Seq::empty());
        assert(crash_views(found@) =~= Seq::empty());
    }
    while i < logs.len()
        invariant
            i <= logs@.len(),
            crash_views(found@) == all_crashes(logs@.take(i as int), now_ms),
        decreases logs@.len() - i,
    {
        proof {
            assert(logs@.take(i + 1).drop_last() =~= logs@.take(i as int));
            assert(logs@.take(i + 1).last() == logs@[i as int]);
        }
        push_crashes(&mut found, &logs[i], now_ms);
        i = i + 1;
    }
    assert(logs@.take(logs@.len() as int) =~= logs@);
    let ghost all = crash_views(found@);
    let mut keys: Vec<SortKey> = Vec::new();
    let mut j: usize = 0;
    while j < found.len()
        invariant
            j <= found@.len(),
            keys@.len() == j,
            all == crash_views(found@),
            forall|k: int|
                0 <= k < j ==> (#[trigger] keys@[k])@ == (KeyView {
                    rank: all[k].ts_ms,
                    text: Seq::empty(),
                }),
        decreases found@.len() - j,
    {
        let empty = String::new();
        assert(empty@ =~= Seq::empty());
        keys.push(SortKey { rank: found[j].ts_ms, text: empty });
        j = j + 1;
    }
    assert(key_views(keys@) =~= crash_keys(all));
    let at = order(&keys);
    let mut out: Vec<CrashRecord> = Vec::new();
    let mut k: usize = 0;
    while k < at.len()
        invariant
            k <= at@.len(),
            at@.len() == found@.len(),
            all == crash_views(found@),
            positions(at@) == order_of(crash_keys(all)),
            forall|i: int| 0 <= i < at@.len() ==> #[trigger] at@[i] < found@.len(),
            out@.len() == k,
            forall|i: int| 0 <= i < k ==> (#[trigger] out@[i])@ == oldest_first(all)[i],
        decreases at@.len() - k,
    {
        let record = &found[at[k]];
        assert(positions(at@)[k as int] == at@[k as int]);
        out.push(
            CrashRecord {
                kind: record.kind.clone(),
                ts_ms: record.ts_ms,
                panic: record.panic.clone(),
            },
        );
        assert(out@[k as int]@ =~= oldest_first(all)[k as int]);
        k = k + 1;
    }
    assert(crash_views(out@) =~= oldest_first(all));
    out
}

/// A text cut after `limit` characters, with an ellipsis if it was longer.
pub open spec fn shortened(text: Seq<char>, limit: int) -> Seq<char> {
    if text.len() > limit {
        text.take(limit) + "…"@
    } else {
        text
    }
}

/// A text cut after `limit` characters.
pub fn shorten(text: &str, limit: usize) -> (res: String)
    ensures
        res@ == shortened(text@, limit as int),
{
    let chars = chars_of(text);
    if chars.len() > limit {
        let head = text_of(&chars, 0, limit);
        assert(head@ =~= text@.take(limit as int));
        head.concat("…")
    } else {
        text.to_owned()
    }
}

/// One entry of the registry, and what was found out about its process.
#[derive(Clone, Debug)]
pub struct RunProbe {
    pub entry: RunEntry,
    pub alive: bool,
    /// Whether the shell that owns it is alive.
    pub owner_alive: bool,
    /// When it started, as it is shown.
    pub started: String,
}

/// What a [`RunProbe`] says.
#[verifier::ext_equal]
pub struct ProbeView {
    pub entry: EntryView,
    pub alive: bool,
    pub owner_alive: bool,
    pub started: Seq<char>,
}

impl View for RunProbe {
    type V = ProbeView;

    open spec fn view(&self) -> ProbeView {
        ProbeView {
            entry: self.entry@,
            alive: self.alive,
            owner_alive: self.owner_alive,
            started: self.started@,
        }
    }
}

/// The views of a list of probes.
pub open spec fn probe_views(v: Seq<RunProbe>) -> Seq<ProbeView> {
    Seq::new(v.len(), |i: int| v[i]@)
}

/// The keys by which probes are ordered.
pub open spec fn probe_keys(v: Seq<ProbeView>) -> Seq<KeyView> {
    Seq::new(v.len(), |i: int| KeyView { rank: v[i].entry.pid as u128, text: Seq::empty() })
}

/// Probes by the number of their process.
pub open spec fn by_pid(v: Seq<ProbeView>) -> Seq<ProbeView> {
    Seq::new(v.len(), |i: int| v[order_of(probe_keys(v))[i]])
}

/// The positions of probes by the number of their process.
pub fn pid_order(probes: &Vec<RunProbe>) -> (res: Vec<usize>)
    ensures
        res@.len() == probes@.len(),
        forall|i: int| 0 <= i < res@.len() ==> #[trigger] res@[i] < probes@.len(),
        forall|i: int|
            0 <= i < res@.len() ==> probes@[(#[trigger] res@[i]) as int]@ == by_pid(
                probe_views(probes@),
            )[i],
{
    let ghost all = probe_views(probes@);
    let mut keys: Vec<SortKey> = Vec::new();
    let mut j: usize = 0;
    while j < probes.len()
        invariant
            j <= probes@.len(),
            keys@.len() == j,
            all == probe_views(probes@),
            forall|k: int|
                0 <= k < j ==> (#[trigger] keys@[k])@ == (KeyView {
                    rank: all[k].entry.pid as u128,
                    text: Seq::empty(),
                }),
        decreases probes@.len() - j,
    {
        let empty = String::new();
        assert(empty@ =~= Seq::empty());
        keys.push(SortKey { rank: probes[j].entry.pid as u128, text: empty });
        j = j + 1;
    }
    assert(key_views(keys@) =~= probe_keys(all));
    let at = order(&keys);
    proof {
        assert forall|i: int| 0 <= i < at@.len() implies probes@[(#[trigger] at@[i]) as int]@
            == by_pid(all)[i] by {
            assert(positions(at@)[i] == at@[i]);
        }
    }
    at
}

/// How a running shell is listed.
pub open spec fn shell_label(entry: EntryView) -> Seq<char> {
    decimal(entry.pid as nat) + " ("@ + (match entry.shell_kind {
        Some(kind) => kind,
        None => "?"@,
    }) + ")"@
}

/// How a running core is listed.
pub open spec fn core_label(entry: EntryView) -> Seq<char> {
    match entry.session_id {
        Some(id) => if id.len() > 0 {
            decimal(entry.pid as nat) + " (session "@ + id + ")"@
        } else {
            decimal(entry.pid as nat)
        },
        None => decimal(entry.pid as nat),
    }
}

/// A process of a kind that runs.
pub open spec fn lives(p: ProbeView, kind: Seq<char>) -> bool {
    p.alive && p.entry.kind == kind
}

/// How the running shells are listed.
pub open spec fn shell_labels(ps: Seq<ProbeView>) -> Seq<Seq<char>>
    decreases ps.len(),
{
    if ps.len() == 0 {
        Seq::empty()
    } else if lives(ps.last(), "shell"@) {
        shell_labels(ps.drop_last()).push(shell_label(ps.last().entry))
    } else {
        shell_labels(ps.drop_last())
    }
}

/// How the running cores are listed.
pub open spec fn core_labels(ps: Seq<ProbeView>) -> Seq<Seq<char>>
    decreases ps.len(),
{
    if ps.len() == 0 {
        Seq::empty()
    } else if lives(ps.last(), "core"@) {
        core_labels(ps.drop_last()).push(core_label(ps.last().entry))
    } else {
        core_labels(ps.drop_last())
    }
}

/// A core that runs without the shell that owned it. A brokered core belongs to
/// an agent host and is never an orphan.
pub open spec fn is_orphan(p: ProbeView) -> bool {
    &&& lives(p, "core"@)
    &&& p.entry.mode != Some("brokered"@)
    &&& (p.entry.owner_shell_pid is None || !p.owner_alive)
}

/// The finding for an orphan.
pub open spec fn orphan_finding(p: ProbeView) -> FindingView {
    env_warning(
        "env-runtime-orphan-"@ + decimal(p.entry.pid as nat),
        MessageId::HealthFindingOrphanCore,
        MessageId::HealthRemediationOrphanCore,
        seq![("pid"@, decimal(p.entry.pid as nat))],
        seq!["runtime.cores"@],
    )
}

/// The findings for orphans.
pub open spec fn orphan_findings(ps: Seq<ProbeView>) -> Seq<FindingView>
    decreases ps.len(),
{
    if ps.len() == 0 {
        Seq::empty()
    } else if is_orphan(ps.last()) {
        orphan_findings(ps.drop_last()).push(orphan_finding(ps.last()))
    } else {
        orphan_findings(ps.drop_last())
    }
}

/// The component that an entry belongs to.
pub open spec fn component(kind: Seq<char>) -> Seq<char> {
    if kind == "core"@ {
        "cosh-core"@
    } else {
        "cosh-shell"@
    }
}

/// The finding for an entry whose process is dead.
pub open spec fn stale_finding(p: ProbeView) -> FindingView {
    env_warning(
        "env-runtime-stale-"@ + decimal(p.entry.pid as nat),
        MessageId::HealthFindingStaleEntry,
        MessageId::HealthRemediationStaleEntry,
        seq![
            ("kind"@, component(p.entry.kind)),
            ("pid"@, decimal(p.entry.pid as nat)),
            ("time"@, p.started),
        ],
        seq!["runtime.stale_entries"@],
    )
}

/// The findings for entries whose processes are dead.
pub open spec fn stale_findings(ps: Seq<ProbeView>) -> Seq<FindingView>
    decreases ps.len(),
{
    if ps.len() == 0 {
        Seq::empty()
    } else if !ps.last().alive {
        stale_findings(ps.drop_last()).push(stale_finding(ps.last()))
    } else {
        stale_findings(ps.drop_last())
    }
}

/// A crash with what is shown of it.
#[derive(Clone, Debug)]
pub struct CrashSighting {
    pub record: CrashRecord,
    /// When it happened, as it is shown.
    pub time: String,
    /// Its message with secrets taken out.
    pub redacted: String,
}

/// The finding for a crash.
pub open spec fn crash_finding(kind: Seq<char>, ts_ms: u128, time: Seq<char>, redacted: Seq<char>) -> FindingView {
    FindingView {
        id: "env-runtime-crash-"@ + kind + "-"@ + decimal(ts_ms as nat),
        severity: HealthSeverity::Critical,
        category: HealthFindingCategory::Anomaly,
        title_id: MessageId::HealthFindingCrash,
        detail_id: Some(MessageId::HealthRemediationCrash),
        detail_args: seq![
            ("kind"@, kind),
            ("panic"@, shortened(redacted, 120)),
            ("time"@, time),
        ],
        evidence_fact_ids: seq!["runtime.crashes_24h"@],
    }
}

/// The findings for crashes.
pub open spec fn crash_findings(crashes: Seq<CrashSighting>) -> Seq<FindingView> {
    Seq::new(
        crashes.len(),
        |i: int|
            crash_finding(
                crashes[i].record.kind@,
                crashes[i].record.ts_ms,
                crashes[i].time@,
                crashes[i].redacted@,
            ),
    )
}

/// The facts about the runtime.
pub open spec fn runtime_facts(ps: Seq<ProbeView>, crashes: int, elapsed_ms: u128) -> Seq<FactView> {
    let c = HealthFactCategory::Runtime;
    seq![
        derived(
            c,
            "runtime.shells"@,
            FactValueView::Text(joined(shell_labels(ps), ", "@)),
            elapsed_ms,
        ),
        derived(
            c,
            "runtime.cores"@,
            FactValueView::Text(joined(core_labels(ps), ", "@)),
            elapsed_ms,
        ),
        derived(
            c,
            "runtime.stale_entries"@,
            FactValueView::Unsigned(stale_findings(ps).len() as u64),
            elapsed_ms,
        ),
        derived(c, "runtime.crashes_24h"@, FactValueView::Unsigned(crashes as u64), elapsed_ms),
    ]
}

/// The label of a running shell.
pub fn label_shell(entry: &RunEntry) -> (res: String)
    ensures
        res@ == shell_label(entry@),
{
    let number = decimal_text(entry.pid as u128);
    let kind: &str = match &entry.shell_kind {
        Some(k) => k.as_str(),
        None => "?",
    };
    number.concat(" (").concat(kind).concat(")")
}

/// The label of a running core.
pub fn label_core(entry: &RunEntry) -> (res: String)
    ensures
        res@ == core_label(entry@),
{
    let number = decimal_text(entry.pid as u128);
    match &entry.session_id {
        Some(id) => {
            if id.as_str().is_empty() {
                number
            } else {
                number.concat(" (session ").concat(id.as_str()).concat(")")
            }
        },
        None => number,
    }
}

fn report_orphan(probe: &RunProbe) -> (res: HealthFinding)
    ensures
        res@ == orphan_finding(probe@),
{
    let number = decimal_text(probe.entry.pid as u128);
    env_finding(
        "env-runtime-orphan-".to_owned().concat(number.as_str()),
        MessageId::HealthFindingOrphanCore,
        MessageId::HealthRemediationOrphanCore,
        one_arg("pid", number.as_str()),
        one_text("runtime.cores"),
    )
}

fn report_stale(probe: &RunProbe) -> (res: HealthFinding)
    ensures
        res@ == stale_finding(probe@),
{
    let number = decimal_text(probe.entry.pid as u128);
    let kind: &str = if same(probe.entry.kind.as_str(), "core") {
        "cosh-core"
    } else {
        "cosh-shell"
    };
    let mut args = one_arg("kind", kind);
    push_arg(&mut args, "pid", number.as_str());
    push_arg(&mut args, "time", probe.started.as_str());
    assert(named_texts(args@) =~= seq![
        ("kind"@, component(probe.entry.kind@)),
        ("pid"@, decimal(probe.entry.pid as nat)),
        ("time"@, probe.started@),
    ]);
    env_finding(
        "env-runtime-stale-".to_owned().concat(number.as_str()),
        MessageId::HealthFindingStaleEntry,
        MessageId::HealthRemediationStaleEntry,
        args,
        one_text("runtime.stale_entries"),
    )
}

fn report_crash(crash: &CrashSighting) -> (res: HealthFinding)
    ensures
        res@ == crash_finding(
            crash.record.kind@,
            crash.record.ts_ms,
            crash.time@,
            crash.redacted@,
        ),
{
    let panic = shorten(crash.redacted.as_str(), 120);
    let mut args = one_arg("kind", crash.record.kind.as_str());
    push_arg(&mut args, "panic", panic.as_str());
    push_arg(&mut args, "time", crash.time.as_str());
    let number = decimal_text(crash.record.ts_ms);
    let res = HealthFinding {
        id: "env-runtime-crash-".to_owned().concat(crash.record.kind.as_str()).concat("-").concat(
            number.as_str(),
        ),
        severity: HealthSeverity::Critical,
        category: HealthFindingCategory::Anomaly,
        title_id: MessageId::HealthFindingCrash,
        detail_id: Some(MessageId::HealthRemediationCrash),
        detail_args: args,
        evidence_fact_ids: one_text("runtime.crashes_24h"),
    };
    assert(res@ =~~= crash_finding(
        crash.record.kind@,
        crash.record.ts_ms,
        crash.time@,
        crash.redacted@,
    ));
    res
}

/// Whether a core runs without its shell.
pub fn orphaned(probe: &RunProbe) -> (res: bool)
    ensures
        res == is_orphan(probe@),
{
    probe.alive && same(probe.entry.kind.as_str(), "core") && !is_text(
        &probe.entry.mode,
        "brokered",
    ) && (probe.entry.owner_shell_pid.is_none() || !probe.owner_alive)
}

/// Collects the state of running processes.
pub fn collect_runtime(
    report: &mut HealthScanReport,
    probes: &Vec<RunProbe>,
    crashes: &Vec<CrashSighting>,
    elapsed_ms: u128,
)
    ensures
        final(report)@ == old(report)@.recorded(
            runtime_facts(by_pid(probe_views(probes@)), crashes@.len() as int, elapsed_ms),
            "runtime"@,
            orphan_findings(by_pid(probe_views(probes@))) + stale_findings(
                by_pid(probe_views(probes@)),
            ) + crash_findings(crashes@),
        ),
{
    let ghost ps = by_pid(probe_views(probes@));
    let at = pid_order(probes);
    let mut shells: Vec<String> = Vec::new();
    let mut cores: Vec<String> = Vec::new();
    let mut orphans: Vec<HealthFinding> = Vec::new();
    let mut stale: Vec<HealthFinding> = Vec::new();
    let mut k: usize = 0;
    proof {
        assert(ps.take(0) =~= Seq::empty());
        assert(texts(shells@) =~= Seq::empty());
        assert(texts(cores@) =~= Seq::empty());
        assert(finding_views(orphans@) =~= Seq::empty());
        assert(finding_views(stale@) =~= Seq::empty());
    }
    while k < at.len()
        invariant
            k <= at@.len(),
            at@.len() == probes@.len(),
            ps == by_pid(probe_views(probes@)),
            forall|i: int| 0 <= i < at@.len() ==> #[trigger] at@[i] < probes@.len(),
            forall|i: int|
                0 <= i < at@.len() ==> probes@[(#[trigger] at@[i]) as int]@ == ps[i],
            texts(shells@) == shell_labels(ps.take(k as int)),
            texts(cores@) == core_labels(ps.take(k as int)),
            finding_views(orphans@) == orphan_findings(ps.take(k as int)),
            finding_views(stale@) == stale_findings(ps.take(k as int)),
        decreases at@.len() - k,
    {
        let probe = &probes[at[k]];
        let ghost p = probe@;
        proof {
            assert(p == ps[k as int]);
            assert(ps.take(k + 1).drop_last() =~= ps.take(k as int));
            assert(ps.take(k + 1).last() == p);
        }
        if probe.alive {
            if same(probe.entry.kind.as_str(), "shell") {
                let ghost before = texts(shells@);
                shells.push(label_shell(&probe.entry));
                assert(texts(shells@) =~= before.push(shell_label(p.entry)));
            }
            if same(probe.entry.kind.as_str(), "core") {
                let ghost before = texts(cores@);
                cores.push(label_core(&probe.entry));
                assert(texts(cores@) =~= before.push(core_label(p.entry)));
            }
        } else {
            push_finding(&mut stale, report_stale(probe));
        }
        if orphaned(probe) {
            push_finding(&mut orphans, report_orphan(probe));
        }
        k = k + 1;
    }
    assert(ps.take(ps.len() as int) =~= ps);
    let stale_count: u64 = stale.len() as u64;
    let crash_count: u64 = crashes.len() as u64;
    let mut facts: Vec<HealthFact> = Vec::new();
    let c = HealthFactCategory::Runtime;
    assert(fact_views(facts@) =~= Seq::empty());
    push_fact(
        &mut facts,
        c,
        "runtime.shells",
        HealthFactValue::Text(join(&shells, ", ")),
        elapsed_ms,
    );
    push_fact(
        &mut facts,
        c,
        "runtime.cores",
        HealthFactValue::Text(join(&cores, ", ")),
        elapsed_ms,
    );
    push_fact(
        &mut facts,
        c,
        "runtime.stale_entries",
        HealthFactValue::Unsigned(stale_count),
        elapsed_ms,
    );
    push_fact(
        &mut facts,
        c,
        "runtime.crashes_24h",
        HealthFactValue::Unsigned(crash_count),
        elapsed_ms,
    );
    proof {
        assert(finding_views(stale@).len() == stale@.len());
        assert(fact_views(facts@) =~~= runtime_facts(ps, crashes@.len() as int, elapsed_ms));
    }
    let ghost first = finding_views(orphans@);
    let ghost second = finding_views(stale@);
    let mut findings = orphans;
    findings.append(&mut stale);
    assert(finding_views(findings@) =~= first + second);
    let ghost head = first + second;
    let ghost tail = crash_findings(crashes@);
    let mut i: usize = 0;
    assert(finding_views(findings@) =~= head + tail.take(0));
    while i < crashes.len()
        invariant
            i <= crashes@.len(),
            tail == crash_findings(crashes@),
            finding_views(findings@) == head + tail.take(i as int),
        decreases crashes@.len() - i,
    {
        push_finding(&mut findings, report_crash(&crashes[i]));
        assert(tail[i as int] == crash_finding(
            crashes@[i as int].record.kind@,
            crashes@[i as int].record.ts_ms,
            crashes@[i as int].time@,
            crashes@[i as int].redacted@,
        ));
        i = i + 1;
        assert(finding_views(findings@) =~= head + tail.take(i as int));
    }
    assert(tail.take(tail.len() as int) =~= tail);
    report.record(facts, "runtime", findings);
}

/// A brokered core is never an orphan, whoever owned it.
pub proof fn brokered_cores_are_no_orphans(p: ProbeView)
    requires
        p.entry.mode == Some("brokered"@),
    ensures
        !is_orphan(p),
{
}

} // verus!
