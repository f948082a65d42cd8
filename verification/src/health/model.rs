//! Facts, findings and reports.

use vstd::prelude::*;

use crate::i18n::MessageId;
use crate::text::{same, texts};

verus! {

/// What a fact is about.
#[derive(Clone, Copy, Debug, PartialEq, Eq, Structural)]
pub enum HealthFactCategory {
    Provider,
    Config,
    Hooks,
    Pty,
    Permissions,
    Runtime,
    Logs,
    Kernel,
}

/// Where a fact comes from.
#[derive(Clone, Copy, Debug, PartialEq, Eq, Structural)]
pub enum HealthFactSource {
    Derived,
    ProcSysKernel,
}

/// The value of a fact.
#[derive(Clone, Debug)]
pub enum HealthFactValue {
    Text(String),
    Bool(bool),
    Unsigned(u64),
}

/// What a [`HealthFactValue`] says.
#[verifier::ext_equal]
pub enum FactValueView {
    Text(Seq<char>),
    Bool(bool),
    Unsigned(u64),
}

impl View for HealthFactValue {
    type V = FactValueView;

    open spec fn view(&self) -> FactValueView {
        match self {
            HealthFactValue::Text(s) => FactValueView::Text(s@),
            HealthFactValue::Bool(b) => FactValueView::Bool(*b),
            HealthFactValue::Unsigned(n) => FactValueView::Unsigned(*n),
        }
    }
}

/// A fact.
#[derive(Clone, Debug)]
pub struct HealthFact {
    pub category: HealthFactCategory,
    pub key: String,
    pub value: HealthFactValue,
    pub source: HealthFactSource,
    pub elapsed_ms: u128,
}

/// What a [`HealthFact`] says.
#[verifier::ext_equal]
pub struct FactView {
    pub category: HealthFactCategory,
    pub key: Seq<char>,
    pub value: FactValueView,
    pub source: HealthFactSource,
    pub elapsed_ms: u128,
}

impl View for HealthFact {
    type V = FactView;

    open spec fn view(&self) -> FactView {
        FactView {
            category: self.category,
            key: self.key@,
            value: self.value@,
            source: self.source,
            elapsed_ms: self.elapsed_ms,
        }
    }
}

/// The views of a list of facts.
pub open spec fn fact_views(v: Seq<HealthFact>) -> Seq<FactView> {
    Seq::new(v.len(), |i: int| v[i]@)
}

/// A fact that was derived from what was read.
pub open spec fn derived(
    category: HealthFactCategory,
    key: Seq<char>,
    value: FactValueView,
    elapsed_ms: u128,
) -> FactView {
    FactView { category, key, value, source: HealthFactSource::Derived, elapsed_ms }
}

/// Adds a fact that was derived from what was read.
pub fn push_fact(
    facts: &mut Vec<HealthFact>,
    category: HealthFactCategory,
    key: &str,
    value: HealthFactValue,
    elapsed_ms: u128,
)
    ensures
        fact_views(final(facts)@) == fact_views(old(facts)@).push(
            derived(category, key@, value@, elapsed_ms),
        ),
{
    facts.push(
        HealthFact {
            category,
            key: key.to_owned(),
            value,
            source: HealthFactSource::Derived,
            elapsed_ms,
        },
    );
    assert(fact_views(facts@) =~~= fact_views(old(facts)@).push(
        derived(category, key@, value@, elapsed_ms),
    ));
}

/// How bad something is.
#[derive(Clone, Copy, Debug, PartialEq, Eq, Structural)]
pub enum HealthSeverity {
    Healthy,
    Unavailable,
    Warning,
    Critical,
}

impl HealthSeverity {
    /// The worse, the higher.
    pub open spec fn rank(self) -> int {
        match self {
            HealthSeverity::Healthy => 0,
            HealthSeverity::Unavailable => 1,
            HealthSeverity::Warning => 2,
            HealthSeverity::Critical => 3,
        }
    }

    /// The worse, the higher.
    pub fn precedence(self) -> (res: u8)
        ensures
            res == self.rank(),
    {
        match self {
            HealthSeverity::Healthy => 0,
            HealthSeverity::Unavailable => 1,
            HealthSeverity::Warning => 2,
            HealthSeverity::Critical => 3,
        }
    }

    /// The name of each severity.
    pub open spec fn name(self) -> Seq<char> {
        match self {
            HealthSeverity::Healthy => "ok"@,
            HealthSeverity::Unavailable => "unavailable"@,
            HealthSeverity::Warning => "warning"@,
            HealthSeverity::Critical => "critical"@,
        }
    }

    /// The name of the severity.
    pub fn label(self) -> (res: &'static str)
        ensures
            res@ == self.name(),
    {
        match self {
            HealthSeverity::Healthy => "ok",
            HealthSeverity::Unavailable => "unavailable",
            HealthSeverity::Warning => "warning",
            HealthSeverity::Critical => "critical",
        }
    }
}

/// What kind of finding it is.
#[derive(Clone, Copy, Debug, PartialEq, Eq, Structural)]
pub enum HealthFindingCategory {
    Observation,
    Anomaly,
    RootCause,
}

/// Something that needs attention.
#[derive(Clone, Debug)]
pub struct HealthFinding {
    pub id: String,
    pub severity: HealthSeverity,
    pub category: HealthFindingCategory,
    pub title_id: MessageId,
    pub detail_id: Option<MessageId>,
    /// What the messages are filled with, by name.
    pub detail_args: Vec<(String, String)>,
    pub evidence_fact_ids: Vec<String>,
}

/// What a [`HealthFinding`] says.
#[verifier::ext_equal]
pub struct FindingView {
    pub id: Seq<char>,
    pub severity: HealthSeverity,
    pub category: HealthFindingCategory,
    pub title_id: MessageId,
    pub detail_id: Option<MessageId>,
    pub detail_args: Seq<(Seq<char>, Seq<char>)>,
    pub evidence_fact_ids: Seq<Seq<char>>,
}

/// The views of a list of named texts.
pub open spec fn named_texts(v: Seq<(String, String)>) -> Seq<(Seq<char>, Seq<char>)> {
    Seq::new(v.len(), |i: int| (v[i].0@, v[i].1@))
}

impl View for HealthFinding {
    type V = FindingView;

    open spec fn view(&self) -> FindingView {
        FindingView {
            id: self.id@,
            severity: self.severity,
            category: self.category,
            title_id: self.title_id,
            detail_id: self.detail_id,
            detail_args: named_texts(self.detail_args@),
            evidence_fact_ids: texts(self.evidence_fact_ids@),
        }
    }
}

/// The views of a list of findings.
pub open spec fn finding_views(v: Seq<HealthFinding>) -> Seq<FindingView> {
    Seq::new(v.len(), |i: int| v[i]@)
}

/// The first value of a name.
pub open spec fn value_of(args: Seq<(Seq<char>, Seq<char>)>, name: Seq<char>) -> Option<Seq<char>>
    decreases args.len(),
{
    if args.len() == 0 {
        None
    } else if args[0].0 == name {
        Some(args[0].1)
    } else {
        value_of(args.skip(1), name)
    }
}

impl HealthFinding {
    /// What the messages are filled with under a name.
    pub fn arg(&self, name: &str) -> (res: Option<&String>)
        ensures
            match res {
                Some(v) => value_of(self@.detail_args, name@) == Some(v@),
                None => value_of(self@.detail_args, name@) is None,
            },
    {
        let ghost all = self@.detail_args;
        let mut i: usize = 0;
        assert(all.skip(0) =~= all);
        while i < self.detail_args.len()
            invariant
                i <= self.detail_args@.len(),
                all == named_texts(self.detail_args@),
                value_of(all.skip(i as int), name@) == value_of(all, name@),
            decreases self.detail_args@.len() - i,
        {
            proof {
                let rest = all.skip(i as int);
                assert(rest[0] == all[i as int]);
                assert(rest.skip(1) =~= all.skip(i + 1));
            }
            if same(self.detail_args[i].0.as_str(), name) {
                return Some(&self.detail_args[i].1);
            }
            i = i + 1;
        }
        None
    }
}

/// A finding of the environment: a warning with its remedy.
pub open spec fn env_warning(
    id: Seq<char>,
    title_id: MessageId,
    detail_id: MessageId,
    detail_args: Seq<(Seq<char>, Seq<char>)>,
    evidence_fact_ids: Seq<Seq<char>>,
) -> FindingView {
    FindingView {
        id,
        severity: HealthSeverity::Warning,
        category: HealthFindingCategory::Observation,
        title_id,
        detail_id: Some(detail_id),
        detail_args,
        evidence_fact_ids,
    }
}

/// A finding of the environment.
pub fn env_finding(
    id: String,
    title_id: MessageId,
    detail_id: MessageId,
    detail_args: Vec<(String, String)>,
    evidence_fact_ids: Vec<String>,
) -> (res: HealthFinding)
    ensures
        res@ == env_warning(
            id@,
            title_id,
            detail_id,
            named_texts(detail_args@),
            texts(evidence_fact_ids@),
        ),
{
    HealthFinding {
        id,
        severity: HealthSeverity::Warning,
        category: HealthFindingCategory::Observation,
        title_id,
        detail_id: Some(detail_id),
        detail_args,
        evidence_fact_ids,
    }
}

/// Adds a finding.
pub fn push_finding(findings: &mut Vec<HealthFinding>, finding: HealthFinding)
    ensures
        finding_views(final(findings)@) == finding_views(old(findings)@).push(finding@),
{
    findings.push(finding);
    assert(finding_views(findings@) =~= finding_views(old(findings)@).push(finding@));
}

/// One text.
pub fn one_text(text: &str) -> (res: Vec<String>)
    ensures
        texts(res@) == seq![text@],
{
    let mut out: Vec<String> = Vec::new();
    out.push(text.to_owned());
    assert(texts(out@) =~= seq![text@]);
    out
}

/// One named text.
pub fn one_arg(name: &str, value: &str) -> (res: Vec<(String, String)>)
    ensures
        named_texts(res@) == seq![(name@, value@)],
{
    let mut out: Vec<(String, String)> = Vec::new();
    push_arg(&mut out, name, value);
    assert(named_texts(out@) =~= seq![(name@, value@)]);
    out
}

/// Adds a named text.
pub fn push_arg(args: &mut Vec<(String, String)>, name: &str, value: &str)
    ensures
        named_texts(final(args)@) == named_texts(old(args)@).push((name@, value@)),
{
    args.push((name.to_owned(), value.to_owned()));
    assert(named_texts(args@) =~= named_texts(old(args)@).push((name@, value@)));
}

/// The collectors.
#[derive(Clone, Copy, Debug, PartialEq, Eq, Structural)]
pub enum HealthCollector {
    Host,
    Cpu,
    Memory,
    Disk,
    KernelSignal,
    ConfiguredService,
    Provider,
    Config,
    Hooks,
    Pty,
    Permissions,
    Runtime,
    Logs,
}

/// Why a collector could not run.
#[derive(Clone, Copy, Debug, PartialEq, Eq, Structural)]
pub enum HealthUnavailableReason {
    PermissionDenied,
    CommandMissing,
    Timeout,
    Unsupported,
    ParseError,
}

/// A collector that could not run.
#[derive(Clone, Copy, Debug, PartialEq, Eq, Structural)]
pub struct UnavailableCollector {
    pub collector: HealthCollector,
    pub reason: HealthUnavailableReason,
    pub severity: HealthSeverity,
}

/// A report.
#[derive(Clone, Debug)]
pub struct HealthScanReport {
    pub facts: Vec<HealthFact>,
    pub checks_done: Vec<String>,
    pub findings: Vec<HealthFinding>,
    pub unavailable: Vec<UnavailableCollector>,
}

/// What a [`HealthScanReport`] says.
#[verifier::ext_equal]
pub struct HealthView {
    pub facts: Seq<FactView>,
    pub checks_done: Seq<Seq<char>>,
    pub findings: Seq<FindingView>,
    pub unavailable: Seq<UnavailableCollector>,
}

impl View for HealthScanReport {
    type V = HealthView;

    open spec fn view(&self) -> HealthView {
        HealthView {
            facts: fact_views(self.facts@),
            checks_done: texts(self.checks_done@),
            findings: finding_views(self.findings@),
            unavailable: self.unavailable@,
        }
    }
}

impl HealthView {
    /// The report after a check brought facts and findings.
    pub open spec fn recorded(
        self,
        facts: Seq<FactView>,
        check: Seq<char>,
        findings: Seq<FindingView>,
    ) -> HealthView {
        HealthView {
            facts: self.facts + facts,
            checks_done: self.checks_done.push(check),
            findings: self.findings + findings,
            ..self
        }
    }
}

/// The worse of two severities.
pub open spec fn worse(a: HealthSeverity, b: HealthSeverity) -> HealthSeverity {
    if b.rank() > a.rank() {
        b
    } else {
        a
    }
}

/// The worst severity of findings.
pub open spec fn worst_finding(findings: Seq<FindingView>) -> HealthSeverity
    decreases findings.len(),
{
    if findings.len() == 0 {
        HealthSeverity::Healthy
    } else {
        worse(worst_finding(findings.drop_last()), findings.last().severity)
    }
}

/// The worst severity of collectors that could not run.
pub open spec fn worst_unavailable(items: Seq<UnavailableCollector>) -> HealthSeverity
    decreases items.len(),
{
    if items.len() == 0 {
        HealthSeverity::Healthy
    } else {
        worse(worst_unavailable(items.drop_last()), items.last().severity)
    }
}

fn pick_worse(a: HealthSeverity, b: HealthSeverity) -> (res: HealthSeverity)
    ensures
        res == worse(a, b),
{
    if b.precedence() > a.precedence() {
        b
    } else {
        a
    }
}

impl HealthScanReport {
    /// A report without anything.
    pub fn new() -> (res: HealthScanReport)
        ensures
            res@ == (HealthView {
                facts: Seq::empty(),
                checks_done: Seq::empty(),
                findings: Seq::empty(),
                unavailable: Seq::empty(),
            }),
    {
        let res = HealthScanReport {
            facts: Vec::new(),
            checks_done: Vec::new(),
            findings: Vec::new(),
            unavailable: Vec::new(),
        };
        assert(res@ =~~= (HealthView {
            facts: Seq::empty(),
            checks_done: Seq::empty(),
            findings: Seq::empty(),
            unavailable: Seq::empty(),
        }));
        res
    }

    /// Records what a check brought.
    pub fn record(&mut self, facts: Vec<HealthFact>, check: &str, findings: Vec<HealthFinding>)
        ensures
            final(self)@ == old(self)@.recorded(
                fact_views(facts@),
                check@,
                finding_views(findings@),
            ),
    {
        let ghost new_facts = fact_views(facts@);
        let ghost new_findings = finding_views(findings@);
        let mut facts = facts;
        let mut findings = findings;
        self.facts.append(&mut facts);
        self.findings.append(&mut findings);
        self.checks_done.push(check.to_owned());
        assert(self@.facts =~= old(self)@.facts + new_facts);
        assert(self@.findings =~= old(self)@.findings + new_findings);
        assert(self@.checks_done =~= old(self)@.checks_done.push(check@));
        assert(self@ =~~= old(self)@.recorded(new_facts, check@, new_findings));
    }

    /// The worst severity in the report.
    pub fn overall_severity(&self) -> (res: HealthSeverity)
        ensures
            res == worse(
                worst_finding(self@.findings),
                worst_unavailable(self@.unavailable),
            ),
    {
        let ghost all = self@.findings;
        let mut worst: HealthSeverity = HealthSeverity::Healthy;
        let mut i: usize = 0;
        assert(all.take(0) =~= Seq::empty());
        while i < self.findings.len()
            invariant
                i <= self.findings@.len(),
                all == finding_views(self.findings@),
                worst == worst_finding(all.take(i as int)),
            decreases self.findings@.len() - i,
        {
            proof {
                assert(all.take(i + 1).drop_last() =~= all.take(i as int));
                assert(all.take(i + 1).last() == self.findings@[i as int]@);
            }
            worst = pick_worse(worst, self.findings[i].severity);
            i = i + 1;
        }
        assert(all.take(all.len() as int) =~= all);
        let ghost items = self@.unavailable;
        let mut missing: HealthSeverity = HealthSeverity::Healthy;
        let mut j: usize = 0;
        assert(items.take(0) =~= Seq::empty());
        while j < self.unavailable.len()
            invariant
                j <= self.unavailable@.len(),
                items == self.unavailable@,
                missing == worst_unavailable(items.take(j as int)),
            decreases self.unavailable@.len() - j,
        {
            proof {
                assert(items.take(j + 1).drop_last() =~= items.take(j as int));
            }
            missing = pick_worse(missing, self.unavailable[j].severity);
            j = j + 1;
        }
        assert(items.take(items.len() as int) =~= items);
        pick_worse(worst, missing)
    }
}

/// No finding of a report is worse than what the report says overall.
pub proof fn overall_covers_every_finding(findings: Seq<FindingView>, i: int)
    requires
        0 <= i < findings.len(),
    ensures
        findings[i].severity.rank() <= worst_finding(findings).rank(),
    decreases findings.len(),
{
    if i < findings.len() - 1 {
        overall_covers_every_finding(findings.drop_last(), i);
    }
}

} // verus!
