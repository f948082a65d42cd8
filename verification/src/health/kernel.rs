//! Whether the kernel can confine a workspace.
//!
//! The workspace of a session is pinned with `openat2`, which older kernels do
//! not have. Only a release that can be read as a version is ever reported as
//! too old.

use vstd::prelude::*;

use crate::health::model::{
    derived, fact_views, push_arg, push_fact, FactValueView, FactView,
    FindingView, HealthFact, HealthFactCategory, HealthFactSource, HealthFactValue,
    HealthFinding, HealthFindingCategory, HealthScanReport, HealthSeverity, HealthView,
};
use crate::i18n::MessageId;
use crate::text::{
    chars_of, is_digit, parse_unsigned, pieces, same, split, text_of, texts, trim, trimmed,
    unsigned_in,
};

verus! {

/// The first release with `openat2`, as it is shown.
pub const OPENAT2_MINIMUM_KERNEL_LABEL: &'static str = "5.6";

/// Where the release is read.
pub const KERNEL_RELEASE_PATH: &'static str = "/proc/sys/kernel/osrelease";

/// How many digits a text starts with.
pub open spec fn digit_run(s: Seq<char>) -> int
    decreases s.len(),
{
    if s.len() > 0 && is_digit(s[0]) {
        1 + digit_run(s.skip(1))
    } else {
        0
    }
}

proof fn lemma_digit_run(s: Seq<char>, n: int)
    requires
        0 <= n <= s.len(),
        forall|i: int| 0 <= i < n ==> is_digit(#[trigger] s[i]),
        n < s.len() ==> !is_digit(s[n]),
    ensures
        digit_run(s) == n,
    decreases s.len(),
{
    if n > 0 {
        assert(is_digit(s[0]));
        let rest = s.skip(1);
        assert forall|i: int| 0 <= i < n - 1 implies is_digit(#[trigger] rest[i]) by {
            assert(rest[i] == s[i + 1]);
        }
        lemma_digit_run(rest, n - 1);
    }
}

/// The number that a text starts with.
pub open spec fn leading_number(s: Seq<char>) -> Option<int> {
    unsigned_in(s.take(digit_run(s)), u64::MAX as int)
}

fn leading_digits(field: &str) -> (res: Option<u64>)
    ensures
        match res {
            Some(n) => leading_number(field@) == Some(n as int),
            None => leading_number(field@) is None,
        },
{
    let chars = chars_of(field);
    let mut n: usize = 0;
    while n < chars.len() && '0' <= chars[n] && chars[n] <= '9'
        invariant
            n <= chars@.len(),
            chars@ == field@,
            forall|i: int| 0 <= i < n ==> is_digit(#[trigger] field@[i]),
        decreases chars@.len() - n,
    {
        n = n + 1;
    }
    proof {
        lemma_digit_run(field@, n as int);
    }
    let digits = text_of(&chars, 0, n);
    assert(digits@ =~= field@.take(n as int));
    parse_unsigned(digits.as_str(), u64::MAX)
}

/// The major and minor version of a release. A missing minor version is zero.
pub open spec fn version_of(release: Seq<char>) -> Option<(int, int)> {
    let fields = pieces(trimmed(release), '.');
    match leading_number(fields[0]) {
        Some(major) => Some(
            (
                major,
                if fields.len() > 1 && leading_number(fields[1]) is Some {
                    leading_number(fields[1])->0
                } else {
                    0
                },
            ),
        ),
        None => None,
    }
}

/// The major and minor version of a release.
pub fn parse_kernel_version(release: &str) -> (res: Option<(u64, u64)>)
    ensures
        match res {
            Some(v) => version_of(release@) == Some((v.0 as int, v.1 as int)),
            None => version_of(release@) is None,
        },
{
    let text = trim(release);
    let fields = split(text.as_str(), '.');
    let ghost all = texts(fields@);
    assert(all.len() == fields@.len());
    assert(all.len() > 0);
    assert(all[0] == fields@[0]@);
    let major: u64 = match leading_digits(fields[0].as_str()) {
        Some(n) => n,
        None => {
            return None;
        },
    };
    let mut minor: u64 = 0;
    if fields.len() > 1 {
        assert(all[1] == fields@[1]@);
        if let Some(n) = leading_digits(fields[1].as_str()) {
            minor = n;
        }
    }
    Some((major, minor))
}

/// Whether a release has `openat2`; unknown if it is no version.
pub open spec fn supports(release: Seq<char>) -> Option<bool> {
    match version_of(release) {
        Some((major, minor)) => Some(major > 5 || (major == 5 && minor >= 6)),
        None => None,
    }
}

/// Whether a release has `openat2`.
pub fn kernel_supports_openat2(release: &str) -> (res: Option<bool>)
    ensures
        res == supports(release@),
{
    match parse_kernel_version(release) {
        Some((major, minor)) => Some(major > 5 || (major == 5 && minor >= 6)),
        None => None,
    }
}

/// The release in what was read, if there is one.
pub fn release_in(content: &str) -> (res: Option<String>)
    ensures
        match res {
            Some(r) => r@ == trimmed(content@) && r@.len() > 0,
            None => trimmed(content@).len() == 0,
        },
{
    let release = trim(content);
    if release.as_str().is_empty() {
        None
    } else {
        Some(release)
    }
}

/// The facts about a release. An unreadable one brings no support fact.
pub open spec fn release_facts(release: Seq<char>, elapsed_ms: u128) -> Seq<FactView> {
    seq![
        FactView {
            category: HealthFactCategory::Kernel,
            key: "kernel.release"@,
            value: FactValueView::Text(release),
            source: HealthFactSource::ProcSysKernel,
            elapsed_ms,
        },
    ] + (match supports(release) {
        Some(supported) => seq![
            derived(
                HealthFactCategory::Kernel,
                "kernel.openat2_supported"@,
                FactValueView::Bool(supported),
                elapsed_ms,
            ),
        ],
        None => Seq::empty(),
    })
}

/// Records the facts about a release.
pub fn record_release_facts(report: &mut HealthScanReport, release: &str, elapsed_ms: u128)
    ensures
        final(report)@ == (HealthView {
            facts: old(report)@.facts + release_facts(release@, elapsed_ms),
            ..old(report)@
        }),
{
    let ghost before = report@;
    report.facts.push(
        HealthFact {
            category: HealthFactCategory::Kernel,
            key: "kernel.release".to_owned(),
            value: HealthFactValue::Text(release.to_owned()),
            source: HealthFactSource::ProcSysKernel,
            elapsed_ms,
        },
    );
    let ghost first = FactView {
        category: HealthFactCategory::Kernel,
        key: "kernel.release"@,
        value: FactValueView::Text(release@),
        source: HealthFactSource::ProcSysKernel,
        elapsed_ms,
    };
    assert(report@.facts =~= before.facts.push(first));
    if let Some(supported) = kernel_supports_openat2(release) {
        push_fact(
            &mut report.facts,
            HealthFactCategory::Kernel,
            "kernel.openat2_supported",
            HealthFactValue::Bool(supported),
            elapsed_ms,
        );
    }
    assert(report@.facts =~= before.facts + release_facts(release@, elapsed_ms));
    assert(report@ =~~= (HealthView {
        facts: before.facts + release_facts(release@, elapsed_ms),
        ..before
    }));
}

/// The first fact of a key.
pub open spec fn fact_of(facts: Seq<FactView>, key: Seq<char>) -> Option<FactValueView>
    decreases facts.len(),
{
    if facts.len() == 0 {
        None
    } else if facts[0].key == key {
        Some(facts[0].value)
    } else {
        fact_of(facts.skip(1), key)
    }
}

fn find_fact<'a>(facts: &'a Vec<HealthFact>, key: &str) -> (res: Option<&'a HealthFactValue>)
    ensures
        match res {
            Some(v) => fact_of(fact_views(facts@), key@) == Some(v@),
            None => fact_of(fact_views(facts@), key@) is None,
        },
{
    let ghost all = fact_views(facts@);
    let mut i: usize = 0;
    assert(all.skip(0) =~= all);
    while i < facts.len()
        invariant
            i <= facts@.len(),
            all == fact_views(facts@),
            fact_of(all.skip(i as int), key@) == fact_of(all, key@),
        decreases facts@.len() - i,
    {
        proof {
            let rest = all.skip(i as int);
            assert(rest[0] == facts@[i as int]@);
            assert(rest.skip(1) =~= all.skip(i + 1));
        }
        if same(facts[i].key.as_str(), key) {
            return Some(&facts[i].value);
        }
        i = i + 1;
    }
    None
}

/// The finding that a kernel cannot confine a workspace.
pub open spec fn confinement_finding(release: Option<Seq<char>>) -> FindingView {
    FindingView {
        id: "J17"@,
        severity: HealthSeverity::Critical,
        category: HealthFindingCategory::Anomaly,
        title_id: MessageId::HealthFindingWorkspaceConfinementUnsupported,
        detail_id: Some(MessageId::HealthRemediationWorkspaceConfinement),
        detail_args: seq![
            (
                "kernel"@,
                match release {
                    Some(r) => r,
                    None => "unknown"@,
                },
            ),
            ("required"@, OPENAT2_MINIMUM_KERNEL_LABEL@),
        ],
        evidence_fact_ids: match release {
            Some(_) => seq!["kernel.openat2_supported"@, "kernel.release"@],
            None => seq!["kernel.openat2_supported"@],
        },
    }
}

/// The release among facts.
pub open spec fn release_fact(facts: Seq<FactView>) -> Option<Seq<char>> {
    match fact_of(facts, "kernel.release"@) {
        Some(FactValueView::Text(r)) => Some(r),
        _ => None,
    }
}

/// What the facts say of confinement: only a kernel that is known to be too old
/// is found at fault.
pub open spec fn confinement_findings(facts: Seq<FactView>) -> Seq<FindingView> {
    if fact_of(facts, "kernel.openat2_supported"@) == Some(FactValueView::Bool(false)) {
        seq![confinement_finding(release_fact(facts))]
    } else {
        Seq::empty()
    }
}

/// Judges the facts of a report.
pub fn apply_confinement_rule(report: &mut HealthScanReport)
    ensures
        final(report)@ == (HealthView {
            findings: old(report)@.findings + confinement_findings(old(report)@.facts),
            ..old(report)@
        }),
{
    let ghost before = report@;
    let too_old: bool = match find_fact(&report.facts, "kernel.openat2_supported") {
        Some(HealthFactValue::Bool(supported)) => !*supported,
        _ => false,
    };
    if !too_old {
        assert(report@ =~~= (HealthView {
            findings: before.findings + confinement_findings(before.facts),
            ..before
        }));
        return;
    }
    let release: Option<String> = match find_fact(&report.facts, "kernel.release") {
        Some(HealthFactValue::Text(r)) => Some(r.clone()),
        _ => None,
    };
    assert(crate::text::opt_view(release) == release_fact(before.facts));
    let mut args: Vec<(String, String)> = Vec::new();
    let mut evidence: Vec<String> = Vec::new();
    evidence.push("kernel.openat2_supported".to_owned());
    match &release {
        Some(r) => {
            push_arg(&mut args, "kernel", r.as_str());
            evidence.push("kernel.release".to_owned());
        },
        None => {
            push_arg(&mut args, "kernel", "unknown");
        },
    }
    push_arg(&mut args, "required", OPENAT2_MINIMUM_KERNEL_LABEL);
    let finding = HealthFinding {
        id: "J17".to_owned(),
        severity: HealthSeverity::Critical,
        category: HealthFindingCategory::Anomaly,
        title_id: MessageId::HealthFindingWorkspaceConfinementUnsupported,
        detail_id: Some(MessageId::HealthRemediationWorkspaceConfinement),
        detail_args: args,
        evidence_fact_ids: evidence,
    };
    assert(finding@ =~~= confinement_finding(release_fact(before.facts)));
    report.findings.push(finding);
    assert(report@.findings =~= before.findings + confinement_findings(before.facts));
    assert(report@ =~~= (HealthView {
        findings: before.findings + confinement_findings(before.facts),
        ..before
    }));
}

proof fn lemma_fact_after(facts: Seq<FactView>, more: Seq<FactView>, key: Seq<char>)
    requires
        fact_of(facts, key) is None,
    ensures
        fact_of(facts + more, key) == fact_of(more, key),
    decreases facts.len(),
{
    if facts.len() == 0 {
        assert(facts + more =~= more);
    } else {
        assert((facts + more)[0] == facts[0]);
        assert((facts + more).skip(1) =~= facts.skip(1) + more);
        lemma_fact_after(facts.skip(1), more, key);
    }
}

/// A release is found at fault if and only if it is a version before 5.6; what
/// cannot be read is never found at fault.
pub proof fn only_known_old_kernels_are_reported(
    facts: Seq<FactView>,
    release: Seq<char>,
    elapsed_ms: u128,
)
    requires
        fact_of(facts, "kernel.openat2_supported"@) is None,
    ensures
        confinement_findings(facts + release_facts(release, elapsed_ms)).len() > 0 <==> supports(
            release,
        ) == Some(false),
{
    let key = "kernel.openat2_supported"@;
    let more = release_facts(release, elapsed_ms);
    lemma_fact_after(facts, more, key);
    reveal_strlit("kernel.openat2_supported");
    reveal_strlit("kernel.release");
    assert("kernel.openat2_supported"@.len() == 24);
    assert("kernel.release"@.len() == 14);
    assert(more[0].key != key);
    let rest = more.skip(1);
    if supports(release) is Some {
        assert(rest.len() == 1);
        assert(rest[0] == more[1]);
        assert(fact_of(rest, key) == Some(rest[0].value));
    } else {
        assert(rest.len() == 0);
    }
}

} // verus!
