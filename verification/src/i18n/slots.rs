//! What the texts of the catalogs leave to be filled in.

use vstd::prelude::*;

use crate::i18n::{placeholder, MessageId};

verus! {

/// Whether `part` stands at position `i` of `text`.
pub open spec fn stands_at(text: Seq<char>, part: Seq<char>, i: int) -> bool {
    &&& 0 <= i
    &&& i + part.len() <= text.len()
    &&& text.subrange(i, i + part.len()) == part
}

/// Whether there is no brace in `text` from `from` up to `to`.
pub open spec fn no_brace(text: Seq<char>, from: int, to: int) -> bool {
    forall|i: int| from <= i < to ==> text[i] != '{' && #[trigger] text[i] != '}'
}

/// Whether `template` has a placeholder of this name.
pub open spec fn asks_for(template: Seq<char>, name: Seq<char>) -> bool {
    &&& no_brace(name, 0, name.len() as int)
    &&& exists|i: int| #[trigger] stands_at(template, placeholder(name), i)
}

/// The names that stand between braces in `text` from position `i` on; `open` is
/// where the name that is under way at `i` begins.
pub open spec fn named_from(text: Seq<char>, i: int, open: Option<int>) -> Set<Seq<char>>
    decreases text.len() - i,
{
    if i < 0 || i >= text.len() {
        Set::empty()
    } else if text[i] == '{' {
        named_from(text, i + 1, Some(i + 1))
    } else if text[i] == '}' {
        let rest = named_from(text, i + 1, None);
        match open {
            Some(start) => rest.insert(text.subrange(start, i)),
            None => rest,
        }
    } else {
        named_from(text, i + 1, open)
    }
}

/// Whether `name` stands in `text` from `start` up to a closing brace at `end`.
spec fn closed(text: Seq<char>, start: int, end: int, name: Seq<char>) -> bool {
    &&& 0 <= start <= end < text.len()
    &&& text[end] == '}'
    &&& no_brace(text, start, end)
    &&& name == text.subrange(start, end)
}

/// Whether an opening brace at `i` begins the placeholder of this name.
spec fn opens(text: Seq<char>, i: int, name: Seq<char>) -> bool {
    &&& 0 <= i < text.len()
    &&& text[i] == '{'
    &&& exists|end: int| #[trigger] closed(text, i + 1, end, name)
}

/// Whether `name` is closed at or after `i` or opened there.
spec fn named_after(text: Seq<char>, i: int, open: Option<int>, name: Seq<char>) -> bool {
    ||| open matches Some(start) && exists|end: int|
        i <= end && #[trigger] closed(text, start, end, name)
    ||| exists|k: int| i <= k && #[trigger] opens(text, k, name)
}

proof fn lemma_named_from(text: Seq<char>, i: int, open: Option<int>, name: Seq<char>)
    requires
        0 <= i,
        open matches Some(start) ==> 0 <= start <= i && no_brace(text, start, i),
    ensures
        named_from(text, i, open).contains(name) <==> named_after(text, i, open, name),
    decreases text.len() - i,
{
    if i < text.len() {
        if text[i] == '{' {
            lemma_named_from(text, i + 1, Some(i + 1), name);
            if opens(text, i, name) {
                let end = choose|end: int| #[trigger] closed(text, i + 1, end, name);
                assert(i + 1 <= end && closed(text, i + 1, end, name));
            }
            if exists|end: int| i + 1 <= end && #[trigger] closed(text, i + 1, end, name) {
                assert(opens(text, i, name));
            }
        } else if text[i] == '}' {
            lemma_named_from(text, i + 1, None, name);
            if let Some(start) = open {
                if name == text.subrange(start, i) {
                    assert(closed(text, start, i, name));
                }
            }
        } else {
            lemma_named_from(text, i + 1, open, name);
        }
    }
}

/// A template asks for the names that stand between its braces.
pub(crate) proof fn lemma_asks_for(template: Seq<char>, name: Seq<char>)
    ensures
        asks_for(template, name) <==> named_from(template, 0, None).contains(name),
{
    lemma_named_from(template, 0, None, name);
    let part = placeholder(name);
    let n = name.len() as int;
    if asks_for(template, name) {
        let i = choose|i: int| #[trigger] stands_at(template, part, i);
        assert forall|k: int| 0 <= k < n + 2 implies template[i + k] == #[trigger] part[k] by {
            assert(template.subrange(i, i + part.len())[k] == part[k]);
        }
        assert(part[0] == '{' && part[n + 1] == '}');
        assert forall|k: int| i + 1 <= k < i + 1 + n implies template[k] != '{'
            && #[trigger] template[k] != '}' by {
            assert(part[k - i] == name[k - i - 1]);
        }
        assert(name =~= template.subrange(i + 1, i + 1 + n)) by {
            assert forall|k: int| 0 <= k < n implies name[k] == template[i + 1 + k] by {
                assert(part[k + 1] == name[k]);
            }
        }
        assert(closed(template, i + 1, i + 1 + n, name));
        assert(opens(template, i, name));
    }
    if exists|k: int| 0 <= k && #[trigger] opens(template, k, name) {
        let i = choose|k: int| 0 <= k && #[trigger] opens(template, k, name);
        let end = choose|end: int| #[trigger] closed(template, i + 1, end, name);
        assert(template.subrange(i, i + part.len()) =~= part);
        assert(stands_at(template, part, i));
        assert forall|k: int| 0 <= k < n implies name[k] != '{' && #[trigger] name[k] != '}' by {
            assert(name[k] == template[i + 1 + k]);
        }
    }
}

/// Where no brace follows, no name does.
pub(crate) proof fn lemma_rest(text: Seq<char>, from: int)
    requires
        0 <= from <= text.len(),
        no_brace(text, from, text.len() as int),
    ensures
        named_from(text, from, None) == Set::<Seq<char>>::empty(),
    decreases text.len() - from,
{
    if from < text.len() {
        lemma_rest(text, from + 1);
    }
}

proof fn lemma_skip(text: Seq<char>, from: int, to: int, open: Option<int>)
    requires
        0 <= from <= to <= text.len(),
        no_brace(text, from, to),
    ensures
        named_from(text, from, open) == named_from(text, to, open),
    decreases to - from,
{
    if from < to {
        lemma_skip(text, from + 1, to, open);
    }
}

/// The first placeholder after `from` opens at `at` and holds `name`.
pub(crate) proof fn lemma_slot(text: Seq<char>, from: int, at: int, name: Seq<char>)
    requires
        0 <= from <= at,
        at + 1 + name.len() < text.len(),
        no_brace(text, from, at),
        text[at] == '{',
        text[at + 1 + name.len()] == '}',
        no_brace(name, 0, name.len() as int),
        forall|i: int| 0 <= i < name.len() ==> #[trigger] name[i] == text[at + 1 + i],
    ensures
        named_from(text, from, None) == named_from(text, at + 2 + name.len(), None).insert(name),
{
    let end = at + 1 + name.len();
    assert forall|i: int| at + 1 <= i < end implies text[i] != '{' && #[trigger] text[i] != '}' by {
        assert(name[i - at - 1] == text[i]);
    }
    lemma_skip(text, from, at, None);
    lemma_skip(text, at + 1, end, Some(at + 1));
    assert(text.subrange(at + 1, end) =~= name);
}

/// The names of the placeholders of each message.
pub open spec fn slots(id: MessageId) -> Set<Seq<char>> {
    match id {
        MessageId::HealthBannerMoreFindingsLabel => set!["count"@],
        MessageId::HealthMetricLoadValue => set!["load"@, "cores"@, "ratio"@],
        MessageId::HealthMetricDiskMountUsed => set!["mount"@],
        MessageId::HealthEvidenceDiskAvailable => set!["gib"@],
        MessageId::HealthEvidenceMount => set!["mount"@],
        MessageId::HealthEvidenceOomKilledProcess => set!["process"@],
        MessageId::HealthEvidenceOomCgroup => set!["cgroup"@],
        MessageId::HealthEvidenceOomOneHourCount => set!["count"@],
        MessageId::HealthEvidenceOomTwentyFourHourCount => set!["count"@],
        MessageId::HealthEvidenceOomVictimKilledAgo => set!["subject"@, "age"@],
        MessageId::HealthEvidenceOomVictimKilled => set!["subject"@],
        MessageId::HealthEvidenceOomAge => set!["age"@],
        MessageId::HealthTryInspectProcessMemory => set!["process"@],
        MessageId::HealthPromptInspectProcessMemory => set!["process"@],
        MessageId::HealthInsightServiceState => set!["service"@, "observed"@, "expected"@],
        MessageId::HealthFindingOrphanCore => set!["pid"@],
        MessageId::HealthFindingStaleEntry => set!["kind"@, "pid"@, "time"@],
        MessageId::HealthFindingCrash => set!["kind"@, "time"@, "panic"@],
        MessageId::HealthFindingRecentErrors => set!["count"@, "file"@, "time"@],
        MessageId::HealthFindingWarnFlood => set!["count"@, "file"@],
        MessageId::HealthRemediationProvider => set!["adapter"@],
        MessageId::HealthRemediationUnknownAdapter => set!["adapter"@],
        MessageId::HealthRemediationHooks => set!["path"@],
        MessageId::HealthRemediationPermissions => set!["path"@],
        MessageId::HealthRemediationOrphanCore => set!["pid"@],
        MessageId::HealthLiveCoreNoResponse => set!["reason"@],
        MessageId::HealthLiveRecovery => set!["state"@],
        MessageId::HealthLiveRoutingFacts => set!["ai"@, "assistance"@, "integration"@, "generation"@],
        MessageId::HealthLiveCnfHandler => set!["ownership"@],
        MessageId::HealthLiveLastRoute => set!["route"@],
        MessageId::HealthFindingRouteFallback => set!["reason"@],
        MessageId::HealthFindingCoreNoResponse => set!["reason"@],
        MessageId::HealthFindingRecoveryFailed => set!["state"@],
        MessageId::DoctorVersionLine => set!["shell_version"@, "core_version"@],
        MessageId::DoctorHostLine => set!["host"@],
        MessageId::DoctorRuntimeLine => set!["summary"@],
        MessageId::DoctorRoutingLine => set!["ai"@, "integration"@, "cnf"@, "route"@],
        MessageId::DoctorLogsLine => set!["level"@, "last"@, "errors"@],
        MessageId::DoctorCrashesLine => set!["count"@, "detail"@],
        MessageId::HealthFindingWorkspaceConfinementUnsupported => set!["required"@],
        MessageId::HealthRemediationWorkspaceConfinement => set!["kernel"@, "required"@],
        _ => set![],
    }
}

} // verus!
