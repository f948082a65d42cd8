//! Which Bash is launched with a login identity, and whether it can be.

use vstd::prelude::*;
use vstd::string::*;

use crate::login_shell::path::{component_count, has_directory, join_path, path_in};
use crate::shell_host::effects::{marking_adds_one_source, LoginEffectSource, LoginEffects};
use crate::text::{copy_texts, pieces, same, split, texts};

verus! {

/// How long the probe of one Bash may take, in milliseconds.
pub const R2_BASH_PROBE_TIMEOUT: u64 = 2_000;

/// What a Bash reports that kept its login identity and left POSIX mode.
pub const R2_BASH_PROBE_SENTINEL: &'static str = "__COSH_R2_LOGIN_ENV_OK__";

/// The script that a probed Bash runs. It ends by replacing the process, so no
/// logout hook runs.
pub open spec fn inject_script() -> Seq<char> {
    "set +o posix\nif shopt -q login_shell && [[ ! -o posix ]]; then printf '\\n__COSH_PATH_BEGIN__"@
        + R2_BASH_PROBE_SENTINEL@ + "__COSH_PATH_END__\\n'; fi\nexec /bin/sh -c :\n"@
}

/// The script that a probed Bash runs.
pub fn capability_inject_script() -> (res: String)
    ensures
        res@ == inject_script(),
{
    "set +o posix\nif shopt -q login_shell && [[ ! -o posix ]]; then printf '\\n__COSH_PATH_BEGIN__".to_owned().concat(
        R2_BASH_PROBE_SENTINEL,
    ).concat("__COSH_PATH_END__\\n'; fi\nexec /bin/sh -c :\n")
}

/// How the probe of one Bash ended.
#[derive(Clone, Debug)]
pub enum ProbeResult {
    /// It was never started.
    NotSpawned,
    /// It may have run, but did not get through.
    Failed,
    /// It reported this.
    Marker(String),
}

/// Whether a login-capable probe may have started its target.
#[derive(Clone, Copy, Debug, PartialEq, Eq, Structural)]
pub enum ProbeStartOutcome {
    ProvenNotStarted,
    MayHaveStarted,
}

/// Only a probe that was never spawned is known not to have started anything.
pub open spec fn start_outcome(result: ProbeResult) -> ProbeStartOutcome {
    if result is NotSpawned {
        ProbeStartOutcome::ProvenNotStarted
    } else {
        ProbeStartOutcome::MayHaveStarted
    }
}

/// The source that a probe may have started, if it may have started one.
pub open spec fn mark_of(source: LoginEffectSource, result: ProbeResult) -> Option<LoginEffectSource> {
    if result is NotSpawned {
        None
    } else {
        Some(source)
    }
}

/// The effects with what a probe may have started.
pub open spec fn effects_after(
    effects: LoginEffects,
    source: LoginEffectSource,
    result: ProbeResult,
) -> LoginEffects {
    match mark_of(source, result) {
        Some(marked) => effects.with(marked),
        None => effects,
    }
}

/// The source that a probe may have started, if it may have started one.
pub fn probe_mark(source: LoginEffectSource, result: &ProbeResult) -> (res: Option<LoginEffectSource>)
    ensures
        res == mark_of(source, *result),
{
    if matches!(result, ProbeResult::NotSpawned) {
        None
    } else {
        Some(source)
    }
}

/// Marks the source of a probe unless the probe is known not to have started.
pub fn record_probe_outcome(
    effects: &mut LoginEffects,
    source: LoginEffectSource,
    result: &ProbeResult,
) -> (res: ProbeStartOutcome)
    ensures
        *final(effects) == effects_after(*old(effects), source, *result),
        res == start_outcome(*result),
{
    match probe_mark(source, result) {
        None => ProbeStartOutcome::ProvenNotStarted,
        Some(marked) => {
            effects.mark(marked);
            ProbeStartOutcome::MayHaveStarted
        },
    }
}

/// The files that may be the program: the program itself if it names a
/// directory, else that name in each directory of the search path.
pub open spec fn candidates_for(program: Seq<char>, path: Option<Seq<char>>) -> Seq<Seq<char>> {
    if component_count(program) > 1 {
        seq![program]
    } else {
        match path {
            Some(p) => Seq::new(
                pieces(p, ':').len(),
                |i: int| path_in(pieces(p, ':')[i], program),
            ),
            None => Seq::empty(),
        }
    }
}

/// The files that may be the program.
pub fn bash_candidates(program: &str, path: Option<&str>) -> (res: Vec<String>)
    ensures
        texts(res@) == candidates_for(
            program@,
            match path {
                Some(p) => Some(p@),
                None => None,
            },
        ),
{
    let mut out: Vec<String> = Vec::new();
    if has_directory(program) {
        out.push(program.to_owned());
        assert(texts(out@) =~= seq![program@]);
        return out;
    }
    match path {
        None => {
            assert(texts(out@) =~= Seq::empty());
        },
        Some(p) => {
            let directories = split(p, ':');
            let ghost all = texts(directories@);
            let mut i: usize = 0;
            while i < directories.len()
                invariant
                    i <= directories@.len(),
                    all == texts(directories@),
                    out@.len() == i,
                    forall|j: int|
                        0 <= j < i ==> (#[trigger] out@[j])@ == path_in(all[j], program@),
                decreases directories@.len() - i,
            {
                assert(all[i as int] == directories@[i as int]@);
                out.push(join_path(directories[i].as_str(), program));
                i = i + 1;
            }
            assert(texts(out@) =~= Seq::new(all.len(), |i: int| path_in(all[i], program@)));
        },
    }
    out
}

/// What the search waits for.
#[derive(Clone, Copy, Debug, PartialEq, Eq, Structural)]
pub enum SearchPhase {
    /// Whether the candidate is an executable file.
    Inspecting,
    /// How the probe of the candidate ended.
    Probing,
    /// Nothing.
    Finished,
}

/// What the search asks for.
#[derive(Clone, Debug)]
pub enum SearchStep {
    /// Look whether this is an executable file.
    Inspect(String),
    /// Probe this candidate.
    Probe(String),
    /// This candidate is the one to launch; says whether it takes a login
    /// identity.
    Found(String, bool),
    /// No candidate could be started.
    NotFound,
}

/// What a [`SearchStep`] says.
#[verifier::ext_equal]
pub enum SearchStepView {
    Inspect(Seq<char>),
    Probe(Seq<char>),
    Found(Seq<char>, bool),
    NotFound,
}

impl View for SearchStep {
    type V = SearchStepView;

    open spec fn view(&self) -> SearchStepView {
        match self {
            SearchStep::Inspect(c) => SearchStepView::Inspect(c@),
            SearchStep::Probe(c) => SearchStepView::Probe(c@),
            SearchStep::Found(c, ok) => SearchStepView::Found(c@, *ok),
            SearchStep::NotFound => SearchStepView::NotFound,
        }
    }
}

/// The search for the Bash that will be launched.
pub struct BashSearch {
    candidates: Vec<String>,
    at: usize,
    phase: SearchPhase,
    effects: LoginEffects,
}

/// What a [`BashSearch`] holds.
#[verifier::ext_equal]
pub struct SearchView {
    pub candidates: Seq<Seq<char>>,
    pub at: int,
    pub phase: SearchPhase,
    /// What the probes may have started.
    pub effects: LoginEffects,
}

impl View for BashSearch {
    type V = SearchView;

    closed spec fn view(&self) -> SearchView {
        SearchView {
            candidates: texts(self.candidates@),
            at: self.at as int,
            phase: self.phase,
            effects: self.effects,
        }
    }
}

impl SearchView {
    /// A search that goes on stands at a candidate.
    pub open spec fn wf(self) -> bool {
        self.phase != SearchPhase::Finished ==> 0 <= self.at < self.candidates.len()
    }
}

/// The search at a candidate, or at its end.
pub open spec fn search_at(candidates: Seq<Seq<char>>, at: int, effects: LoginEffects) -> (
    SearchView,
    SearchStepView,
) {
    if 0 <= at < candidates.len() {
        (
            SearchView { candidates, at, phase: SearchPhase::Inspecting, effects },
            SearchStepView::Inspect(candidates[at]),
        )
    } else {
        (
            SearchView { candidates, at, phase: SearchPhase::Finished, effects },
            SearchStepView::NotFound,
        )
    }
}

/// The search after a candidate was looked at.
pub open spec fn search_inspected(s: SearchView, executable: bool) -> (SearchView, SearchStepView) {
    if executable {
        (
            SearchView { phase: SearchPhase::Probing, ..s },
            SearchStepView::Probe(s.candidates[s.at]),
        )
    } else {
        search_at(s.candidates, s.at + 1, s.effects)
    }
}

/// The search after a candidate was probed. A candidate that may have run is
/// the one, whatever it said, and is marked.
pub open spec fn search_probed(s: SearchView, result: ProbeResult) -> (SearchView, SearchStepView) {
    let effects = effects_after(s.effects, LoginEffectSource::R2CapabilityProbe, result);
    match result {
        ProbeResult::NotSpawned => search_at(s.candidates, s.at + 1, effects),
        ProbeResult::Failed => (
            SearchView { phase: SearchPhase::Finished, effects, ..s },
            SearchStepView::Found(s.candidates[s.at], false),
        ),
        ProbeResult::Marker(m) => (
            SearchView { phase: SearchPhase::Finished, effects, ..s },
            SearchStepView::Found(s.candidates[s.at], m@ == R2_BASH_PROBE_SENTINEL@),
        ),
    }
}

impl BashSearch {
    /// Starts the search, with nothing marked.
    pub fn begin(candidates: &Vec<String>) -> (res: (BashSearch, SearchStep))
        ensures
            (res.0@, res.1@) == search_at(texts(candidates@), 0, LoginEffects { bits: 0 }),
            res.0@.wf(),
    {
        let mut search = BashSearch {
            candidates: copy_texts(candidates),
            at: 0,
            phase: SearchPhase::Inspecting,
            effects: LoginEffects::none(),
        };
        let step = search.here();
        (search, step)
    }

    /// What the probes so far may have started.
    pub fn effects(&self) -> (res: LoginEffects)
        ensures
            res == self@.effects,
    {
        self.effects
    }

    fn here(&mut self) -> (res: SearchStep)
        ensures
            (final(self)@, res@) == search_at(old(self)@.candidates, old(self)@.at, old(self)@.effects),
            final(self)@.wf(),
    {
        assert(self.candidates@.len() == texts(self.candidates@).len());
        if self.at < self.candidates.len() {
            self.phase = SearchPhase::Inspecting;
            assert(texts(self.candidates@)[self.at as int] == self.candidates@[self.at as int]@);
            assert(self@ =~= search_at(old(self)@.candidates, old(self)@.at, old(self)@.effects).0);
            SearchStep::Inspect(self.candidates[self.at].clone())
        } else {
            self.phase = SearchPhase::Finished;
            assert(self@ =~= search_at(old(self)@.candidates, old(self)@.at, old(self)@.effects).0);
            SearchStep::NotFound
        }
    }

    fn advance(&mut self) -> (res: SearchStep)
        requires
            old(self)@.phase != SearchPhase::Finished,
            old(self)@.wf(),
        ensures
            (final(self)@, res@) == search_at(
                old(self)@.candidates,
                old(self)@.at + 1,
                old(self)@.effects,
            ),
            final(self)@.wf(),
    {
        assert(self.candidates@.len() == texts(self.candidates@).len());
        assert(self.at < self.candidates.len());
        self.at = self.at + 1;
        self.here()
    }

    fn candidate(&self) -> (res: String)
        requires
            self@.phase != SearchPhase::Finished,
            self@.wf(),
        ensures
            res@ == self@.candidates[self@.at],
    {
        assert(self.candidates@.len() == texts(self.candidates@).len());
        self.candidates[self.at].clone()
    }

    /// Goes on after a candidate was looked at.
    pub fn on_inspected(&mut self, executable: bool) -> (res: SearchStep)
        requires
            old(self)@.wf(),
            old(self)@.phase == SearchPhase::Inspecting,
        ensures
            (final(self)@, res@) == search_inspected(old(self)@, executable),
            final(self)@.wf(),
    {
        if executable {
            self.phase = SearchPhase::Probing;
            SearchStep::Probe(self.candidate())
        } else {
            self.advance()
        }
    }

    /// Goes on after a candidate was probed, and marks what may have started.
    pub fn on_probed(&mut self, result: &ProbeResult) -> (res: SearchStep)
        requires
            old(self)@.wf(),
            old(self)@.phase == SearchPhase::Probing,
        ensures
            (final(self)@, res@) == search_probed(old(self)@, *result),
            final(self)@.wf(),
    {
        let outcome = record_probe_outcome(
            &mut self.effects,
            LoginEffectSource::R2CapabilityProbe,
            result,
        );
        if outcome == ProbeStartOutcome::ProvenNotStarted {
            return self.advance();
        }
        let candidate = self.candidate();
        let supported: bool = match result {
            ProbeResult::Marker(m) => same(m.as_str(), R2_BASH_PROBE_SENTINEL),
            _ => false,
        };
        self.phase = SearchPhase::Finished;
        SearchStep::Found(candidate, supported)
    }
}

/// A candidate that may have run is launched, and no later one is probed: the
/// search is over.
pub proof fn started_candidates_are_frozen(s: SearchView, result: ProbeResult)
    requires
        s.wf(),
        s.phase == SearchPhase::Probing,
        start_outcome(result) == ProbeStartOutcome::MayHaveStarted,
    ensures
        search_probed(s, result).0.phase == SearchPhase::Finished,
        search_probed(s, result).1 is Found,
        search_probed(s, result).1->Found_0 == s.candidates[s.at],
{
}

/// A search that goes on has marked nothing, and one that is over has marked the
/// probe exactly if it found a candidate.
pub open spec fn marks_agree(s: SearchView, step: SearchStepView) -> bool {
    if step is Found {
        s.effects == (LoginEffects { bits: 0 }).with(LoginEffectSource::R2CapabilityProbe)
    } else {
        s.effects.bits == 0
    }
}

/// The probe is marked exactly if the search finds a candidate: this holds of its
/// first step and is kept by each further one.
pub proof fn found_candidates_are_marked(
    candidates: Seq<Seq<char>>,
    s: SearchView,
    step: SearchStepView,
    executable: bool,
    result: ProbeResult,
)
    requires
        !(step is Found),
        marks_agree(s, step),
    ensures
        ({
            let (first, asked) = search_at(candidates, 0, LoginEffects { bits: 0 });
            marks_agree(first, asked)
        }),
        marks_agree(search_inspected(s, executable).0, search_inspected(s, executable).1),
        marks_agree(search_probed(s, result).0, search_probed(s, result).1),
{
}

/// A probe marks its own source and no other, and takes no mark away; a probe
/// that was never spawned marks nothing.
pub proof fn probes_mark_their_source(
    effects: LoginEffects,
    source: LoginEffectSource,
    other: LoginEffectSource,
    result: ProbeResult,
)
    ensures
        effects_after(effects, source, result).marks(other) == (effects.marks(other) || (other
            == source && start_outcome(result) == ProbeStartOutcome::MayHaveStarted)),
{
    marking_adds_one_source(effects, source, other);
}

/// A login identity is only ever given to a Bash that reported the sentinel.
pub proof fn only_the_sentinel_proves_support(s: SearchView, result: ProbeResult)
    requires
        search_probed(s, result).1 matches SearchStepView::Found(_, true),
    ensures
        result is Marker,
        result->Marker_0@ == R2_BASH_PROBE_SENTINEL@,
{
}

/// `BASH_FUNC_`, with which the variables of exported functions start.
pub open spec fn function_prefix() -> Seq<u8> {
    seq![66u8, 65u8, 83u8, 72u8, 95u8, 70u8, 85u8, 78u8, 67u8, 95u8]
}

/// A letter or an underscore.
pub open spec fn starts_identifier(b: u8) -> bool {
    65 <= b <= 90 || 97 <= b <= 122 || b == 95
}

/// A letter, a digit or an underscore.
pub open spec fn continues_identifier(b: u8) -> bool {
    starts_identifier(b) || 48 <= b <= 57
}

/// A shell identifier.
pub open spec fn is_identifier(name: Seq<u8>) -> bool {
    &&& name.len() > 0
    &&& starts_identifier(name[0])
    &&& forall|i: int| 1 <= i < name.len() ==> continues_identifier(#[trigger] name[i])
}

/// The variable of an exported function: `BASH_FUNC_` in front, `%%` behind.
pub open spec fn is_function_key(key: Seq<u8>) -> bool {
    &&& key.len() >= 12
    &&& key.take(10) == function_prefix()
    &&& key[key.len() - 2] == 37
    &&& key[key.len() - 1] == 37
}

/// Whether Bash in POSIX mode takes a variable over: exported functions need a
/// shell identifier for a name.
pub open spec fn compatible_key(key: Seq<u8>) -> bool {
    is_function_key(key) ==> is_identifier(key.subrange(10, key.len() - 2))
}

/// Whether Bash in POSIX mode takes a variable over.
pub fn bash_function_env_key_posix_compatible(key: &[u8]) -> (res: bool)
    ensures
        res == compatible_key(key@),
{
    let n: usize = key.len();
    if n < 12 {
        return true;
    }
    let prefixed: bool = key[0] == 66 && key[1] == 65 && key[2] == 83 && key[3] == 72 && key[4]
        == 95 && key[5] == 70 && key[6] == 85 && key[7] == 78 && key[8] == 67 && key[9] == 95;
    proof {
        let p = key@.take(10);
        let f = function_prefix();
        assert(prefixed == (p == f)) by {
            if p == f {
                assert(p[0] == f[0] && p[1] == f[1] && p[2] == f[2] && p[3] == f[3] && p[4] == f[4]
                    && p[5] == f[5] && p[6] == f[6] && p[7] == f[7] && p[8] == f[8] && p[9] == f[9]);
            }
            if prefixed {
                assert(p =~= f);
            }
        }
    }
    if !prefixed || key[n - 2] != 37 || key[n - 1] != 37 {
        return true;
    }
    let ghost name = key@.subrange(10, n - 2);
    if n == 12 {
        return false;
    }
    let first: u8 = key[10];
    assert(name[0] == first);
    if !((65 <= first && first <= 90) || (97 <= first && first <= 122) || first == 95) {
        return false;
    }
    let mut i: usize = 11;
    while i < n - 2
        invariant
            n == key@.len(),
            11 <= i <= n - 2,
            name == key@.subrange(10, n - 2),
            is_function_key(key@),
            forall|j: int| 1 <= j < i - 10 ==> continues_identifier(#[trigger] name[j]),
        decreases n - i,
    {
        let b: u8 = key[i];
        assert(name[i - 10] == b);
        if !((65 <= b && b <= 90) || (97 <= b && b <= 122) || b == 95 || (48 <= b && b <= 57)) {
            return false;
        }
        i = i + 1;
    }
    true
}

/// Whether Bash in POSIX mode takes all these variables over.
pub fn exported_bash_functions_posix_compatible(keys: &Vec<Vec<u8>>) -> (res: bool)
    ensures
        res == (forall|i: int| 0 <= i < keys@.len() ==> compatible_key((#[trigger] keys@[i])@)),
{
    let mut i: usize = 0;
    while i < keys.len()
        invariant
            i <= keys@.len(),
            forall|j: int| 0 <= j < i ==> compatible_key((#[trigger] keys@[j])@),
        decreases keys@.len() - i,
    {
        if !bash_function_env_key_posix_compatible(keys[i].as_slice()) {
            return false;
        }
        i = i + 1;
    }
    true
}

} // verus!
