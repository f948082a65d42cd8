//! The registry of running processes: one entry per process, left behind when
//! the process ends abnormally.

use vstd::prelude::*;
use vstd::string::*;

use crate::text::{decimal, decimal_text, opt_view, parse_unsigned, unsigned_in};
use crate::tree::{
    json_null, json_object, json_put, json_render, json_text, json_u64, put_text, Tree,
};

verus! {

/// How old an entry of a dead process gets before it is removed, in
/// milliseconds.
pub const STALE_ENTRY_MAX_AGE: u128 = 604_800_000;

/// What a shell knows of its routing.
#[derive(Clone, Debug)]
pub struct RoutingFacts {
    pub ai_enabled: bool,
    pub integration: String,
    pub assistance_enabled: Option<bool>,
    pub marker_generation: Option<u64>,
    pub cnf_handler: Option<String>,
    pub last_route: Option<String>,
}

/// What [`RoutingFacts`] say.
#[verifier::ext_equal]
pub struct RoutingView {
    pub ai_enabled: bool,
    pub integration: Seq<char>,
    pub assistance_enabled: Option<bool>,
    pub marker_generation: Option<u64>,
    pub cnf_handler: Option<Seq<char>>,
    pub last_route: Option<Seq<char>>,
}

impl View for RoutingFacts {
    type V = RoutingView;

    open spec fn view(&self) -> RoutingView {
        RoutingView {
            ai_enabled: self.ai_enabled,
            integration: self.integration@,
            assistance_enabled: self.assistance_enabled,
            marker_generation: self.marker_generation,
            cnf_handler: opt_view(self.cnf_handler),
            last_route: opt_view(self.last_route),
        }
    }
}

/// Nothing is known of routing.
pub open spec fn no_routing() -> RoutingView {
    RoutingView {
        ai_enabled: false,
        integration: Seq::empty(),
        assistance_enabled: None,
        marker_generation: None,
        cnf_handler: None,
        last_route: None,
    }
}

impl RoutingFacts {
    /// Nothing is known of routing.
    pub fn unknown() -> (res: RoutingFacts)
        ensures
            res@ == no_routing(),
    {
        let res = RoutingFacts {
            ai_enabled: false,
            integration: String::new(),
            assistance_enabled: None,
            marker_generation: None,
            cnf_handler: None,
            last_route: None,
        };
        assert(res@ =~~= no_routing());
        res
    }
}

/// The entry of one process. What only a shell or only a core has is missing on
/// the other.
#[derive(Clone, Debug)]
pub struct RunEntry {
    pub kind: String,
    pub pid: u32,
    pub ppid: Option<u32>,
    pub version: String,
    pub start_ts_ms: u128,
    pub shell_kind: Option<String>,
    pub mode: Option<String>,
    pub session_id: Option<String>,
    pub core_pid: Option<u32>,
    pub owner_shell_pid: Option<u32>,
    pub routing: Option<RoutingFacts>,
}

/// What a [`RunEntry`] says.
#[verifier::ext_equal]
pub struct EntryView {
    pub kind: Seq<char>,
    pub pid: u32,
    pub ppid: Option<u32>,
    pub version: Seq<char>,
    pub start_ts_ms: u128,
    pub shell_kind: Option<Seq<char>>,
    pub mode: Option<Seq<char>>,
    pub session_id: Option<Seq<char>>,
    pub core_pid: Option<u32>,
    pub owner_shell_pid: Option<u32>,
    pub routing: Option<RoutingView>,
}

impl View for RunEntry {
    type V = EntryView;

    open spec fn view(&self) -> EntryView {
        EntryView {
            kind: self.kind@,
            pid: self.pid,
            ppid: self.ppid,
            version: self.version@,
            start_ts_ms: self.start_ts_ms,
            shell_kind: opt_view(self.shell_kind),
            mode: opt_view(self.mode),
            session_id: opt_view(self.session_id),
            core_pid: self.core_pid,
            owner_shell_pid: self.owner_shell_pid,
            routing: match self.routing {
                Some(r) => Some(r@),
                None => None,
            },
        }
    }
}

/// The file of an entry.
pub fn entry_name(kind: &str, pid: u32) -> (res: String)
    ensures
        res@ == kind@ + "-"@ + decimal(pid as nat) + ".json"@,
{
    let number = decimal_text(pid as u128);
    kind.to_owned().concat("-").concat(number.as_str()).concat(".json")
}

/// What a session is recorded with.
pub struct SessionFacts {
    pub pid: u32,
    pub ppid: u32,
    pub version: String,
    pub start_ts_ms: u128,
    pub shell_kind: String,
    pub session_id: String,
    pub ai_enabled: bool,
    pub integration: String,
    pub assistance_enabled: bool,
}

/// The entry of a session.
pub open spec fn session_entry(facts: SessionFacts) -> EntryView {
    EntryView {
        kind: "shell"@,
        pid: facts.pid,
        ppid: Some(facts.ppid),
        version: facts.version@,
        start_ts_ms: facts.start_ts_ms,
        shell_kind: Some(facts.shell_kind@),
        mode: None,
        session_id: Some(facts.session_id@),
        core_pid: None,
        owner_shell_pid: None,
        routing: Some(
            RoutingView {
                ai_enabled: facts.ai_enabled,
                integration: facts.integration@,
                assistance_enabled: Some(facts.assistance_enabled),
                ..no_routing()
            },
        ),
    }
}

/// The shell's own entry, while there is one.
pub struct ShellRegistry {
    current: Option<RunEntry>,
}

impl View for ShellRegistry {
    type V = Option<EntryView>;

    closed spec fn view(&self) -> Option<EntryView> {
        match self.current {
            Some(entry) => Some(entry@),
            None => None,
        }
    }
}

/// An entry with its routing changed: unknown routing starts out empty.
pub open spec fn rerouted(
    entry: EntryView,
    assistance: Option<bool>,
    generation: Option<u64>,
) -> EntryView {
    let routing = match entry.routing {
        Some(r) => r,
        None => no_routing(),
    };
    EntryView {
        routing: Some(
            RoutingView {
                assistance_enabled: if assistance is Some {
                    assistance
                } else {
                    routing.assistance_enabled
                },
                marker_generation: if generation is Some {
                    generation
                } else {
                    routing.marker_generation
                },
                ..routing
            },
        ),
        ..entry
    }
}

impl ShellRegistry {
    /// Without an entry.
    pub fn new() -> (res: ShellRegistry)
        ensures
            res@ is None,
    {
        ShellRegistry { current: None }
    }

    /// The entry to be written.
    pub fn entry(&self) -> (res: Option<&RunEntry>)
        ensures
            match res {
                Some(e) => self@ == Some(e@),
                None => self@ is None,
            },
    {
        match &self.current {
            Some(entry) => Some(entry),
            None => None,
        }
    }

    /// Records the session.
    pub fn record_shell(&mut self, facts: SessionFacts)
        ensures
            final(self)@ == Some(session_entry(facts)),
    {
        let mut routing = RoutingFacts::unknown();
        routing.ai_enabled = facts.ai_enabled;
        routing.integration = facts.integration;
        routing.assistance_enabled = Some(facts.assistance_enabled);
        let entry = RunEntry {
            kind: "shell".to_owned(),
            pid: facts.pid,
            ppid: Some(facts.ppid),
            version: facts.version,
            start_ts_ms: facts.start_ts_ms,
            shell_kind: Some(facts.shell_kind),
            mode: None,
            session_id: Some(facts.session_id),
            core_pid: None,
            owner_shell_pid: None,
            routing: Some(routing),
        };
        assert(entry@ =~~= session_entry(facts));
        self.current = Some(entry);
    }

    /// Records the core that the shell works with. Says whether the entry has
    /// to be written again.
    pub fn update_core_pid(&mut self, core_pid: u32) -> (res: bool)
        ensures
            match old(self)@ {
                Some(entry) => final(self)@ == Some(
                    EntryView { core_pid: Some(core_pid), ..entry },
                ) && res == (entry.core_pid != Some(core_pid)),
                None => final(self)@ is None && !res,
            },
    {
        match self.current.take() {
            Some(entry) => {
                let mut entry = entry;
                let ghost before = entry@;
                let known: bool = match entry.core_pid {
                    Some(pid) => pid == core_pid,
                    None => false,
                };
                entry.core_pid = Some(core_pid);
                assert(entry@ =~~= (EntryView { core_pid: Some(core_pid), ..before }));
                self.current = Some(entry);
                !known
            },
            None => false,
        }
    }

    fn update_routing(&mut self, assistance: Option<bool>, generation: Option<u64>) -> (res: bool)
        ensures
            match old(self)@ {
                Some(entry) => final(self)@ == Some(rerouted(entry, assistance, generation)) && res,
                None => final(self)@ is None && !res,
            },
    {
        match self.current.take() {
            Some(entry) => {
                let mut entry = entry;
                let ghost before = entry@;
                let mut routing = match entry.routing.take() {
                    Some(r) => r,
                    None => RoutingFacts::unknown(),
                };
                if assistance.is_some() {
                    routing.assistance_enabled = assistance;
                }
                if generation.is_some() {
                    routing.marker_generation = generation;
                }
                entry.routing = Some(routing);
                assert(entry@ =~~= rerouted(before, assistance, generation));
                self.current = Some(entry);
                true
            },
            None => false,
        }
    }

    /// Records whether input is assisted. Says whether the entry has to be
    /// written again.
    pub fn update_assistance(&mut self, enabled: bool) -> (res: bool)
        ensures
            match old(self)@ {
                Some(entry) => final(self)@ == Some(rerouted(entry, Some(enabled), None)) && res,
                None => final(self)@ is None && !res,
            },
    {
        self.update_routing(Some(enabled), None)
    }

    /// Records the latest generation of markers. Says whether the entry has to
    /// be written again.
    pub fn update_marker_generation(&mut self, generation: u64) -> (res: bool)
        ensures
            match old(self)@ {
                Some(entry) => final(self)@ == Some(rerouted(entry, None, Some(generation)))
                    && res,
                None => final(self)@ is None && !res,
            },
    {
        self.update_routing(None, Some(generation))
    }

    /// Gives the entry up. Says which file is to be removed.
    pub fn remove_shell(&mut self) -> (res: Option<String>)
        ensures
            final(self)@ is None,
            match old(self)@ {
                Some(entry) => res is Some && res->0@ == entry.kind + "-"@ + decimal(
                    entry.pid as nat,
                ) + ".json"@,
                None => res is None,
            },
    {
        match self.current.take() {
            Some(entry) => Some(entry_name(entry.kind.as_str(), entry.pid)),
            None => None,
        }
    }
}

/// Whether the entry of a process that started at `start` is removed.
pub open spec fn reaped(start: u128, alive: bool, now: u128) -> bool {
    !alive && now - start > STALE_ENTRY_MAX_AGE
}

/// Whether an entry is removed when a session starts: only that of a dead
/// process, once it is old.
pub fn is_reaped(entry: &RunEntry, alive: bool, now: u128) -> (res: bool)
    ensures
        res == reaped(entry.start_ts_ms, alive, now),
        res == (!alive && now - entry.start_ts_ms > STALE_ENTRY_MAX_AGE),
{
    !alive && now >= entry.start_ts_ms && now - entry.start_ts_ms > STALE_ENTRY_MAX_AGE
}

/// The entry of a core as a document. The shell that owns it hands its number
/// over as a text.
pub open spec fn core_document(
    pid: u32,
    version: Seq<char>,
    start_ts_ms: u64,
    mode: Seq<char>,
    session_id: Seq<char>,
    owner: Option<Seq<char>>,
) -> Tree {
    Tree::Object(
        Map::empty().insert("kind"@, Tree::Text("core"@)).insert("pid"@, Tree::Int(pid as int)).insert(
            "version"@,
            Tree::Text(version),
        ).insert("start_ts_ms"@, Tree::Int(start_ts_ms as int)).insert("mode"@, Tree::Text(mode)).insert(
            "session_id"@,
            Tree::Text(session_id),
        ).insert(
            "owner_shell_pid"@,
            match owner {
                Some(text) => match unsigned_in(text, u32::MAX as int) {
                    Some(n) => Tree::Int(n),
                    None => Tree::Null,
                },
                None => Tree::Null,
            },
        ),
    )
}

/// The entry of a core as a line.
pub fn core_entry(
    pid: u32,
    version: &str,
    start_ts_ms: u64,
    mode: &str,
    session_id: &str,
    owner: &Option<String>,
) -> (res: String)
    ensures
        res@ == json_text(
            core_document(pid, version@, start_ts_ms, mode@, session_id@, opt_view(*owner)),
        ),
{
    let mut out = json_object();
    put_text(&mut out, "kind", "core");
    json_put(&mut out, "pid", json_u64(pid as u64));
    put_text(&mut out, "version", version);
    json_put(&mut out, "start_ts_ms", json_u64(start_ts_ms));
    put_text(&mut out, "mode", mode);
    put_text(&mut out, "session_id", session_id);
    let number: Option<u64> = match owner {
        Some(text) => parse_unsigned(text.as_str(), 4_294_967_295),
        None => None,
    };
    let value = match number {
        Some(n) => json_u64(n),
        None => json_null(),
    };
    json_put(&mut out, "owner_shell_pid", value);
    json_render(&out)
}

/// What a session does to its entry never touches who it is: number, kind,
/// session and start stay.
pub proof fn updates_keep_the_identity(
    entry: EntryView,
    assistance: Option<bool>,
    generation: Option<u64>,
)
    ensures
        rerouted(entry, assistance, generation).pid == entry.pid,
        rerouted(entry, assistance, generation).kind == entry.kind,
        rerouted(entry, assistance, generation).session_id == entry.session_id,
        rerouted(entry, assistance, generation).start_ts_ms == entry.start_ts_ms,
        rerouted(entry, assistance, generation).core_pid == entry.core_pid,
{
}

} // verus!
