//! A failure while a fresh login is brought up must not lock the user out.

use vstd::prelude::*;

use crate::shell_host::effects::{every_source_counts, LoginEffectGuard, LoginEffects, LoginEffectSource};
use crate::text::same;

verus! {

/// What failed.
#[derive(Clone, Copy, Debug, PartialEq, Eq, Structural)]
pub enum FailOpenFailure {
    InvalidIntegration,
    RelayPanic,
    RelayError,
}

/// Which logins may fall back to a native shell: real ones on a terminal, while
/// no login effect may have started.
pub open spec fn falls_open(eligible: bool, effects: LoginEffects) -> bool {
    eligible && effects.bits == 0
}

/// Whether a login may fall back, by what is marked.
pub fn may_fall_open_with(eligible: bool, effects: LoginEffects, failure: FailOpenFailure) -> (res: bool)
    ensures
        res == falls_open(eligible, effects),
{
    match failure {
        FailOpenFailure::InvalidIntegration | FailOpenFailure::RelayPanic
        | FailOpenFailure::RelayError => eligible && !effects.any(),
    }
}

/// Decides whether a failed login falls back to a native shell.
pub struct FreshLoginFailOpen {
    eligible: bool,
    effects: LoginEffectGuard,
}

impl FreshLoginFailOpen {
    /// Whether the login is one that may fall back at all.
    pub closed spec fn may(&self) -> bool {
        self.eligible
    }

    /// The guard that is asked.
    pub closed spec fn guard(&self) -> LoginEffectGuard {
        self.effects
    }

    /// Only a login on terminals that is not isolated may fall back.
    pub fn new(login: bool, all_tty: bool, isolated: bool, effects: LoginEffectGuard) -> (res: Self)
        ensures
            res.may() == (login && all_tty && !isolated),
            res.guard() == effects,
    {
        FreshLoginFailOpen { eligible: login && all_tty && !isolated, effects }
    }

    /// Whether the login may fall back right now. Other owners of the guard may
    /// mark it at any time.
    pub fn may_fall_open(&self, failure: FailOpenFailure) -> (res: bool)
        ensures
            res ==> self.may(),
    {
        may_fall_open_with(self.eligible, self.effects.read(), failure)
    }
}

/// Once a source is marked, no login falls back.
pub proof fn marked_logins_stay_closed(
    eligible: bool,
    effects: LoginEffects,
    source: LoginEffectSource,
)
    ensures
        !falls_open(eligible, effects.with(source)),
{
    every_source_counts(effects, source);
}

/// Why the native shell could not be executed.
#[derive(Clone, Copy, Debug, PartialEq, Eq, Structural)]
pub enum ExecFailure {
    NotFound,
    PermissionDenied,
    Other,
}

/// The exit code when the native shell could not be executed.
pub open spec fn exit_code_of(failure: ExecFailure) -> i32 {
    if failure is NotFound {
        127
    } else {
        126
    }
}

/// The exit code when the native shell could not be executed.
pub fn exec_exit_code(failure: ExecFailure) -> (res: i32)
    ensures
        res == exit_code_of(failure),
        res == (if failure is NotFound {
            127i32
        } else {
            126i32
        }),
{
    if failure == ExecFailure::NotFound {
        127
    } else {
        126
    }
}

/// The reason that is printed, `other` standing for what the system says.
pub fn exec_reason(failure: ExecFailure, other: String) -> (res: String)
    ensures
        res@ == (match failure {
            ExecFailure::NotFound => "No such file or directory"@,
            ExecFailure::PermissionDenied => "Permission denied"@,
            ExecFailure::Other => other@,
        }),
{
    match failure {
        ExecFailure::NotFound => "No such file or directory".to_owned(),
        ExecFailure::PermissionDenied => "Permission denied".to_owned(),
        ExecFailure::Other => other,
    }
}

/// Whether a fault is forced at a phase.
pub open spec fn forced(setting: Option<Seq<char>>, phase: Seq<char>, started: bool) -> bool {
    match setting {
        Some(s) => s == phase && ((phase == "pre-spawn"@ && !started) || (phase == "post-spawn"@
            && started)),
        None => false,
    }
}

/// Whether a fault is forced at a phase: before the managed shell runs or after,
/// as asked for.
pub fn forces_panic(setting: Option<&str>, phase: &str, managed_shell_started: bool) -> (res: bool)
    ensures
        res == forced(
            match setting {
                Some(s) => Some(s@),
                None => None,
            },
            phase@,
            managed_shell_started,
        ),
        res == (match setting {
            Some(s) => (s@ == "pre-spawn"@ && phase@ == "pre-spawn"@ && !managed_shell_started) || (s@
                == "post-spawn"@ && phase@ == "post-spawn"@ && managed_shell_started),
            None => false,
        }),
{
    match setting {
        Some(s) => (same(s, "pre-spawn") && same(phase, "pre-spawn") && !managed_shell_started) || (
        same(s, "post-spawn") && same(phase, "post-spawn") && managed_shell_started),
        None => false,
    }
}

} // verus!
