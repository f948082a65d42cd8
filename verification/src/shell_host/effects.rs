//! Whether login effects may already have started during shell setup.

use std::sync::atomic::{AtomicU8, Ordering};
use std::sync::Arc;

use vstd::prelude::*;

verus! {

/// What may start login effects.
#[derive(Clone, Copy, Debug, PartialEq, Eq, Structural)]
pub enum LoginEffectSource {
    PathBootstrapProbe,
    R2CapabilityProbe,
    ManagedShell,
}

impl LoginEffectSource {
    /// The bit of each source.
    pub open spec fn bit(self) -> u8 {
        match self {
            LoginEffectSource::PathBootstrapProbe => 1,
            LoginEffectSource::R2CapabilityProbe => 2,
            LoginEffectSource::ManagedShell => 4,
        }
    }

    /// The bit of the source.
    pub fn mask(self) -> (res: u8)
        ensures
            res == self.bit(),
    {
        match self {
            LoginEffectSource::PathBootstrapProbe => 1,
            LoginEffectSource::R2CapabilityProbe => 2,
            LoginEffectSource::ManagedShell => 4,
        }
    }
}

/// The marked sources, one bit for each.
#[derive(Clone, Copy, Debug, PartialEq, Eq, Structural)]
pub struct LoginEffects {
    pub bits: u8,
}

impl LoginEffects {
    /// Whether a source is marked.
    pub open spec fn marks(self, source: LoginEffectSource) -> bool {
        self.bits & source.bit() != 0
    }

    /// The effects with one more source marked.
    pub open spec fn with(self, source: LoginEffectSource) -> LoginEffects {
        LoginEffects { bits: self.bits | source.bit() }
    }

    /// Nothing is marked.
    pub fn none() -> (res: LoginEffects)
        ensures
            res.bits == 0,
            forall|s: LoginEffectSource| !(#[trigger] res.marks(s)),
    {
        proof {
            unmarked_effects_mark_nothing();
        }
        LoginEffects { bits: 0 }
    }

    /// Marks a source.
    pub fn mark(&mut self, source: LoginEffectSource)
        ensures
            *final(self) == old(self).with(source),
    {
        self.bits = self.bits | source.mask();
    }

    /// Whether anything is marked.
    pub fn any(self) -> (res: bool)
        ensures
            res == (self.bits != 0),
    {
        self.bits != 0
    }

    /// Whether a source is marked.
    pub fn has(self, source: LoginEffectSource) -> (res: bool)
        ensures
            res == self.marks(source),
    {
        self.bits & source.mask() != 0
    }
}

/// With no bit set, no source is marked.
pub proof fn unmarked_effects_mark_nothing()
    ensures
        forall|s: LoginEffectSource| !(#[trigger] (LoginEffects { bits: 0 }).marks(s)),
{
    assert(0u8 & 1 == 0 && 0u8 & 2 == 0 && 0u8 & 4 == 0) by (bit_vector);
}

/// Marking a source marks that source and no other, and takes no mark away.
pub proof fn marking_adds_one_source(
    effects: LoginEffects,
    source: LoginEffectSource,
    other: LoginEffectSource,
)
    ensures
        effects.with(source).marks(other) == (other == source || effects.marks(other)),
{
    let b = effects.bits;
    assert((b | 1) & 1 != 0) by (bit_vector);
    assert((b | 2) & 2 != 0) by (bit_vector);
    assert((b | 4) & 4 != 0) by (bit_vector);
    assert((b | 1) & 2 == b & 2) by (bit_vector);
    assert((b | 1) & 4 == b & 4) by (bit_vector);
    assert((b | 2) & 1 == b & 1) by (bit_vector);
    assert((b | 2) & 4 == b & 4) by (bit_vector);
    assert((b | 4) & 1 == b & 1) by (bit_vector);
    assert((b | 4) & 2 == b & 2) by (bit_vector);
}

/// Whichever source is marked, something is marked from then on.
pub proof fn every_source_counts(effects: LoginEffects, source: LoginEffectSource)
    ensures
        effects.with(source).bits != 0,
{
    let b = effects.bits;
    assert(b | 1 != 0 && b | 2 != 0 && b | 4 != 0) by (bit_vector);
}

/// The order of marks does not matter, and marking twice is marking once.
pub proof fn marks_commute(effects: LoginEffects, a: LoginEffectSource, b: LoginEffectSource)
    ensures
        effects.with(a).with(b) == effects.with(b).with(a),
        effects.with(a).with(a) == effects.with(a),
{
    let e = effects.bits;
    let x = a.bit();
    let y = b.bit();
    assert((e | x) | y == (e | y) | x && (e | x) | x == e | x) by (bit_vector);
}

/// The effects after an attempt to spawn the managed shell: only a shell that runs
/// can have started any.
pub open spec fn after_spawn(effects: LoginEffects, spawned: bool) -> LoginEffects {
    if spawned {
        effects.with(LoginEffectSource::ManagedShell)
    } else {
        effects
    }
}

/// Records an attempt to spawn the managed shell.
pub fn shell_spawned(effects: &mut LoginEffects, spawned: bool)
    ensures
        *final(effects) == after_spawn(*old(effects), spawned),
{
    if spawned {
        effects.mark(LoginEffectSource::ManagedShell);
    }
}

/// A spawn that fails marks nothing, and one that succeeds marks the managed shell
/// and no other source.
pub proof fn only_a_spawned_shell_is_marked(
    effects: LoginEffects,
    spawned: bool,
    source: LoginEffectSource,
)
    ensures
        after_spawn(effects, spawned).marks(source) == (effects.marks(source) || (spawned && source
            == LoginEffectSource::ManagedShell)),
        !spawned ==> after_spawn(effects, spawned) == effects,
{
    marking_adds_one_source(effects, LoginEffectSource::ManagedShell, source);
}

/// Login effects that several owners share. Any owner may mark a source at any
/// time, so a method promises nothing of what the others have marked; what a
/// reading means is decided by [`LoginEffects`].
#[derive(Clone, Debug)]
pub struct LoginEffectGuard {
    bits: Arc<AtomicU8>,
}

impl LoginEffectGuard {
    /// A guard of its own, with nothing marked.
    pub fn new() -> (res: LoginEffectGuard) {
        LoginEffectGuard { bits: Arc::new(AtomicU8::new(0)) }
    }

    /// Another owner of the same guard.
    pub fn share(&self) -> (res: LoginEffectGuard)
        ensures
            res == *self,
    {
        LoginEffectGuard { bits: self.bits.clone() }
    }

    /// Marks a source for all owners.
    pub fn mark_possible(&self, source: LoginEffectSource) {
        let _ = self.bits.fetch_or(source.mask(), Ordering::Relaxed);
    }

    /// What is marked right now.
    pub fn read(&self) -> (res: LoginEffects) {
        LoginEffects { bits: self.bits.load(Ordering::Relaxed) }
    }

    /// Whether anything is marked right now.
    pub fn may_have_started(&self) -> (res: bool) {
        self.read().any()
    }

    /// Whether a source is marked right now.
    pub fn has(&self, source: LoginEffectSource) -> (res: bool) {
        self.read().has(source)
    }
}

} // verus!
