use vstd::prelude::*;

use crate::config::{configured, environment, environment_label, opt_str_view, ClientSettings};

verus! {

/// Where the process stands with its reporting client. The move out of
/// `Uninitialized` is made once, and both other phases are final.
#[derive(Clone, Copy, Debug, PartialEq, Eq, Structural)]
pub enum Phase {
    Uninitialized,
    Disabled,
    Enabled,
}

/// What the caller of [`InitState::initialize`] has to carry out.
#[derive(Debug)]
pub enum InitAction {
    /// Reporting has just been found unconfigured and is off for good: note
    /// it once, build nothing.
    Disable,
    /// Reporting is off: nothing to do.
    Nothing,
    /// Build the one client with these settings, then tag the scope with the
    /// source.
    Construct(ClientSettings),
    /// The client exists: only tag the scope with the source.
    Tag,
}

/// The phase that one initialization leaves behind.
pub open spec fn phase_after(phase: Phase, secret: Option<Seq<char>>) -> Phase {
    match phase {
        Phase::Uninitialized => if configured(secret) {
            Phase::Enabled
        } else {
            Phase::Disabled
        },
        _ => phase,
    }
}

/// Whether one initialization builds the client.
pub open spec fn constructs(phase: Phase, secret: Option<Seq<char>>) -> bool {
    phase == Phase::Uninitialized && configured(secret)
}

/// Whether one initialization tags the scope with its source.
pub open spec fn tags_scope(phase: Phase, secret: Option<Seq<char>>) -> bool {
    phase_after(phase, secret) == Phase::Enabled
}

/// The phase after a run of initializations, one for each read of the
/// secret variable.
pub open spec fn phase_after_all(phase: Phase, secrets: Seq<Option<Seq<char>>>) -> Phase
    decreases secrets.len(),
{
    if secrets.len() == 0 {
        phase
    } else {
        phase_after_all(phase_after(phase, secrets[0]), secrets.drop_first())
    }
}

/// How many clients a run of initializations builds.
pub open spec fn constructions(phase: Phase, secrets: Seq<Option<Seq<char>>>) -> nat
    decreases secrets.len(),
{
    if secrets.len() == 0 {
        0
    } else {
        (if constructs(phase, secrets[0]) {
            1nat
        } else {
            0nat
        }) + constructions(phase_after(phase, secrets[0]), secrets.drop_first())
    }
}

/// Once the phase is settled, further initializations build nothing and leave
/// the phase as it is.
pub proof fn lemma_settled_phase_is_final(phase: Phase, secrets: Seq<Option<Seq<char>>>)
    requires
        phase != Phase::Uninitialized,
    ensures
        constructions(phase, secrets) == 0,
        phase_after_all(phase, secrets) == phase,
    decreases secrets.len(),
{
    if secrets.len() > 0 {
        lemma_settled_phase_is_final(phase, secrets.drop_first());
    }
}

/// In a run where the secret variable is unset or empty at every read,
/// reporting ends disabled and no client is ever built.
pub proof fn lemma_unconfigured_run_builds_nothing(secrets: Seq<Option<Seq<char>>>)
    requires
        secrets.len() > 0,
        forall|i: int| 0 <= i < secrets.len() ==> !configured(#[trigger] secrets[i]),
    ensures
        constructions(Phase::Uninitialized, secrets) == 0,
        phase_after_all(Phase::Uninitialized, secrets) == Phase::Disabled,
{
    assert(!configured(secrets[0]));
    lemma_settled_phase_is_final(Phase::Disabled, secrets.drop_first());
}

/// In a run where the secret variable holds a non-empty string, however many
/// initializations there are, exactly one of them builds the client, and
/// reporting ends enabled.
pub proof fn lemma_configured_run_builds_once(secrets: Seq<Option<Seq<char>>>)
    requires
        secrets.len() > 0,
        forall|i: int| 0 <= i < secrets.len() ==> configured(#[trigger] secrets[i]),
    ensures
        constructions(Phase::Uninitialized, secrets) == 1,
        phase_after_all(Phase::Uninitialized, secrets) == Phase::Enabled,
{
    assert(configured(secrets[0]));
    lemma_settled_phase_is_final(Phase::Enabled, secrets.drop_first());
}

/// The process-wide, write-once initialization state. Whether reporting is
/// enabled and whether a client is to be built are settled in the same step.
#[derive(Debug)]
pub struct InitState {
    phase: Phase,
}

impl InitState {
    pub closed spec fn phase(&self) -> Phase {
        self.phase
    }

    /// A process that has not initialized reporting yet.
    pub fn new() -> (s: InitState)
        ensures
            s.phase() == Phase::Uninitialized,
    {
        InitState { phase: Phase::Uninitialized }
    }

    /// The current phase.
    pub fn current_phase(&self) -> (r: Phase)
        ensures
            r == self.phase(),
    {
        self.phase
    }

    /// Whether reporting is on.
    pub fn is_enabled(&self) -> (r: bool)
        ensures
            r == (self.phase() == Phase::Enabled),
    {
        match self.phase {
            Phase::Enabled => true,
            _ => false,
        }
    }

    /// One initialization, given what the secret variable held when it was
    /// read. Only the first call settles the phase; later calls leave it and
    /// ignore the secret they are given.
    pub fn initialize(&mut self, secret: Option<&str>, debug_build: bool) -> (a: InitAction)
        ensures
            final(self).phase() == phase_after(old(self).phase(), opt_str_view(secret)),
            constructs(old(self).phase(), opt_str_view(secret)) <==> a is Construct,
            a is Construct ==> a->Construct_0.dsn@ == opt_str_view(secret)->0
                && a->Construct_0.environment@ == environment_label(debug_build),
            a is Tag <==> (old(self).phase() == Phase::Enabled),
            a is Disable <==> (old(self).phase() == Phase::Uninitialized && !configured(
                opt_str_view(secret),
            )),
            a is Nothing <==> (old(self).phase() == Phase::Disabled),
            tags_scope(old(self).phase(), opt_str_view(secret)) <==> (a is Construct || a is Tag),
    {
        match self.phase {
            Phase::Uninitialized => {
                match secret {
                    Some(s) if !s.is_empty() => {
                        self.phase = Phase::Enabled;
                        InitAction::Construct(
                            ClientSettings { dsn: s.to_owned(), environment: environment(debug_build) },
                        )
                    },
                    _ => {
                        self.phase = Phase::Disabled;
                        InitAction::Disable
                    },
                }
            },
            Phase::Disabled => InitAction::Nothing,
            Phase::Enabled => InitAction::Tag,
        }
    }
}

} // verus!
