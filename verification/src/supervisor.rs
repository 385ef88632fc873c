//! Launch coordination: the state machine that ensures the service is
//! running. Per invocation it moves strictly through Check, Resolve, Spawn
//! and Await, and ends in exactly one terminal outcome. The driver performs
//! the probe, the spawn and the wait, and reports each result here.

use crate::locator::{resolve, spec_resolve_absolute, spec_resolve_parts, spec_required_depth,
    Mode, Platform, ResourcePath};
use vstd::prelude::*;

verus! {

/// The TCP port on which the service is expected to listen.
pub const DEFAULT_PORT: u16 = 5002;

/// The terminal result of one supervision attempt.
#[derive(Clone, Debug, PartialEq, Eq)]
pub enum LaunchOutcome {
    /// A listener already occupied the port: nothing was spawned.
    AlreadyRunning,
    /// The service was spawned and became reachable within the budget.
    StartedAndReady,
    /// The spawn itself failed; the cause carries the operating system's
    /// error text, verbatim.
    StartFailed(String),
    /// The spawn succeeded but the port never became reachable within the
    /// full attempts-times-timeout budget.
    ReadinessTimedOut,
}

/// Where one supervision run stands.
#[derive(Debug)]
pub enum Phase {
    /// Waiting for the result of the initial reachability probe.
    Checking,
    /// The port was unreachable: the executable's path must be resolved.
    Resolving,
    /// The path is resolved: waiting for the result of the spawn.
    Spawning,
    /// The spawn succeeded: waiting for the readiness waiter's verdict.
    Awaiting,
    /// A terminal outcome was reached.
    Finished(LaunchOutcome),
}

/// The phase after the initial probe reports `reachable`.
pub open spec fn spec_after_initial_probe(reachable: bool) -> Phase {
    if reachable {
        Phase::Finished(LaunchOutcome::AlreadyRunning)
    } else {
        Phase::Resolving
    }
}

/// The phase after the spawn reports `spawn`.
pub open spec fn spec_after_spawn(spawn: Result<(), String>) -> Phase {
    match spawn {
        Ok(_) => Phase::Awaiting,
        Err(cause) => Phase::Finished(LaunchOutcome::StartFailed(cause)),
    }
}

/// The phase after the readiness waiter reports `ready`.
pub open spec fn spec_after_wait(ready: bool) -> Phase {
    if ready {
        Phase::Finished(LaunchOutcome::StartedAndReady)
    } else {
        Phase::Finished(LaunchOutcome::ReadinessTimedOut)
    }
}

/// The outcome of a whole run whose environment answered the initial probe
/// with `reachable`, the spawn with `spawn`, and the wait with `ready`.
pub open spec fn spec_outcome(reachable: bool, spawn: Result<(), String>, ready: bool)
    -> LaunchOutcome {
    if reachable {
        LaunchOutcome::AlreadyRunning
    } else {
        match spawn {
            Err(cause) => LaunchOutcome::StartFailed(cause),
            Ok(_) => if ready {
                LaunchOutcome::StartedAndReady
            } else {
                LaunchOutcome::ReadinessTimedOut
            },
        }
    }
}

/// Whether a run whose initial probe reported `reachable` ever reaches the
/// spawn step.
pub open spec fn spec_spawn_attempted(reachable: bool) -> bool {
    !reachable
}

/// One supervision run.
pub struct Supervisor {
    pub phase: Phase,
}

impl Supervisor {
    /// A fresh run, about to make the initial reachability check.
    pub fn new() -> (s: Supervisor)
        ensures
            s.phase is Checking,
    {
        Supervisor { phase: Phase::Checking }
    }

    /// Step one, Check: consumes the initial probe's result. A reachable
    /// port ends the run at once as `AlreadyRunning`; only an unreachable
    /// one moves on towards resolving and spawning.
    pub fn on_initial_probe(&mut self, reachable: bool)
        requires
            old(self).phase is Checking,
        ensures
            final(self).phase == spec_after_initial_probe(reachable),
            reachable ==> final(self).phase == Phase::Finished(LaunchOutcome::AlreadyRunning),
            !reachable ==> final(self).phase is Resolving,
    {
        if reachable {
            self.phase = Phase::Finished(LaunchOutcome::AlreadyRunning);
        } else {
            self.phase = Phase::Resolving;
        }
    }

    /// Step two, Resolve: computes the executable's path, fresh for this
    /// run, and moves on to the spawn step. Pure besides the phase change.
    pub fn resolve_target(
        &mut self,
        mode: Mode,
        platform: Platform,
        exe: &ResourcePath,
        name: &str,
    ) -> (r: ResourcePath)
        requires
            old(self).phase is Resolving,
            exe@.len() >= spec_required_depth(mode, platform),
        ensures
            final(self).phase is Spawning,
            r@ == spec_resolve_parts(mode, platform, exe@, name@),
            r.absolute == spec_resolve_absolute(mode, platform, exe.absolute),
    {
        self.phase = Phase::Spawning;
        resolve(mode, platform, exe, name)
    }

    /// Step three, Spawn: consumes the spawn's result. A failure ends the
    /// run as `StartFailed`, carrying the cause text verbatim; a success
    /// moves on to the readiness wait.
    pub fn on_spawn_result(&mut self, spawn: Result<(), String>)
        requires
            old(self).phase is Spawning,
        ensures
            final(self).phase == spec_after_spawn(spawn),
            spawn is Ok ==> final(self).phase is Awaiting,
            spawn matches Err(cause) ==> final(self).phase == Phase::Finished(
                LaunchOutcome::StartFailed(cause),
            ),
    {
        match spawn {
            Ok(_) => {
                self.phase = Phase::Awaiting;
            },
            Err(cause) => {
                self.phase = Phase::Finished(LaunchOutcome::StartFailed(cause));
            },
        }
    }

    /// Step four, Await: consumes the readiness waiter's verdict and ends
    /// the run as `StartedAndReady` or `ReadinessTimedOut`.
    pub fn on_wait_result(&mut self, ready: bool)
        requires
            old(self).phase is Awaiting,
        ensures
            final(self).phase == spec_after_wait(ready),
            ready ==> final(self).phase == Phase::Finished(LaunchOutcome::StartedAndReady),
            !ready ==> final(self).phase == Phase::Finished(LaunchOutcome::ReadinessTimedOut),
    {
        if ready {
            self.phase = Phase::Finished(LaunchOutcome::StartedAndReady);
        } else {
            self.phase = Phase::Finished(LaunchOutcome::ReadinessTimedOut);
        }
    }

    /// The run's terminal outcome, or `None` while it is still underway.
    pub fn outcome(&self) -> (o: Option<&LaunchOutcome>)
        ensures
            match self.phase {
                Phase::Finished(oc) => o matches Some(r) && *r == oc,
                _ => o is None,
            },
    {
        match &self.phase {
            Phase::Finished(oc) => Some(oc),
            _ => None,
        }
    }
}

/// Idempotency: when the initial probe finds the port already reachable,
/// the run's outcome is `AlreadyRunning`, whatever the environment would
/// have answered later, and the spawn step is never reached.
pub proof fn lemma_idempotent(spawn: Result<(), String>, ready: bool)
    ensures
        spec_outcome(true, spawn, ready) == LaunchOutcome::AlreadyRunning,
        !spec_spawn_attempted(true),
        spec_after_initial_probe(true) == Phase::Finished(LaunchOutcome::AlreadyRunning),
{
}

/// A spawn failure surfaces its cause: the run's outcome carries the
/// operating system's error text unchanged.
pub proof fn lemma_spawn_failure_surfaces_cause(cause: String, ready: bool)
    ensures
        spec_outcome(false, Err(cause), ready) == LaunchOutcome::StartFailed(cause),
{
}

} // verus!
