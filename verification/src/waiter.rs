//! Readiness waiting: the decision logic of a bounded polling loop. The
//! loop runs over a grid of `attempts` windows, each `attempt_timeout_ms`
//! long, probing reachability every `poll_interval_ms` inside a window.
//!
//! The waiter itself performs no I/O and reads no clock: the driver probes
//! the port, measures the time elapsed inside the current window, and asks
//! this state machine what to do next.

use vstd::prelude::*;

verus! {

/// The attempt grid of one readiness wait.
#[derive(Clone, Copy, Debug, PartialEq, Eq, Structural)]
pub struct WaitConfig {
    /// How many polling windows to run, at least one.
    pub attempts: u32,
    /// The duration of each window, in milliseconds, positive.
    pub attempt_timeout_ms: u64,
    /// How long the driver sleeps between two probes, in milliseconds.
    pub poll_interval_ms: u64,
}

impl WaitConfig {
    pub open spec fn wf(self) -> bool {
        &&& self.attempts >= 1
        &&& self.attempt_timeout_ms >= 1
        &&& self.poll_interval_ms >= 1
    }
}

/// The loop state: which polling window is running.
#[derive(Clone, Copy, Debug, PartialEq, Eq, Structural)]
pub struct WaitState {
    /// The current window, counted from 1 up to `attempts`.
    pub attempt: u32,
}

/// What the driver must do before the next probe.
#[derive(Clone, Copy, Debug, PartialEq, Eq, Structural)]
pub enum PollDirective {
    /// The window's deadline has not passed: probe the port now.
    Probe,
    /// The window is exhausted but windows remain: restart the window timer.
    NextAttempt,
    /// The final window is exhausted: report overall failure.
    GiveUp,
}

/// What the driver must do with a probe's result.
#[derive(Clone, Copy, Debug, PartialEq, Eq, Structural)]
pub enum ProbeOutcome {
    /// The port was reachable: report overall success at once.
    Ready,
    /// Not reachable yet: sleep one poll interval, then ask again.
    RetryAfterSleep,
}

/// The directive for state `st` when `elapsed_ms` of the current window have
/// passed.
pub open spec fn spec_directive(cfg: WaitConfig, st: WaitState, elapsed_ms: u64) -> PollDirective {
    if elapsed_ms < cfg.attempt_timeout_ms {
        PollDirective::Probe
    } else if st.attempt < cfg.attempts {
        PollDirective::NextAttempt
    } else {
        PollDirective::GiveUp
    }
}

/// The state after the directive for (`st`, `elapsed_ms`) is carried out.
pub open spec fn spec_advance(cfg: WaitConfig, st: WaitState, elapsed_ms: u64) -> WaitState {
    if spec_directive(cfg, st, elapsed_ms) is NextAttempt {
        WaitState { attempt: (st.attempt + 1) as u32 }
    } else {
        st
    }
}

impl WaitState {
    pub open spec fn wf(self, cfg: WaitConfig) -> bool {
        1 <= self.attempt <= cfg.attempts
    }

    /// The state at the start of a wait: the first window.
    pub fn start(cfg: &WaitConfig) -> (st: WaitState)
        requires
            cfg.wf(),
        ensures
            st.wf(*cfg),
            st.attempt == 1,
    {
        WaitState { attempt: 1 }
    }

    /// Decides, before a probe, whether the current window is still open,
    /// whether the next window starts, or whether the whole wait is over.
    ///
    /// While the window's deadline has not passed, the answer is always
    /// `Probe`; the wait gives up only when the deadline of the very last
    /// window has passed.
    pub fn advance(&mut self, cfg: &WaitConfig, elapsed_ms: u64) -> (d: PollDirective)
        requires
            old(self).wf(*cfg),
        ensures
            final(self).wf(*cfg),
            d == spec_directive(*cfg, *old(self), elapsed_ms),
            *final(self) == spec_advance(*cfg, *old(self), elapsed_ms),
            (d is Probe) <==> elapsed_ms < cfg.attempt_timeout_ms,
            (d is NextAttempt) <==> (elapsed_ms >= cfg.attempt_timeout_ms && old(
                self,
            ).attempt < cfg.attempts),
            (d is GiveUp) <==> (elapsed_ms >= cfg.attempt_timeout_ms && old(
                self,
            ).attempt == cfg.attempts),
            d is NextAttempt ==> final(self).attempt == old(self).attempt + 1,
            !(d is NextAttempt) ==> *final(self) == *old(self),
    {
        if elapsed_ms < cfg.attempt_timeout_ms {
            PollDirective::Probe
        } else if self.attempt < cfg.attempts {
            self.attempt = self.attempt + 1;
            PollDirective::NextAttempt
        } else {
            PollDirective::GiveUp
        }
    }

    /// Decides what a probe's result means: a reachable port ends the wait
    /// with success at once; an unreachable one means sleeping one poll
    /// interval and asking again.
    pub fn on_probe(&self, reachable: bool) -> (o: ProbeOutcome)
        ensures
            (o is Ready) <==> reachable,
    {
        if reachable {
            ProbeOutcome::Ready
        } else {
            ProbeOutcome::RetryAfterSleep
        }
    }
}

/// The waiting grid the application uses after a spawn: ten windows of ten
/// seconds each, polling every 200 milliseconds.
pub fn default_wait_config() -> (c: WaitConfig)
    ensures
        c == (WaitConfig { attempts: 10, attempt_timeout_ms: 10000, poll_interval_ms: 200 }),
        c.wf(),
{
    WaitConfig { attempts: 10, attempt_timeout_ms: 10000, poll_interval_ms: 200 }
}

/// One reading handed to `advance`: how much of the current window had
/// elapsed and, should a probe follow, whether the port was reachable.
pub struct WaitEvent {
    pub elapsed_ms: u64,
    pub reachable: bool,
}

/// The verdict of a whole wait that starts in state `st` and is driven by
/// the readings `evs`, in order: `Some(true)` on success, `Some(false)` on
/// giving up, `None` if the readings end before the wait does.
pub open spec fn spec_run(cfg: WaitConfig, st: WaitState, evs: Seq<WaitEvent>) -> Option<bool>
    decreases evs.len(),
{
    if evs.len() == 0 {
        None
    } else {
        match spec_directive(cfg, st, evs[0].elapsed_ms) {
            PollDirective::Probe => if evs[0].reachable {
                Some(true)
            } else {
                spec_run(cfg, st, evs.drop_first())
            },
            PollDirective::NextAttempt => spec_run(
                cfg,
                spec_advance(cfg, st, evs[0].elapsed_ms),
                evs.drop_first(),
            ),
            PollDirective::GiveUp => Some(false),
        }
    }
}

/// How many of the readings `evs` found their window's deadline passed.
/// Each such reading stands for a full `attempt_timeout_ms` of waited time.
pub open spec fn spec_expiries(cfg: WaitConfig, evs: Seq<WaitEvent>) -> int
    decreases evs.len(),
{
    if evs.len() == 0 {
        0
    } else {
        (if evs[0].elapsed_ms >= cfg.attempt_timeout_ms {
            1int
        } else {
            0int
        }) + spec_expiries(cfg, evs.drop_first())
    }
}

proof fn lemma_expiries_nonneg(cfg: WaitConfig, evs: Seq<WaitEvent>)
    ensures
        spec_expiries(cfg, evs) >= 0,
    decreases evs.len(),
{
    if evs.len() != 0 {
        lemma_expiries_nonneg(cfg, evs.drop_first());
    }
}

/// Bounded wait, lower bound: a wait that ends in failure sat through the
/// full deadline of every remaining window. With `attempts` windows of
/// `attempt_timeout_ms` each, a run from the first window gives up only
/// after at least `attempts` deadline expiries, hence only after at least
/// `attempts * attempt_timeout_ms` of waited time.
pub proof fn lemma_give_up_needs_full_budget(cfg: WaitConfig, st: WaitState, evs: Seq<WaitEvent>)
    requires
        st.wf(cfg),
        spec_run(cfg, st, evs) == Some(false),
    ensures
        spec_expiries(cfg, evs) >= cfg.attempts - st.attempt + 1,
    decreases evs.len(),
{
    match spec_directive(cfg, st, evs[0].elapsed_ms) {
        PollDirective::Probe => {
            lemma_give_up_needs_full_budget(cfg, st, evs.drop_first());
        },
        PollDirective::NextAttempt => {
            lemma_give_up_needs_full_budget(
                cfg,
                spec_advance(cfg, st, evs[0].elapsed_ms),
                evs.drop_first(),
            );
        },
        PollDirective::GiveUp => {
            lemma_expiries_nonneg(cfg, evs.drop_first());
        },
    }
}

/// Bounded wait, as the driver sees it: a full wait that returns failure
/// saw at least `attempts` deadline expiries.
pub proof fn lemma_timeout_takes_all_attempts(cfg: WaitConfig, evs: Seq<WaitEvent>)
    requires
        cfg.wf(),
        spec_run(cfg, WaitState { attempt: 1 }, evs) == Some(false),
    ensures
        spec_expiries(cfg, evs) >= cfg.attempts,
{
    lemma_give_up_needs_full_budget(cfg, WaitState { attempt: 1 }, evs);
}

/// Bounded wait, upper bound: the first reading past the final window's
/// deadline ends the wait at once, with failure. The wait never keeps a
/// driver polling beyond its budget.
pub proof fn lemma_ends_at_exhaustion(cfg: WaitConfig, st: WaitState, evs: Seq<WaitEvent>)
    requires
        st.attempt == cfg.attempts,
        evs.len() > 0,
        evs[0].elapsed_ms >= cfg.attempt_timeout_ms,
    ensures
        spec_run(cfg, st, evs) == Some(false),
{
}

/// A wait in which no probe ever found the port reachable cannot report
/// success.
pub proof fn lemma_unreachable_never_ready(cfg: WaitConfig, st: WaitState, evs: Seq<WaitEvent>)
    requires
        forall|j: int| 0 <= j < evs.len() ==> !evs[j].reachable,
    ensures
        spec_run(cfg, st, evs) != Some(true),
    decreases evs.len(),
{
    if evs.len() != 0 {
        assert forall|j: int| 0 <= j < evs.drop_first().len() implies !evs.drop_first()[j].reachable by {
            assert(evs.drop_first()[j] == evs[j + 1]);
        }
        match spec_directive(cfg, st, evs[0].elapsed_ms) {
            PollDirective::Probe => {
                lemma_unreachable_never_ready(cfg, st, evs.drop_first());
            },
            PollDirective::NextAttempt => {
                lemma_unreachable_never_ready(
                    cfg,
                    spec_advance(cfg, st, evs[0].elapsed_ms),
                    evs.drop_first(),
                );
            },
            PollDirective::GiveUp => {
            },
        }
    }
}

/// Eventual success: the first probe that finds the port reachable inside
/// an open window ends the wait with success at once — the waiter does not
/// sit out the rest of its budget. The run reaches that probe as long as
/// the earlier readings did not already use up every window.
pub proof fn lemma_ready_at_first_reachable(
    cfg: WaitConfig,
    st: WaitState,
    evs: Seq<WaitEvent>,
    i: int,
)
    requires
        st.wf(cfg),
        0 <= i < evs.len(),
        forall|j: int| 0 <= j < i ==> !evs[j].reachable,
        spec_expiries(cfg, evs.take(i)) <= cfg.attempts - st.attempt,
        evs[i].reachable,
        evs[i].elapsed_ms < cfg.attempt_timeout_ms,
    ensures
        spec_run(cfg, st, evs) == Some(true),
    decreases i,
{
    if i == 0 {
        assert(spec_directive(cfg, st, evs[0].elapsed_ms) is Probe);
    } else {
        let rest = evs.drop_first();
        assert(evs.take(i).drop_first() =~= rest.take(i - 1));
        assert(evs.take(i)[0] == evs[0]);
        assert forall|j: int| 0 <= j < i - 1 implies !rest[j].reachable by {
            assert(rest[j] == evs[j + 1]);
        }
        assert(rest[i - 1] == evs[i]);
        lemma_expiries_nonneg(cfg, rest.take(i - 1));
        match spec_directive(cfg, st, evs[0].elapsed_ms) {
            PollDirective::Probe => {
                lemma_ready_at_first_reachable(cfg, st, rest, i - 1);
            },
            PollDirective::NextAttempt => {
                lemma_ready_at_first_reachable(
                    cfg,
                    spec_advance(cfg, st, evs[0].elapsed_ms),
                    rest,
                    i - 1,
                );
            },
            PollDirective::GiveUp => {
                assert(spec_expiries(cfg, evs.take(i)) >= 1);
            },
        }
    }
}

} // verus!
