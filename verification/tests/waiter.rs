use backend_supervisor::waiter::{
    default_wait_config, PollDirective, ProbeOutcome, WaitConfig, WaitState,
};

/// Drives the waiter state machine against a simulated clock: probes take no
/// time, each commanded sleep advances the clock by one poll interval, and a
/// listener (if any) is reachable from `listener_at` milliseconds onwards.
/// Returns the waiter's verdict and the simulated time at which it fell.
fn simulate_wait(cfg: &WaitConfig, listener_at: Option<u64>) -> (bool, u64) {
    let mut st = WaitState::start(cfg);
    let mut now: u64 = 0;
    let mut window_started: u64 = 0;
    loop {
        match st.advance(cfg, now - window_started) {
            PollDirective::Probe => {
                let reachable = match listener_at {
                    Some(t) => now >= t,
                    None => false,
                };
                match st.on_probe(reachable) {
                    ProbeOutcome::Ready => return (true, now),
                    ProbeOutcome::RetryAfterSleep => now += cfg.poll_interval_ms,
                }
            }
            PollDirective::NextAttempt => window_started = now,
            PollDirective::GiveUp => return (false, now),
        }
    }
}

#[test]
fn no_listener_exhausts_the_full_budget() {
    let cfg = WaitConfig { attempts: 3, attempt_timeout_ms: 1000, poll_interval_ms: 200 };
    let (ready, elapsed) = simulate_wait(&cfg, None);
    assert!(!ready);
    // The poll interval divides the window, so the wait ends exactly at the
    // full budget of attempts x timeout.
    assert_eq!(elapsed, 3000);
}

#[test]
fn no_listener_single_attempt() {
    let cfg = WaitConfig { attempts: 1, attempt_timeout_ms: 600, poll_interval_ms: 200 };
    let (ready, elapsed) = simulate_wait(&cfg, None);
    assert!(!ready);
    assert_eq!(elapsed, 600);
}

#[test]
fn no_listener_waits_at_least_the_budget_on_uneven_grids() {
    // 200 does not divide 500: each window overshoots by one partial sleep,
    // but the wait still lasts at least attempts x timeout.
    let cfg = WaitConfig { attempts: 2, attempt_timeout_ms: 500, poll_interval_ms: 200 };
    let (ready, elapsed) = simulate_wait(&cfg, None);
    assert!(!ready);
    assert!(elapsed >= 1000);
    assert_eq!(elapsed, 1200);
}

#[test]
fn late_listener_is_seen_within_one_poll_interval() {
    let cfg = WaitConfig { attempts: 10, attempt_timeout_ms: 10000, poll_interval_ms: 200 };
    let (ready, elapsed) = simulate_wait(&cfg, Some(300));
    assert!(ready);
    assert!(elapsed >= 300);
    assert!(elapsed <= 300 + cfg.poll_interval_ms);
    assert_eq!(elapsed, 400);
}

#[test]
fn immediate_listener_returns_at_once() {
    let cfg = WaitConfig { attempts: 10, attempt_timeout_ms: 10000, poll_interval_ms: 200 };
    let (ready, elapsed) = simulate_wait(&cfg, Some(0));
    assert!(ready);
    assert_eq!(elapsed, 0);
}

#[test]
fn listener_appearing_in_a_later_attempt_is_still_found() {
    let cfg = WaitConfig { attempts: 3, attempt_timeout_ms: 1000, poll_interval_ms: 200 };
    // Appears during the second window.
    let (ready, elapsed) = simulate_wait(&cfg, Some(1500));
    assert!(ready);
    assert!(elapsed >= 1500 && elapsed <= 1500 + cfg.poll_interval_ms);
}

#[test]
fn advance_reports_each_directive_exactly_once_per_state() {
    let cfg = WaitConfig { attempts: 2, attempt_timeout_ms: 1000, poll_interval_ms: 200 };
    let mut st = WaitState::start(&cfg);
    assert_eq!(st.attempt, 1);
    assert!(matches!(st.advance(&cfg, 0), PollDirective::Probe));
    assert!(matches!(st.advance(&cfg, 999), PollDirective::Probe));
    assert!(matches!(st.advance(&cfg, 1000), PollDirective::NextAttempt));
    assert_eq!(st.attempt, 2);
    assert!(matches!(st.advance(&cfg, 250), PollDirective::Probe));
    assert!(matches!(st.advance(&cfg, 1200), PollDirective::GiveUp));
    assert_eq!(st.attempt, 2);
}

#[test]
fn probe_result_decides_readiness() {
    let cfg = default_wait_config();
    let st = WaitState::start(&cfg);
    assert!(matches!(st.on_probe(true), ProbeOutcome::Ready));
    assert!(matches!(st.on_probe(false), ProbeOutcome::RetryAfterSleep));
}

#[test]
fn default_config_is_ten_windows_of_ten_seconds() {
    let cfg = default_wait_config();
    assert_eq!(cfg.attempts, 10);
    assert_eq!(cfg.attempt_timeout_ms, 10000);
    assert_eq!(cfg.poll_interval_ms, 200);
}
