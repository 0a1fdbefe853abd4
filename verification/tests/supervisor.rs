use pg_agent_core::pgpool_supervisor::{
    PgpoolSupervisor, MAX_CONSECUTIVE_FAILURES, MIN_ATTEMPT_GAP_MS, TICK_MS,
};

fn fast(gap: u64, cap: usize) -> PgpoolSupervisor {
    PgpoolSupervisor::with_params(1, gap, cap)
}

#[test]
fn supervisor_defaults() {
    let s = PgpoolSupervisor::new();
    assert_eq!((s.tick_ms, s.min_attempt_gap_ms), (TICK_MS, MIN_ATTEMPT_GAP_MS));
    assert_eq!(s.max_consecutive_failures, MAX_CONSECUTIVE_FAILURES);
    assert_eq!((TICK_MS, MIN_ATTEMPT_GAP_MS, MAX_CONSECUTIVE_FAILURES), (5000, 30000, 10));
}

#[test]
fn tick_when_active_no_op() {
    let mut s = fast(0, 3);
    assert!(!s.tick_once(Ok(true), 0));
    assert_eq!(s.started_count, 0);
    assert_eq!(s.consecutive_failures, 0);
}

#[test]
fn tick_when_inactive_attempts_start() {
    let mut s = fast(0, 3);
    assert!(s.tick_once(Ok(false), 0));
    s.start_ended(true);
    assert!(!s.tick_once(Ok(true), 1));
    assert_eq!(s.started_count, 1);
}

#[test]
fn tick_respects_cooldown() {
    let mut s = fast(1000, 3);
    assert!(s.tick_once(Ok(false), 5));
    s.start_ended(true);
    assert!(!s.tick_once(Ok(false), 1004));
    assert!(s.tick_once(Ok(false), 1005));
    assert_eq!(s.started_count, 2);
}

#[test]
fn tick_counts_failures() {
    let mut s = fast(0, 3);
    for n in 1..=3 {
        assert!(s.tick_once(Ok(false), n));
        s.start_ended(false);
        assert_eq!(s.consecutive_failures, n as usize);
    }
    assert!(!s.tick_once(Ok(false), 100));
    assert_eq!(s.started_count, 3);
}

#[test]
fn ensure_running_once_skips_when_active() {
    let mut s = fast(0, 3);
    assert_eq!(s.ensure_running_once(Ok(true), 0), Ok(false));
    assert_eq!(s.started_count, 0);
}

#[test]
fn ensure_running_once_starts_when_inactive() {
    let mut s = fast(1000, 3);
    assert_eq!(s.ensure_running_once(Ok(false), 0), Ok(true));
    assert_eq!(s.started_count, 1);
    assert_eq!(s.ensure_running_once(Ok(false), 1), Ok(true));
}

#[test]
fn ensure_running_once_respects_the_cap() {
    let mut s = fast(0, 1);
    assert!(s.tick_once(Ok(false), 0));
    s.start_ended(false);
    assert_eq!(s.ensure_running_once(Ok(false), 1), Ok(false));
    assert_eq!(s.started_count, 1);
    assert_eq!(s.ensure_running_once(Err("bus".to_string()), 1), Err("bus".to_string()));
}

#[test]
fn status_query_failure_does_not_count_as_start_failure() {
    let mut s = fast(0, 3);
    assert!(!s.tick_once(Err("bus".to_string()), 0));
    assert_eq!(s.started_count, 0);
    assert_eq!(s.consecutive_failures, 0);
}

#[test]
fn success_resets_failure_counter_on_next_active_tick() {
    let mut s = fast(0, 3);
    for n in 0..2 {
        assert!(s.tick_once(Ok(false), n));
        s.start_ended(false);
    }
    assert!(s.tick_once(Ok(false), 2));
    s.start_ended(true);
    assert_eq!(s.consecutive_failures, 2);
    assert!(!s.tick_once(Ok(true), 3));
    assert_eq!(s.consecutive_failures, 0);
}
