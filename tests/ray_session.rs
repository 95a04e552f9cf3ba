use simulation::session::{RaySession, RayStatus, DEFAULT_MAX_STEPS};

#[test]
fn new_session_is_tracing_with_no_steps() {
    let s = RaySession::new(DEFAULT_MAX_STEPS);
    assert_eq!(s.step_count(), 0);
    assert_eq!(s.max_steps(), 10000);
    assert_eq!(s.status(), RayStatus::Tracing);
    assert!(!s.is_finished());
}

#[test]
fn converged_steps_are_counted() {
    let mut s = RaySession::new(5);
    for expected in 1..=3u32 {
        assert!(s.begin_step(false));
        s.complete_step(true);
        assert_eq!(s.step_count(), expected);
    }
    assert_eq!(s.status(), RayStatus::Tracing);
}

#[test]
fn budget_exhaustion_stops_the_ray() {
    let mut s = RaySession::new(2);
    for _ in 0..2 {
        assert!(s.begin_step(false));
        s.complete_step(true);
    }
    assert!(!s.begin_step(false));
    assert_eq!(s.status(), RayStatus::MaxStepsReached);
    assert_eq!(s.step_count(), 2);
    assert!(s.is_finished());
}

#[test]
fn budget_is_checked_before_capture() {
    let mut s = RaySession::new(1);
    assert!(s.begin_step(false));
    s.complete_step(true);
    assert!(!s.begin_step(true));
    assert_eq!(s.status(), RayStatus::MaxStepsReached);
}

#[test]
fn zero_budget_stops_at_once() {
    let mut s = RaySession::new(0);
    assert!(!s.begin_step(false));
    assert_eq!(s.status(), RayStatus::MaxStepsReached);
    assert_eq!(s.step_count(), 0);
}

#[test]
fn reaching_capture_radius_captures() {
    let mut s = RaySession::new(10);
    assert!(s.begin_step(false));
    s.complete_step(true);
    assert!(!s.begin_step(true));
    assert_eq!(s.status(), RayStatus::Captured);
    assert_eq!(s.step_count(), 1);
}

#[test]
fn failed_step_diverges_without_counting() {
    let mut s = RaySession::new(10);
    assert!(s.begin_step(false));
    s.complete_step(false);
    assert_eq!(s.status(), RayStatus::Diverged);
    assert_eq!(s.step_count(), 0);
}

#[test]
fn terminal_status_is_kept() {
    let mut s = RaySession::new(10);
    assert!(!s.begin_step(true));
    assert_eq!(s.status(), RayStatus::Captured);
    assert!(!s.begin_step(false));
    s.complete_step(true);
    s.complete_step(false);
    assert_eq!(s.status(), RayStatus::Captured);
    assert_eq!(s.step_count(), 0);
}

#[test]
fn step_report_beyond_budget_changes_nothing() {
    let mut s = RaySession::new(1);
    assert!(s.begin_step(false));
    s.complete_step(true);
    s.complete_step(true);
    assert_eq!(s.step_count(), 1);
    assert_eq!(s.status(), RayStatus::Tracing);
}
