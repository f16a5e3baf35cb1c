use sidecar_supervisor::allocator::PortScan;
use sidecar_supervisor::allocator::SCAN_BASE;
use sidecar_supervisor::allocator::SCAN_WINDOW;
use sidecar_supervisor::errors::ProbeResult;
use sidecar_supervisor::errors::StartupError;
use sidecar_supervisor::prober::begin_wait;
use sidecar_supervisor::prober::worst_case_wait_ms;
use sidecar_supervisor::prober::ProbeSchedule;
use sidecar_supervisor::prober::ProbeStep;
use sidecar_supervisor::prober::DEFAULT_MAX_ATTEMPTS;
use sidecar_supervisor::prober::INTER_ATTEMPT_DELAY_MS;
use sidecar_supervisor::prober::PER_ATTEMPT_TIMEOUT_MS;

#[test]
fn scan_starts_at_the_base_port() {
    let scan = PortScan::default_window();
    assert_eq!(SCAN_BASE, 5000);
    assert_eq!(SCAN_WINDOW, 100);
    assert_eq!(scan.current(), Some(5000));
}

#[test]
fn scan_advances_in_ascending_order() {
    let mut scan = PortScan::new(5000, 100);
    scan.record_bind_failure();
    assert_eq!(scan.current(), Some(5001));
    scan.record_bind_failure();
    assert_eq!(scan.current(), Some(5002));
}

#[test]
fn exhausted_scan_reports_no_port_available() {
    let mut scan = PortScan::new(5000, 100);
    let mut visited: Vec<u16> = Vec::new();
    while let Some(p) = scan.current() {
        visited.push(p);
        scan.record_bind_failure();
    }
    assert_eq!(visited.len(), 100);
    assert_eq!(visited.first(), Some(&5000));
    assert_eq!(visited.last(), Some(&5099));
    assert_eq!(scan.current(), None);
    assert_eq!(scan.exhausted_error(), StartupError::NoPortAvailable);
}

#[test]
fn empty_scan_window_is_exhausted_at_once() {
    let scan = PortScan::new(6000, 0);
    assert_eq!(scan.current(), None);
    assert_eq!(scan.exhausted_error(), StartupError::NoPortAvailable);
}

#[test]
fn scan_window_may_end_at_the_greatest_port() {
    let mut scan = PortScan::new(65535, 1);
    assert_eq!(scan.current(), Some(65535));
    scan.record_bind_failure();
    assert_eq!(scan.current(), None);
}

#[test]
fn accepted_connection_reports_ready_at_once() {
    let mut sched = ProbeSchedule::new(DEFAULT_MAX_ATTEMPTS);
    assert!(sched.can_attempt());
    assert_eq!(sched.record_attempt(true), ProbeStep::ReportReady);
    assert_eq!(sched.attempts_made, 1);
}

#[test]
fn budget_is_spent_one_failure_at_a_time() {
    let mut sched = ProbeSchedule::new(3);
    assert_eq!(sched.record_attempt(false), ProbeStep::RetryAfterDelay);
    assert_eq!(sched.record_attempt(false), ProbeStep::RetryAfterDelay);
    assert_eq!(sched.record_attempt(false), ProbeStep::GiveUp);
    assert!(!sched.can_attempt());
}

#[test]
fn success_on_the_last_attempt_still_reports_ready() {
    let mut sched = ProbeSchedule::new(2);
    assert_eq!(sched.record_attempt(false), ProbeStep::RetryAfterDelay);
    assert_eq!(sched.record_attempt(true), ProbeStep::ReportReady);
}

#[test]
fn default_budget_bounds_the_wait_near_ten_seconds() {
    let ms = worst_case_wait_ms(
        DEFAULT_MAX_ATTEMPTS,
        PER_ATTEMPT_TIMEOUT_MS,
        INTER_ATTEMPT_DELAY_MS,
    );
    assert_eq!(ms, 20000);
}

#[test]
fn nothing_listening_spends_the_whole_budget_and_reports_not_ready() {
    let outcomes = vec![false; 20];
    let (ready, used) = sidecar_supervisor::prober::run_schedule(&outcomes, 20);
    assert!(!ready);
    assert_eq!(used, 20);
}

#[test]
fn listener_already_up_is_reported_on_the_first_attempt() {
    let outcomes = vec![true; 20];
    let (ready, used) = sidecar_supervisor::prober::run_schedule(&outcomes, 20);
    assert!(ready);
    assert_eq!(used, 1);
}

#[test]
fn listener_up_a_moment_later_is_reported_on_the_second_attempt() {
    let mut outcomes = vec![true; 20];
    outcomes[0] = false;
    let (ready, used) = sidecar_supervisor::prober::run_schedule(&outcomes, 20);
    assert!(ready);
    assert_eq!(used, 2);
}

#[test]
fn empty_budget_reports_not_ready_without_any_attempt() {
    let outcomes: Vec<bool> = Vec::new();
    let (ready, used) = sidecar_supervisor::prober::run_schedule(&outcomes, 0);
    assert!(!ready);
    assert_eq!(used, 0);
}

#[test]
fn wait_on_well_formed_target_opens_a_fresh_schedule() {
    let (target, sched) = begin_wait("http://localhost:5000", 20).unwrap();
    assert_eq!(target.host, b"localhost".to_vec());
    assert_eq!(target.port, 5000);
    assert_eq!(sched.max_attempts, 20);
    assert_eq!(sched.attempts_made, 0);
}

#[test]
fn wait_on_malformed_target_fails_before_any_attempt() {
    let r = begin_wait("http://localhost", 20);
    assert!(matches!(r, Err(ProbeResult::MalformedTarget)));
}
