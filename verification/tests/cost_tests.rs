use ralph_wiggum_supervisor::clock::Timestamp;
use ralph_wiggum_supervisor::cost::{CostPressure, CostTracker};

fn at(secs: i64) -> Timestamp {
    Timestamp { secs, nanos: 0 }
}

fn pressure(iterations: u64, failures: u64) -> CostPressure {
    CostPressure::from_document(
        "d".to_string(),
        Some(CostTracker { iterations, llm_tokens: 0, failures, start_time: at(0), last_updated: at(0) }),
    )
}

#[test]
fn fresh_tracker_is_zero() {
    let t = CostTracker::starting_at(at(11));
    assert_eq!((t.iterations, t.llm_tokens, t.failures), (0, 0, 0));
    assert_eq!(t.start_time, at(11));
    assert_eq!(t.last_updated, at(11));
    let d = CostTracker::default();
    assert_eq!((d.iterations, d.llm_tokens, d.failures), (0, 0, 0));
    assert_eq!(d.start_time, d.last_updated);
    assert!(d.start_time.secs > 1_500_000_000);
    let c = CostPressure::new("dir".to_string());
    assert_eq!(c.state_dir(), "dir");
    assert_eq!(c.get_tracker().iterations, 0);
    let n = CostPressure::new_at("dir".to_string(), at(4));
    assert_eq!(n.get_tracker().start_time, at(4));
}

#[test]
fn counters_go_up_and_stamp() {
    let mut c = CostPressure::new_at("d".to_string(), at(1));
    c.increment_iteration_at(at(2));
    c.increment_iteration_at(at(3));
    c.add_llm_tokens_at(100, at(4));
    c.add_llm_tokens_at(23, at(5));
    c.increment_failures_at(at(6));
    let t = c.get_tracker();
    assert_eq!(t.iterations, 2);
    assert_eq!(t.llm_tokens, 123);
    assert_eq!(t.failures, 1);
    assert_eq!(t.start_time, at(1));
    assert_eq!(t.last_updated, at(6));
}

#[test]
fn counters_with_the_clock() {
    let mut c = CostPressure::new_at("d".to_string(), at(1));
    c.increment_iteration();
    c.add_llm_tokens(5);
    c.increment_failures();
    let t = c.get_tracker();
    assert_eq!((t.iterations, t.llm_tokens, t.failures), (1, 5, 1));
    assert_eq!(t.start_time, at(1));
    assert!(t.last_updated.secs > 1_500_000_000);
}

#[test]
fn should_escalate_is_false_without_iterations() {
    assert!(!pressure(0, 0).should_escalate());
    assert!(!pressure(0, 1).should_escalate());
    assert!(!pressure(0, u64::MAX).should_escalate());
}

#[test]
fn should_escalate_above_three_tenths() {
    assert!(pressure(10, 4).should_escalate());
    assert!(!pressure(10, 3).should_escalate());
    assert!(!pressure(10, 0).should_escalate());
    assert!(pressure(1, 1).should_escalate());
    assert!(pressure(3, 1).should_escalate());
    assert!(!pressure(4, 1).should_escalate());
    assert!(!pressure(100, 30).should_escalate());
    assert!(pressure(100, 31).should_escalate());
    assert!(pressure(u64::MAX, u64::MAX).should_escalate());
    assert!(!pressure(u64::MAX, 1).should_escalate());
}

#[test]
fn is_thrashing_thresholds() {
    assert!(!pressure(50, 0).is_thrashing());
    assert!(!pressure(50, 26).is_thrashing());
    assert!(!pressure(50, 50).is_thrashing());
    assert!(!pressure(50, u64::MAX).is_thrashing());
    assert!(pressure(51, 26).is_thrashing());
    assert!(!pressure(51, 25).is_thrashing());
    assert!(!pressure(0, 0).is_thrashing());
    assert!(pressure(100, 51).is_thrashing());
    assert!(!pressure(100, 50).is_thrashing());
}

#[test]
fn cost_context_text() {
    let c = CostPressure::from_document(
        "d".to_string(),
        Some(CostTracker { iterations: 12, llm_tokens: 34567, failures: 0, start_time: at(0), last_updated: at(9) }),
    );
    assert_eq!(
        c.get_cost_context("1.50"),
        "Current cost state:\n- Iterations: 12\n- LLM tokens used: 34567\n- Failures: 0\n- Runtime: 1.50 hours\n\nIteration is expensive. Fix holistically."
    );
}

#[test]
fn missing_document_gives_fresh_counters() {
    let c = CostPressure::from_document("d".to_string(), None);
    let t = c.get_tracker();
    assert_eq!((t.iterations, t.llm_tokens, t.failures), (0, 0, 0));
    assert_eq!(t.start_time, t.last_updated);
    assert_eq!(c.state_dir(), "d");
}

#[test]
fn runtime_in_whole_seconds() {
    let c = CostPressure::new_at("d".to_string(), at(100));
    assert_eq!(c.runtime_seconds_at(at(3700)), Some(3600));
    assert_eq!(c.runtime_seconds_at(at(100)), Some(0));
    assert_eq!(c.runtime_seconds_at(Timestamp { secs: 101, nanos: 999_999_999 }), Some(1));
    assert_eq!(c.runtime_seconds_at(Timestamp { secs: 98, nanos: 500_000_000 }), Some(-1));
    assert_eq!(c.runtime_seconds_at(at(40)), Some(-60));
    assert_eq!(c.runtime_seconds_at(at(i64::MAX)), None);
    let late = CostPressure::new_at("d".to_string(), at(i64::MIN));
    assert_eq!(late.runtime_seconds_at(at(0)), None);
}

#[test]
fn runtime_by_the_clock() {
    let c = CostPressure::new_at("d".to_string(), at(1_500_000_000));
    assert!(c.runtime_seconds().unwrap() > 0);
    let fresh = CostPressure::new("d".to_string());
    let r = fresh.runtime_seconds().unwrap();
    assert!(0 <= r && r < 60);
}
