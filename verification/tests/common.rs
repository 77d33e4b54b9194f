use orchestrator_studio::common::instrumentation::{truncated_ns, ErrorCounter, LatencySpan, RttTracker};
use orchestrator_studio::common::{
    AgentHealth, ComponentType, FinishReason, ModelSpecialization, SecurityLevel, TaskPriority, TaskStatus,
    ToolCallStatus,
};

fn blended(old: u64, rtt: u64) -> u64 {
    if old == 0 {
        rtt
    } else {
        (old as f64 * 0.9 + rtt as f64 * 0.1) as u64
    }
}

#[test]
fn task_status_variants() {
    assert_ne!(TaskStatus::Pending, TaskStatus::Running);
    assert_ne!(TaskStatus::Done, TaskStatus::Failed);
}

#[test]
fn model_specialization_discriminants_and_routing_are_canonical() {
    assert_eq!(i32::from(ModelSpecialization::Text), 0);
    assert_eq!(i32::from(ModelSpecialization::Vision), 1);
    assert_eq!(i32::from(ModelSpecialization::Embedding), 2);
    assert_eq!(i32::from(ModelSpecialization::Transcription), 3);
    assert!(ModelSpecialization::Text.can_serve(ModelSpecialization::Vision));
    assert!(ModelSpecialization::Text.can_serve(ModelSpecialization::Embedding));
    assert!(ModelSpecialization::Text.can_serve(ModelSpecialization::Transcription));
    assert!(ModelSpecialization::Vision.can_serve(ModelSpecialization::Text));
    assert!(!ModelSpecialization::Vision.can_serve(ModelSpecialization::Embedding));
    assert!(ModelSpecialization::Transcription.can_serve(ModelSpecialization::Transcription));
    assert!(ModelSpecialization::try_from(-1).is_err());
    assert!(ModelSpecialization::try_from(4).is_err());
}

#[test]
fn lib_rtt_tracker_ema() {
    let mut rt = RttTracker::new();
    let b = blended(rt.ema_ns(), 1000);
    rt.record(1000, b);
    assert_eq!(rt.ema_ns(), 1000);
    let b = blended(rt.ema_ns(), 2000);
    rt.record(2000, b);
    // EMA: 0.9 * 1000 + 0.1 * 2000 = 1100
    assert_eq!(rt.ema_ns(), 1100);
    assert_eq!(rt.count(), 2);
}

#[test]
fn error_counter_basic() {
    let mut ec = ErrorCounter::new();
    ec.record(0);
    ec.record(0);
    ec.record(3);
    assert_eq!(ec.total(), 3);
    assert_eq!(ec.by_category(0), 2);
    assert_eq!(ec.by_category(3), 1);
    assert_eq!(ec.by_category(7), 0);
}

#[test]
fn latency_span_measures_time() {
    let span = LatencySpan::start("test");
    let begun = std::time::Instant::now();
    while begun.elapsed() < std::time::Duration::from_millis(10) {
        std::hint::spin_loop();
    }
    let ns = span.finish();
    assert!(ns >= 10_000_000);
}

#[test]
fn enum_codes_roundtrip_through_i32() {
    for s in [TaskStatus::Pending, TaskStatus::Running, TaskStatus::Done, TaskStatus::Failed] {
        assert_eq!(TaskStatus::try_from(i32::from(s)).ok(), Some(s));
    }
    assert_eq!(i32::from(TaskPriority::Low), 1);
    assert_eq!(i32::from(TaskPriority::Normal), 5);
    assert_eq!(i32::from(TaskPriority::High), 10);
    assert!(TaskPriority::try_from(2).is_err());
    assert_eq!(TaskPriority::try_from(10).ok(), Some(TaskPriority::High));
    assert!(AgentHealth::try_from(99).is_err());
    assert!(ComponentType::try_from(-5).is_err());
    assert!(SecurityLevel::try_from(1000).is_err());
    assert!(ToolCallStatus::try_from(-1).is_err());
    assert_eq!(FinishReason::try_from(i32::from(FinishReason::Unset)).ok(), Some(FinishReason::Unset));
}

#[test]
fn unknown_value_names_the_enum() {
    let err = TaskStatus::try_from(42).expect_err("unknown");
    assert_eq!(err.enum_name, "TaskStatus");
    assert_eq!(err.value, 42);
}

#[test]
fn error_counter_ignores_out_of_range_category_beyond_total() {
    let mut ec = ErrorCounter::new();
    ec.record(8);
    ec.record(100);
    assert_eq!(ec.total(), 2);
    for c in 0..8 {
        assert_eq!(ec.by_category(c), 0);
    }
    assert_eq!(ec.by_category(8), 0);
}

#[test]
fn rtt_mean_is_zero_without_samples_and_reset_clears() {
    let mut rt = RttTracker::new();
    assert_eq!(rt.mean_ns(), 0);
    rt.record(3000, 3000);
    rt.record(5000, 3200);
    assert_eq!(rt.mean_ns(), 4000);
    rt.reset();
    assert_eq!(rt.count(), 0);
    assert_eq!(rt.ema_ns(), 0);
    assert_eq!(rt.mean_ns(), 0);
}

#[test]
fn unknown_value_message_names_enum_and_value() {
    let err = TaskStatus::try_from(-3).expect_err("unknown");
    assert_eq!(err.message(), "valor i32 desconhecido para TaskStatus: -3");
}

#[test]
fn nanoseconds_keep_the_low_64_bits() {
    assert_eq!(truncated_ns(42), 42);
    assert_eq!(truncated_ns(u128::from(u64::MAX)), u64::MAX);
    assert_eq!(truncated_ns(1u128 << 64), 0);
    assert_eq!(truncated_ns((3u128 << 64) + 7), 7);
}
