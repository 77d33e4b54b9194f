use orchestrator_studio::events::{event_id, nanos_or_zero, now_ns, EventType};
use orchestrator_studio::sink::{select_events, EventKey, SinkBuffer};
use orchestrator_studio::trackers::{CostTracker, ErrorTracker, RttTracker, TokenCounter};

fn blended(old: u64, rtt: u64) -> u64 {
    if old == 0 {
        rtt
    } else {
        (old as f64 * 0.9 + rtt as f64 * 0.1) as u64
    }
}

#[test]
fn event_type_names_match_python() {
    let cases = [
        (EventType::RequestReceived, "REQUEST_RECEIVED", 0),
        (EventType::AgentSelected, "AGENT_SELECTED", 1),
        (EventType::ContextUpdated, "CONTEXT_UPDATED", 2),
        (EventType::AgentResponseReceived, "AGENT_RESPONSE_RECEIVED", 3),
        (EventType::ResultConsolidated, "RESULT_CONSOLIDATED", 4),
        (EventType::LlmRequestSent, "LLM_REQUEST_SENT", 10),
        (EventType::LlmResultReceived, "LLM_RESULT_RECEIVED", 11),
        (EventType::LlmErrorReceived, "LLM_ERROR_RECEIVED", 12),
        (EventType::ToolCallRequested, "TOOL_CALL_REQUESTED", 20),
        (EventType::ToolCallExecuted, "TOOL_CALL_EXECUTED", 21),
        (EventType::ToolCallDenied, "TOOL_CALL_DENIED", 22),
        (EventType::PolicyDenied, "POLICY_DENIED", 30),
        (EventType::PolicyApplied, "POLICY_APPLIED", 31),
        (EventType::QosViolation, "QoS_VIOLATION", 40),
        (EventType::Error, "ERROR", 50),
    ];
    for (ty, name, code) in cases {
        assert_eq!(ty.name(), name);
        assert_eq!(ty.code(), code);
        assert_eq!(EventType::from_name(name), Some(ty));
    }
    assert_eq!(EventType::from_name("NOPE"), None);
}

#[test]
fn event_id_is_12_hex_chars() {
    let id = event_id(now_ns(), 1);
    assert_eq!(id.len(), 12);
    assert!(id.chars().all(|c| c.is_ascii_hexdigit()));
    assert!(now_ns() > 0);
}

#[test]
fn event_ids_are_unique_in_process() {
    let now = now_ns();
    let a = event_id(now, 1);
    let b = event_id(now, 2);
    assert_ne!(a, b);
}

#[test]
fn event_ids_distinct_for_many_counters_at_one_instant() {
    let now: u64 = 0x0123_4567_89AB_CDEF;
    let mut seen: Vec<String> = Vec::new();
    for c in 0..2000u64 {
        let id = event_id(now, c);
        assert!(!seen.contains(&id));
        seen.push(id);
    }
}

#[test]
fn event_id_exact_value_and_lowercase() {
    assert_eq!(event_id(0, 0), "000000000000");
    assert_eq!(event_id(0, 1), "79b97f4a7c15");
    assert_eq!(event_id(0x79B9_7F4A_7C15, 1), "000000000000");
    assert_eq!(event_id(0xFFFF_0000_0000_0001, 0), "000000000001");
}

#[test]
fn default_event_type_is_error() {
    assert_eq!(EventType::default(), EventType::Error);
}

#[test]
fn token_counter_basic() {
    let mut tc = TokenCounter::new();
    assert_eq!(tc.total(), 0);
    tc.record(100, 50);
    assert_eq!(tc.total_prompt(), 100);
    assert_eq!(tc.total_completion(), 50);
    assert_eq!(tc.total(), 150);
    assert_eq!(tc.count(), 1);
    tc.record(200, 100);
    assert_eq!(tc.total(), 450);
    assert_eq!(tc.count(), 2);
    tc.reset();
    assert_eq!(tc.total(), 0);
}

#[test]
fn trackers_rtt_tracker_ema() {
    let mut rt = RttTracker::new();
    let b = blended(rt.ema_ns(), 1_000_000);
    rt.record(1_000_000, b);
    assert_eq!(rt.ema_ns(), 1_000_000);
    let b = blended(rt.ema_ns(), 2_000_000);
    rt.record(2_000_000, b);
    assert_eq!(rt.ema_ns(), 1_100_000);
    assert_eq!(rt.mean_ns(), 1_500_000);
    assert_eq!(rt.count(), 2);
}

#[test]
fn error_tracker_categories() {
    let mut et = ErrorTracker::new();
    et.record(0);
    et.record(0);
    et.record(3);
    assert_eq!(et.total(), 3);
    assert_eq!(et.by_category(0), 2);
    assert_eq!(et.by_category(3), 1);
    assert_eq!(et.by_category(7), 0);
    et.reset();
    assert_eq!(et.total(), 0);
    assert_eq!(et.by_category(0), 0);
}

#[test]
fn cost_tracker_precision() {
    let mut ct = CostTracker::new();
    ct.record_micro_usd((0.001f64 * 1_000_000.0) as u64);
    ct.record_micro_usd((0.002f64 * 1_000_000.0) as u64);
    let total_usd = ct.total_micro_usd() as f64 / 1_000_000.0;
    let mean_usd = total_usd / ct.count() as f64;
    assert!((total_usd - 0.003).abs() < 1e-9);
    assert!((mean_usd - 0.0015).abs() < 1e-9);
    assert_eq!(ct.count(), 2);
    ct.reset();
    assert_eq!(ct.total_micro_usd(), 0);
    assert_eq!(ct.count(), 0);
}

#[test]
fn emit_buffers_until_flush_interval() {
    let mut sink: SinkBuffer<u32> = SinkBuffer::new(50);
    for i in 0..49 {
        assert!(!sink.emit(i));
    }
    assert_eq!(sink.emitted_count(), 49);
    assert_eq!(sink.flushed_count(), 0);
    assert!(sink.emit(49));
    assert_eq!(sink.pending().len(), 50);
    sink.written();
    assert_eq!(sink.flushed_count(), 50);
    assert!(sink.pending().is_empty());
}

#[test]
fn explicit_flush_writes_pending_buffer() {
    let mut sink: SinkBuffer<&str> = SinkBuffer::new(100);
    assert!(!sink.emit("ERROR"));
    assert_eq!(sink.pending().len(), 1);
    sink.written();
    assert_eq!(sink.flushed_count(), 1);
    assert!(sink.pending().is_empty());
}

#[test]
fn failed_write_keeps_buffer_and_counts_error() {
    let mut sink: SinkBuffer<u8> = SinkBuffer::new(1);
    assert!(sink.emit(7));
    sink.write_failed();
    assert_eq!(sink.write_error_count(), 1);
    assert_eq!(sink.pending().len(), 1);
    assert_eq!(sink.flushed_count(), 0);
}

fn keys() -> Vec<EventKey> {
    (0..10)
        .map(|i| EventKey {
            task_id: format!("task-{}", i % 3),
            event_type: if i % 2 == 0 { EventType::LlmResultReceived } else { EventType::Error },
        })
        .collect()
}

#[test]
fn query_filters_by_task_type_and_limit() {
    let k = keys();
    let all = select_events(&k, "", None, 100);
    assert_eq!(all.len(), 10);
    let by_task = select_events(&k, "task-1", None, 100);
    assert!(by_task.iter().all(|&i| k[i].task_id == "task-1"));
    assert_eq!(by_task, vec![1, 4, 7]);
    let errors = select_events(&k, "", Some(EventType::Error), 2);
    assert_eq!(errors, vec![1, 3]);
}

#[test]
fn query_returns_at_most_limit_results() {
    let k = keys();
    assert!(select_events(&k, "task-2", None, 0).is_empty());
    assert!(select_events(&k, "", None, 0).is_empty());
    assert_eq!(select_events(&k, "", None, 1), vec![0]);
    assert_eq!(select_events(&k, "task-2", None, 2), vec![2, 5]);
}

#[test]
fn clock_reading_truncated_to_64_bits_or_zero() {
    assert_eq!(nanos_or_zero(None), 0);
    assert_eq!(nanos_or_zero(Some(1_700_000_000_000_000_000)), 1_700_000_000_000_000_000);
    assert_eq!(nanos_or_zero(Some(u128::from(u64::MAX) + 6)), 5);
}
