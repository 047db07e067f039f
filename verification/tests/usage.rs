//! Records of use and their sums.

use oneai_domain::usage::{summarize_models, InMemoryUsageTracker, UsageRecord, UsageSummary};

fn record(session: &str, model: &str, provider: &str, prompt: u32, completion: u32) -> UsageRecord {
    UsageRecord::new(
        session.to_string(),
        model.to_string(),
        provider.to_string(),
        prompt,
        completion,
    )
}

#[test]
fn test_usage_record_creation() {
    let record = record("sess1", "gpt-4o", "openai", 100, 50);
    assert_eq!(record.session_id, "sess1");
    assert_eq!(record.model, "gpt-4o");
    assert_eq!(record.prompt_tokens, 100);
    assert_eq!(record.completion_tokens, 50);
    assert_eq!(record.total_tokens(), 150);
    assert!(record.metadata.is_empty());
}

#[test]
fn test_usage_record_with_metadata() {
    let record = record("sess1", "gpt-4o", "openai", 100, 50)
        .with_metadata("tool".to_string(), "shell".to_string())
        .with_metadata("iteration".to_string(), "3".to_string());
    assert_eq!(record.metadata.get("tool"), Some(&"shell".to_string()));
    assert_eq!(record.metadata.get("iteration"), Some(&"3".to_string()));
}

#[test]
fn test_usage_summary_empty() {
    let summary = UsageSummary::empty();
    assert_eq!(summary.total_tokens, 0);
    assert_eq!(summary.call_count, 0);
}

#[test]
fn test_usage_summary_from_records() {
    let records = vec![
        record("sess1", "gpt-4o", "openai", 100, 50),
        record("sess1", "gpt-4o", "openai", 200, 100),
    ];
    let summary = UsageSummary::from_records(&records);
    assert_eq!(summary.total_tokens, 450);
    assert_eq!(summary.prompt_tokens, 300);
    assert_eq!(summary.completion_tokens, 150);
    assert_eq!(summary.call_count, 2);
}

#[test]
fn test_usage_summary_add_record() {
    let mut summary = UsageSummary::empty();
    let record = record("sess1", "gpt-4o", "openai", 100, 50);
    summary.add_record(&record);
    assert_eq!(summary.total_tokens, 150);
    assert_eq!(summary.call_count, 1);
}

#[test]
fn estimated_record_takes_the_new_counts() {
    let plain = record("s", "gpt-4o", "openai", 100, 50);
    assert!(!plain.is_estimated);

    let estimated = record("s", "gpt-4o", "openai", 0, 0).estimated(120, 60);
    assert!(estimated.is_estimated);
    assert_eq!(estimated.prompt_tokens, 120);
    assert_eq!(estimated.completion_tokens, 60);
}

#[test]
fn test_usage_summary_counts_estimated_calls() {
    let records = vec![
        record("s", "m", "p", 100, 50),
        record("s", "m", "p", 0, 0).estimated(200, 100),
        record("s", "m", "p", 0, 0).estimated(300, 150),
    ];
    let summary = UsageSummary::from_records(&records);
    assert_eq!(summary.call_count, 3);
    assert_eq!(summary.estimated_call_count, 2);
    assert_eq!(summary.prompt_tokens, 100 + 200 + 300);
    assert_eq!(summary.completion_tokens, 50 + 100 + 150);
}

#[test]
fn tracker_record_and_query() {
    let mut tracker = InMemoryUsageTracker::new();
    tracker.record_usage(record("sess1", "gpt-4o", "openai", 100, 50));
    tracker.record_usage(record("sess1", "sonnet-4", "anthropic", 200, 100));

    let session_usage = tracker.session_usage("sess1");
    assert_eq!(session_usage.call_count, 2);
    assert_eq!(session_usage.total_tokens, 450);

    let global_usage = tracker.global_usage();
    assert_eq!(global_usage.call_count, 2);
}

#[test]
fn tracker_per_model_breakdown() {
    let mut tracker = InMemoryUsageTracker::new();
    tracker.record_usage(record("sess1", "gpt-4o", "openai", 100, 50));
    tracker.record_usage(record("sess1", "sonnet-4", "anthropic", 200, 100));
    tracker.record_usage(record("sess1", "gpt-4o", "openai", 300, 150));

    let by_model = tracker.usage_by_model("sess1");
    assert_eq!(by_model.len(), 2);

    let gpt4o = by_model.get("gpt-4o").unwrap();
    assert_eq!(gpt4o.call_count, 2);
    assert_eq!(gpt4o.total_tokens, 600);

    let sonnet = by_model.get("sonnet-4").unwrap();
    assert_eq!(sonnet.call_count, 1);
    assert_eq!(sonnet.total_tokens, 300);
}

#[test]
fn tracker_clear() {
    let mut tracker = InMemoryUsageTracker::new();
    tracker.record_usage(record("sess1", "gpt-4o", "openai", 100, 50));
    tracker.record_usage(record("sess2", "gpt-4o", "openai", 100, 50));

    tracker.clear_session("sess1");
    assert_eq!(tracker.session_usage("sess1").call_count, 0);
    assert_eq!(tracker.global_usage().call_count, 1);

    tracker.clear_all();
    assert_eq!(tracker.global_usage().call_count, 0);
}

#[test]
fn tracker_session_records() {
    let mut tracker = InMemoryUsageTracker::new();
    tracker.record_usage(record("sess1", "gpt-4o", "openai", 100, 50));
    tracker.record_usage(record("sess1", "sonnet-4", "anthropic", 200, 100));

    let records = tracker.session_records("sess1");
    assert_eq!(records.len(), 2);
    assert_eq!(records[0].model, "gpt-4o");
    assert_eq!(records[1].model, "sonnet-4");
}

#[test]
fn a_new_record_holds_the_present_time() {
    let nanos = |time: chrono::DateTime<chrono::Utc>| time.timestamp_nanos_opt().unwrap() as i128;
    let before = nanos(chrono::Utc::now());
    let now = record("s", "m", "p", 1, 1).timestamp;
    let after = nanos(chrono::Utc::now());
    assert!(before <= now && now <= after, "{} {} {}", before, now, after);
}

#[test]
fn sums_over_models_add_up() {
    let records = vec![
        record("a", "x", "p", 1, 2),
        record("b", "y", "p", 3, 4),
        record("a", "x", "p", 5, 6),
    ];
    let by_model = summarize_models(&records);
    assert_eq!(by_model.len(), 2);
    assert_eq!(by_model.get("x").unwrap().total_tokens, 14);
    assert_eq!(by_model.get("y").unwrap().total_tokens, 7);
    assert!(by_model.get("z").is_none());
}

#[test]
fn large_counts_do_not_overflow() {
    let record = record("s", "m", "p", u32::MAX, u32::MAX);
    assert_eq!(record.total_tokens(), 2 * (u32::MAX as u64));
}
