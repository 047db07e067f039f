//! What is remembered, and how.

use std::time::Duration;

use oneai_domain::memory_profile::{
    CheckpointGranularity, CrossSessionSurface, DecayPolicy, FactType, GroundTruthReconciliation,
    MemoryProfile, RecallConfig, RecallStrategy, Retention, SkillLifecyclePolicy, StorageRoot,
    WorkingStatePolicy, WorkingStateThickness,
};

#[test]
fn test_default_profile() {
    let p = MemoryProfile::default();
    assert_eq!(p.name, "default");
    assert!(p.extraction_schema.is_empty());
    assert!(!p.enable_memory_tools);
    assert_eq!(p.core_budget_tokens, 2048);
}

#[test]
fn test_coding_profile() {
    let p = MemoryProfile::coding();
    assert_eq!(p.name, "coding");
    assert!(p.enable_memory_tools);
    assert!(p.extraction_schema.contains(&FactType::new("user_tooling_pref")));
    assert!(p.habit_fact_types.contains(&FactType::new("user_tooling_pref")));
    assert!(p.extraction_schema.contains(&FactType::new("decision")));
    assert!(!p.habit_fact_types.contains(&FactType::new("decision")));
}

#[test]
fn test_merge_unions_schema_and_habits() {
    let a = MemoryProfile::coding();
    let b = MemoryProfile::research();
    let m = MemoryProfile::merge(&a, &b);
    assert!(m.extraction_schema.contains(&FactType::new("decision")));
    assert!(m.extraction_schema.contains(&FactType::new("claim")));
    assert!(m.habit_fact_types.contains(&FactType::new("user_tooling_pref")));
    assert!(m.habit_fact_types.contains(&FactType::new("source")));
}

#[test]
fn test_merge_takes_min_budget_and_or_tools() {
    let a = MemoryProfile::new("a").core_budget_tokens(2000).enable_memory_tools(true);
    let b = MemoryProfile::new("b").core_budget_tokens(1000).enable_memory_tools(false);
    let m = MemoryProfile::merge(&a, &b);
    assert_eq!(m.core_budget_tokens, 1000);
    assert!(m.enable_memory_tools);
}

#[test]
fn test_merge_takes_primary_recall() {
    let a = MemoryProfile::new("a").recall(RecallConfig {
        strategy: RecallStrategy::KeywordFirst,
        top_k: 3,
        time_decay: false,
    });
    let b = MemoryProfile::new("b").recall(RecallConfig::default());
    let m = MemoryProfile::merge(&a, &b);
    assert_eq!(m.recall.strategy, RecallStrategy::KeywordFirst);
    assert_eq!(m.recall.top_k, 3);
}

#[test]
fn test_merge_decay_strictest_wins() {
    // Saliences are in millionths.
    let a = MemoryProfile::new("a").decay(DecayPolicy {
        enabled: true,
        min_salience: 50_000,
        archive_forget_salience: 20_000,
        archive_ttl_secs: 90 * 24 * 3600,
        recency_half_life_secs: 7 * 24 * 3600,
        sweep_on_reflect: true,
    });
    let b = MemoryProfile::new("b").decay(DecayPolicy {
        enabled: false,
        min_salience: 200_000,
        archive_forget_salience: 100_000,
        archive_ttl_secs: 365 * 24 * 3600,
        recency_half_life_secs: 30 * 24 * 3600,
        sweep_on_reflect: false,
    });
    let m = MemoryProfile::merge(&a, &b);
    assert!(m.decay.enabled);
    assert_eq!(m.decay.min_salience, 50_000);
    assert_eq!(m.decay.archive_forget_salience, 20_000);
    assert_eq!(m.decay.archive_ttl_secs, 90 * 24 * 3600);
    assert_eq!(m.decay.recency_half_life_secs, 7 * 24 * 3600);
    assert!(!m.decay.sweep_on_reflect);
}

#[test]
fn test_coding_decay_off_research_on() {
    assert!(!MemoryProfile::coding().decay.enabled);
    assert!(MemoryProfile::research().decay.enabled);
}

#[test]
fn test_working_state_policy_presets() {
    let c = WorkingStatePolicy::coding();
    assert_eq!(c.storage_root, StorageRoot::InRepo);
    assert_eq!(c.ground_truth_reconciliation, GroundTruthReconciliation::Git);
    assert_eq!(c.retention, Retention::ArchiveOnComplete);
    assert_eq!(c.thickness, WorkingStateThickness::Thin);
    assert_eq!(c.compaction.event_threshold, 200);
    assert_eq!(c.compaction.keep_recent, 50);

    let a = WorkingStatePolicy::assistant();
    assert_eq!(a.storage_root, StorageRoot::HomeDir);
    assert_eq!(a.ground_truth_reconciliation, GroundTruthReconciliation::Nothing);
    assert_eq!(a.retention, Retention::Keep);
    assert_eq!(a.thickness, WorkingStateThickness::Thick);
    assert_eq!(a.compaction.event_threshold, 500);
}

#[test]
fn test_coding_profile_carries_coding_working_state_policy() {
    let p = MemoryProfile::coding();
    assert_eq!(p.working_state.ground_truth_reconciliation, GroundTruthReconciliation::Git);
    assert_eq!(p.working_state.storage_root, StorageRoot::InRepo);
}

#[test]
fn test_research_profile_carries_assistant_working_state_policy() {
    let p = MemoryProfile::research();
    assert_eq!(p.working_state.ground_truth_reconciliation, GroundTruthReconciliation::Nothing);
    assert_eq!(p.working_state.storage_root, StorageRoot::HomeDir);
}

#[test]
fn test_working_state_merge_takes_min_compaction() {
    let m = WorkingStatePolicy::merge(
        &WorkingStatePolicy::coding(),
        &WorkingStatePolicy::assistant(),
    );
    assert_eq!(m.compaction.event_threshold, 200);
    assert_eq!(m.compaction.keep_recent, 50);
    assert_eq!(m.storage_root, StorageRoot::InRepo);
}

#[test]
fn test_skill_lifecycle_presets() {
    let c = SkillLifecyclePolicy::coding();
    assert_eq!(c.stale_after, Duration::from_secs(30 * 24 * 3600).as_nanos());
    assert_eq!(c.archive_after, Duration::from_secs(90 * 24 * 3600).as_nanos());
    assert!(c.auto_transitions);
    assert_eq!(c.backup_count, 5);
    assert_eq!(c.storage_root, StorageRoot::HomeDir);

    let a = SkillLifecyclePolicy::assistant();
    assert!(a.stale_after > c.stale_after);
    assert!(a.archive_after > c.archive_after);
    assert!(a.grace_unused > c.grace_unused);
}

#[test]
fn test_coding_profile_carries_coding_skill_lifecycle() {
    let p = MemoryProfile::coding();
    assert_eq!(p.skill_lifecycle.stale_after, Duration::from_secs(30 * 24 * 3600).as_nanos());
    assert_eq!(p.skill_lifecycle.storage_root, StorageRoot::HomeDir);
}

#[test]
fn test_research_profile_carries_assistant_skill_lifecycle() {
    let p = MemoryProfile::research();
    assert_eq!(p.skill_lifecycle.archive_after, Duration::from_secs(180 * 24 * 3600).as_nanos());
}

#[test]
fn test_skill_lifecycle_merge_takes_min_thresholds() {
    let m = SkillLifecyclePolicy::merge(
        &SkillLifecyclePolicy::coding(),
        &SkillLifecyclePolicy::assistant(),
    );
    assert_eq!(m.stale_after, Duration::from_secs(30 * 24 * 3600).as_nanos());
    assert_eq!(m.archive_after, Duration::from_secs(90 * 24 * 3600).as_nanos());
    assert_eq!(m.backup_count, 5);
    assert!(m.auto_transitions);
    assert_eq!(m.storage_root, StorageRoot::HomeDir);
}

#[test]
fn test_skill_lifecycle_merge_auto_or_and_backup_min() {
    let a = SkillLifecyclePolicy {
        auto_transitions: false,
        backup_count: 8,
        ..SkillLifecyclePolicy::coding()
    };
    let b = SkillLifecyclePolicy {
        auto_transitions: true,
        backup_count: 3,
        ..SkillLifecyclePolicy::assistant()
    };
    let m = SkillLifecyclePolicy::merge(&a, &b);
    assert!(m.auto_transitions);
    assert_eq!(m.backup_count, 3);
}

#[test]
fn names_fall_back_to_the_usual() {
    assert_eq!(StorageRoot::from_str("home_dir"), StorageRoot::HomeDir);
    assert_eq!(StorageRoot::from_str("elsewhere"), StorageRoot::InRepo);
    assert_eq!(
        CheckpointGranularity::from_str("on_task_boundary"),
        CheckpointGranularity::OnTaskBoundary
    );
    assert_eq!(
        CheckpointGranularity::from_str("critical_nodes"),
        CheckpointGranularity::CriticalNodes
    );
    assert_eq!(CheckpointGranularity::from_str(""), CheckpointGranularity::EveryStep);
    assert_eq!(GroundTruthReconciliation::from_str("none"), GroundTruthReconciliation::Nothing);
    assert_eq!(GroundTruthReconciliation::from_str("x"), GroundTruthReconciliation::Git);
    assert_eq!(CrossSessionSurface::from_str("on_demand"), CrossSessionSurface::OnDemand);
    assert_eq!(CrossSessionSurface::from_str("x"), CrossSessionSurface::AutoInject);
    assert_eq!(Retention::from_str("keep"), Retention::Keep);
    assert_eq!(Retention::from_str("x"), Retention::ArchiveOnComplete);
    assert_eq!(WorkingStateThickness::from_str("thick"), WorkingStateThickness::Thick);
    assert_eq!(WorkingStateThickness::from_str("x"), WorkingStateThickness::Thin);
}

#[test]
fn merged_bounds_never_exceed_either_side() {
    let a = MemoryProfile::coding();
    let b = MemoryProfile::research();
    let m = MemoryProfile::merge(&a, &b);
    assert!(m.core_budget_tokens <= a.core_budget_tokens);
    assert!(m.core_budget_tokens <= b.core_budget_tokens);
    assert!(m.working_state.max_age_before_archive <= b.working_state.max_age_before_archive);
    assert!(m.skill_lifecycle.grace_unused <= b.skill_lifecycle.grace_unused);
}
