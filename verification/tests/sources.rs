//! What an agent is told of its surroundings.

use oneai_domain::builtin_sources::{
    date_content, detect_drift, environment_content, file_tree_content, git_result,
    git_status_content, instruction_candidates, instruction_names, is_clean_status, is_dirty, parse_status_line,
    pick_instructions, project_config_content, reconcile, ChangeKind, DateSource,
    EnvironmentInfoSource, FileTreeSource, GitReconciliationSource, GitStatusSource,
    InstructionBase, ProjectConfigSource, ProjectInstructionsSource, ReportOnce,
};
use oneai_domain::context_source::{context_message, ContextSource, RefreshPolicy};
use oneai_domain::working_state::{Step, StepStatus, TaskStatus, WorkingState};

#[test]
fn test_date_source() {
    let source = DateSource::new();
    assert_eq!(source.key(), "date");
    assert_eq!(source.priority(), 5);

    let content = date_content("2026-07-01", "12:30:00", "Wednesday");
    assert!(content.contains("Current Date:"));
    assert!(content.contains("Current Time:"));
    assert!(content.contains("2026-07-01"));
    assert!(content.contains("Wednesday"));
}

#[test]
fn test_environment_info_source() {
    let source = EnvironmentInfoSource::new();
    assert_eq!(source.key(), "environment");
    assert_eq!(source.priority(), 15);

    let content = environment_content(Some("/work"), "linux", "x86_64", Some("/bin/zsh"), false);
    assert!(content.contains("Working Directory:"));
    assert!(content.contains("Platform:"));
    assert!(content.contains("/work"));
    assert!(content.contains("x86_64"));
}

#[test]
fn test_project_config_source() {
    let source = ProjectConfigSource::new("/Users/maxf/github/new/OneAI");
    assert_eq!(source.key(), "project_config");

    let content = project_config_content(Some("[workspace]\nmembers = [\"crates/*\"]\n"), None);
    assert!(content.contains("Project Config"));
    assert!(content.contains("members"));
}

#[test]
fn test_file_tree_source() {
    let source = FileTreeSource::new("/Users/maxf/github/new/OneAI");
    assert_eq!(source.key(), "file_tree");

    let content = file_tree_content(Some("./src\n./src/lib.rs\n"));
    assert!(content.contains("Project Structure"));
    assert!(content.contains("./src/lib.rs"));
}

#[test]
fn test_git_status_source() {
    let source = GitStatusSource::new("/Users/maxf/github/new/OneAI");
    assert_eq!(source.key(), "git_status");

    let status = " M src/lib.rs\n?? notes.md\n D old.rs\n";
    assert!(is_clean_status(status));
    let content = git_status_content(Some("main"), Some(status), Some("abc one\ndef two"));
    assert!(content.contains("Git Branch:"));
    assert!(content.contains("Changes:"));
    assert!(content.contains("Recent Commits:"));
    assert!(content.contains("src/lib.rs"));
    assert!(content.contains("notes.md"));
    assert!(content.contains("old.rs"));
}

#[test]
fn test_project_instructions_source() {
    let source = ProjectInstructionsSource::new("/Users/maxf/github/new/OneAI");
    assert_eq!(source.key(), "project_instructions");
    assert_eq!(source.priority(), 1);
    assert_eq!(source.refresh_policy(), RefreshPolicy::OnceAtStart);
}

#[test]
fn test_refresh_policies() {
    assert_eq!(GitStatusSource::new(".").refresh_policy(), RefreshPolicy::OnChange);
    assert_eq!(FileTreeSource::new(".").refresh_policy(), RefreshPolicy::OnceAtStart);
    assert_eq!(ProjectConfigSource::new(".").refresh_policy(), RefreshPolicy::OnceAtStart);
    let hour = std::time::Duration::from_secs(3600).as_nanos();
    assert_eq!(DateSource::new().refresh_policy(), RefreshPolicy::Periodic(hour));
    assert_eq!(EnvironmentInfoSource::new().refresh_policy(), RefreshPolicy::OnceAtStart);
}

fn ws_with_updated_at(updated_at: &str) -> WorkingState {
    let mut ws = WorkingState {
        task_id: "t1".into(),
        user_id: String::new(),
        project: String::new(),
        goal: "ship feature".into(),
        intent: String::new(),
        status: TaskStatus::Active,
        steps: Vec::new(),
        decisions: Vec::new(),
        blockers: Vec::new(),
        notes: Vec::new(),
        owner_session: String::new(),
        created_at: "2026-01-01T00:00:00+00:00".into(),
        updated_at: updated_at.into(),
    };
    ws.steps.push(Step {
        id: "s1".into(),
        description: "do thing".into(),
        status: StepStatus::InProgress,
        depends_on: vec![],
        order: 1,
        active_form: None,
        updated_at: String::new(),
    });
    ws
}

#[test]
fn detect_drift_head_newer_flags_stale() {
    let ws = ws_with_updated_at("2026-01-15T00:00:00+00:00");
    let r = detect_drift(Some("2026-07-01T00:00:00+00:00"), false, &ws);
    assert!(r.drift);
    assert!(r.summary.contains("HEAD advanced"));
    let block = r.render_block();
    assert!(block.contains("[Reconciliation]"));
    assert!(block.contains("STALE"));
}

#[test]
fn detect_drift_head_older_is_clean() {
    let ws = ws_with_updated_at("2026-07-01T00:00:00+00:00");
    let r = detect_drift(Some("2026-01-15T00:00:00+00:00"), false, &ws);
    assert!(!r.drift);
    assert!(r.render_block().is_empty());
}

#[test]
fn detect_drift_dirty_oneai_flags_stale() {
    let ws = ws_with_updated_at("2026-07-01T00:00:00+00:00");
    let r = detect_drift(Some("2026-07-01T00:00:00+00:00"), true, &ws);
    assert!(r.drift);
    assert!(r.summary.contains("uncommitted"));
}

#[test]
fn detect_drift_no_git_no_drift() {
    let ws = ws_with_updated_at("2026-01-01T00:00:00+00:00");
    let r = detect_drift(None, false, &ws);
    assert!(!r.drift);
}

#[test]
fn git_reconciliation_source_skips_when_task_missing() {
    let src = GitReconciliationSource::new(".", "nonexistent_task", "sess");
    let outcome = reconcile(None, Some("2026-07-01T00:00:00+00:00"), Some(true));
    assert!(outcome.block.is_empty());
    assert!(outcome.event.is_none());
    assert_eq!(src.refresh_policy(), RefreshPolicy::OnResume);
    assert_eq!(src.priority(), 3);
    assert_eq!(src.project_dir(), ".");
    assert_eq!(src.task_id(), "nonexistent_task");
    assert_eq!(src.session_id(), "sess");
}

#[test]
fn reconciliation_writes_down_what_drifted() {
    let ws = ws_with_updated_at("2026-01-15T00:00:00+00:00");
    let moved = reconcile(Some(&ws), Some("2026-07-01T00:00:00+00:00"), None);
    assert!(moved.block.contains("STALE"));
    assert!(moved.event.unwrap().drift);
    let still = reconcile(Some(&ws), Some("2025-07-01T00:00:00+00:00"), Some(false));
    assert!(still.block.is_empty());
    assert!(still.event.is_none());
}

#[test]
fn each_status_line_counts_once() {
    assert_eq!(
        parse_status_line(" M src/lib.rs"),
        Some((ChangeKind::Modified, "src/lib.rs".to_string()))
    );
    assert_eq!(
        parse_status_line("?? new.txt"),
        Some((ChangeKind::Created, "new.txt".to_string()))
    );
    assert_eq!(
        parse_status_line(" D gone.txt"),
        Some((ChangeKind::Deleted, "gone.txt".to_string()))
    );
    assert_eq!(parse_status_line(""), None);
}

#[test]
fn a_status_that_cannot_be_cut_is_told() {
    assert!(is_clean_status("?? a\n"));
    assert!(is_clean_status(""));
    assert!(!is_clean_status("\u{e9}\u{e9}\n"));
}

#[test]
fn failed_commands_print_nothing() {
    assert_eq!(git_result(true, " main\n"), Some("main".to_string()));
    assert_eq!(git_result(false, "main"), None);
    assert_eq!(is_dirty(Some("")), Some(false));
    assert_eq!(is_dirty(Some(" M .oneai/x")), Some(true));
    assert_eq!(is_dirty(None), None);
}

#[test]
fn instructions_of_the_project_come_first() {
    let candidates = instruction_candidates(&instruction_names("HOUSE.md"));
    assert_eq!(candidates[0], (InstructionBase::Project, "ONEAI.md".to_string()));
    let home = candidates.iter().position(|c| c.0 == InstructionBase::Home).unwrap();
    assert!(candidates[..home].iter().all(|c| c.0 == InstructionBase::Project));
    assert!(candidates[home..].iter().all(|c| c.0 == InstructionBase::Home));

    let found = vec![None, Some("  \n".to_string()), Some("rules".to_string())];
    assert_eq!(pick_instructions(&found), Some("rules".to_string()));
    assert_eq!(pick_instructions(&vec![None]), None);
}

#[test]
fn a_large_tree_is_cut() {
    let tree = "x".repeat(5000);
    let content = file_tree_content(Some(&tree));
    assert!(content.len() < 2200);
    assert!(file_tree_content(None).len() < 200);
}

#[test]
fn messages_carry_their_key() {
    let message = context_message("date", "today");
    assert!(message.contains("date"));
    assert!(message.contains("today"));
}

#[test]
fn without_a_commit_nothing_is_stale() {
    let ws = ws_with_updated_at("2026-01-01T00:00:00+00:00");
    let r = detect_drift(None, true, &ws);
    assert!(!r.drift);
    assert!(r.render_block().is_empty());
}

#[test]
fn drift_is_reported_once() {
    let ws = ws_with_updated_at("2026-01-01T00:00:00+00:00");
    let head = Some("2026-07-01T00:00:00+00:00");
    let mut once = ReportOnce::new();
    assert!(!once.is_spent());
    let first = once.report(Some(&ws), head, Some(false));
    assert!(first.block.contains("[Reconciliation]"));
    assert!(first.event.is_some());
    assert!(once.is_spent());
    let second = once.report(Some(&ws), head, Some(false));
    assert!(second.block.is_empty());
    assert!(second.event.is_none());
}
