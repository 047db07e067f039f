//! Permissions: what is refused, run without asking, or asked about.

use oneai_domain::collections::{NameSet, Table};
use oneai_domain::permission_profile::{
    stricter_level, stricter_policy, DenyPattern, ExecDecision, ExecPolicy, ExecRule, PatternToken,
    PermissionProfile, Verdict,
};
use oneai_domain::types::{ApprovalPolicy, PermissionAction, PermissionLevel};

fn json(source: &str) -> serde_json::Value {
    serde_json::from_str(source).unwrap()
}

fn names(list: &[&str]) -> NameSet {
    NameSet::from_names(list.iter().map(|s| s.to_string()).collect())
}

#[test]
fn test_deny_pattern_exact_match() {
    let pattern = DenyPattern::deny_tool("shell", "Dangerous");
    assert!(pattern.matches("shell", &json("{}")));
    assert!(!pattern.matches("read_file", &json("{}")));
}

#[test]
fn test_deny_pattern_with_args() {
    let pattern = DenyPattern::deny_tool_args("shell", "rm.*-rf", "Irreversible deletion");
    assert!(pattern.matches("shell", &json(r#"{"command": "rm -rf /"}"#)));
    assert!(!pattern.matches("shell", &json(r#"{"command": "ls"}"#)));
}

#[test]
fn test_permission_profile_resolve_deny() {
    let profile = PermissionProfile {
        name: "coding".to_string(),
        auto_approve: NameSet::new(),
        require_confirmation: NameSet::new(),
        deny_by_default: vec![DenyPattern::deny_tool_args("shell", "rm.*-rf", "Root deletion")],
        permission_overrides: Table::new(),
        default_threshold: PermissionLevel::Standard,
        ..Default::default()
    };

    let action = profile.resolve("shell", &json(r#"{"command": "rm -rf /"}"#));
    assert_eq!(action, PermissionAction::Deny { reason: "Root deletion".to_string() });
}

#[test]
fn test_permission_profile_resolve_auto_approve() {
    let profile = PermissionProfile {
        name: "coding".to_string(),
        auto_approve: names(&["read_file", "grep"]),
        default_threshold: PermissionLevel::Standard,
        ..Default::default()
    };

    let action = profile.resolve("read_file", &json(r#"{"path": "/tmp/test"}"#));
    assert_eq!(action, PermissionAction::AutoApprove);
}

#[test]
fn test_permission_profile_resolve_require_confirmation() {
    let profile = PermissionProfile {
        name: "coding".to_string(),
        auto_approve: names(&["read_file"]),
        require_confirmation: names(&["shell"]),
        default_threshold: PermissionLevel::Standard,
        ..Default::default()
    };

    let action = profile.resolve("shell", &json(r#"{"command": "echo hi"}"#));
    assert_eq!(action, PermissionAction::RequireConfirmation);
}

#[test]
fn test_permission_profile_resolve_override() {
    let profile = PermissionProfile {
        name: "research".to_string(),
        permission_overrides: Table::from_pairs(vec![(
            "shell".to_string(),
            PermissionLevel::Full,
        )]),
        default_threshold: PermissionLevel::Read,
        ..Default::default()
    };

    let action = profile.resolve("shell", &json("{}"));
    assert_eq!(action, PermissionAction::UseDefaultPermission { level: PermissionLevel::Full });
}

#[test]
fn test_permission_profile_merge_strictest() {
    let coding = PermissionProfile {
        name: "coding".to_string(),
        auto_approve: names(&["read_file", "grep"]),
        require_confirmation: names(&["shell"]),
        deny_by_default: vec![DenyPattern::deny_tool("shell_dangerous", "Dangerous")],
        permission_overrides: Table::from_pairs(vec![(
            "shell".to_string(),
            PermissionLevel::Full,
        )]),
        default_threshold: PermissionLevel::Standard,
        ..Default::default()
    };

    let research = PermissionProfile {
        name: "research".to_string(),
        auto_approve: names(&["grep", "web_search"]),
        require_confirmation: names(&["web_fetch"]),
        deny_by_default: vec![DenyPattern::deny_tool("shell", "Research doesn't need shell")],
        permission_overrides: Table::from_pairs(vec![(
            "shell".to_string(),
            PermissionLevel::Full,
        )]),
        default_threshold: PermissionLevel::Read,
        ..Default::default()
    };

    let merged = PermissionProfile::merge_strictest(&coding, &research);

    assert!(merged.auto_approve.contains("grep"));
    assert!(!merged.auto_approve.contains("read_file"));
    assert!(!merged.auto_approve.contains("web_search"));

    assert!(merged.require_confirmation.contains("shell"));
    assert!(merged.require_confirmation.contains("web_fetch"));

    assert_eq!(merged.deny_by_default.len(), 2);
    assert_eq!(merged.default_threshold, PermissionLevel::Standard);
}

fn rule(program: &str, decision: ExecDecision) -> ExecRule {
    ExecRule {
        pattern: vec![PatternToken::Single(program.into())],
        decision,
        justification: Some("test".into()),
        match_examples: Vec::new(),
        not_match_examples: Vec::new(),
    }
}

#[test]
fn exec_policy_merge_unions_rules_from_both_domains() {
    let mut coding = PermissionProfile::new("coding".to_string());
    coding.exec_policy = Some(ExecPolicy::from_rules(vec![rule("git", ExecDecision::Allow)]));
    let mut research = PermissionProfile::new("research".to_string());
    research.exec_policy = Some(ExecPolicy::from_rules(vec![rule("curl", ExecDecision::Deny)]));

    let merged = PermissionProfile::merge_strictest(&coding, &research);
    let ep = merged.exec_policy.expect("merged policy present");
    assert_eq!(ep.rule_count(), 2);
    assert!(matches!(ep.evaluate(&vec!["git".to_string()]), Some(Verdict::Allow { .. })));
    assert!(matches!(ep.evaluate(&vec!["curl".to_string()]), Some(Verdict::Deny { .. })));
}

#[test]
fn exec_policy_merge_one_side_none_takes_other() {
    let mut coding = PermissionProfile::new("coding".to_string());
    coding.exec_policy = Some(ExecPolicy::from_rules(vec![rule("ls", ExecDecision::Allow)]));
    let research = PermissionProfile::new("research".to_string());

    let merged = PermissionProfile::merge_strictest(&coding, &research);
    let ep = merged.exec_policy.expect("coding's policy carried");
    assert_eq!(ep.rule_count(), 1);
    assert!(matches!(ep.evaluate(&vec!["ls".to_string()]), Some(Verdict::Allow { .. })));
}

#[test]
fn exec_policy_merge_both_none_yields_none() {
    let coding = PermissionProfile::new("coding".to_string());
    let research = PermissionProfile::new("research".to_string());
    let merged = PermissionProfile::merge_strictest(&coding, &research);
    assert!(merged.exec_policy.is_none());
}

#[test]
fn a_rule_of_two_words_needs_both() {
    let policy = ExecPolicy::from_rules(vec![ExecRule {
        pattern: vec![
            PatternToken::Single("git".into()),
            PatternToken::Single("commit".into()),
        ],
        decision: ExecDecision::Allow,
        justification: Some("project rule".into()),
        match_examples: vec!["git commit -m x".into()],
        not_match_examples: vec!["git push".into()],
    }]);
    let words = |line: &str| -> Vec<String> {
        line.split_whitespace().map(|w| w.to_string()).collect()
    };
    assert_eq!(policy.rule_count(), 1);
    assert!(matches!(policy.evaluate(&words("git commit -m x")), Some(Verdict::Allow { .. })));
    assert!(policy.evaluate(&words("git push")).is_none());
}

#[test]
fn test_stricter_level() {
    assert_eq!(
        stricter_level(PermissionLevel::Read, PermissionLevel::Standard),
        PermissionLevel::Standard
    );
    assert_eq!(
        stricter_level(PermissionLevel::Standard, PermissionLevel::Full),
        PermissionLevel::Full
    );
    assert_eq!(
        stricter_level(PermissionLevel::Read, PermissionLevel::Read),
        PermissionLevel::Read
    );
}

#[test]
fn a_policy_that_asks_more_is_stricter() {
    assert_eq!(
        stricter_policy(ApprovalPolicy::Never, ApprovalPolicy::OnRequest),
        ApprovalPolicy::OnRequest
    );
    assert_eq!(
        stricter_policy(ApprovalPolicy::OnUntrustedDir, ApprovalPolicy::OnFailure),
        ApprovalPolicy::OnUntrustedDir
    );
}

#[test]
fn patterns_of_tools_are_regular_expressions() {
    let pattern = DenyPattern::deny_tool("^shell.*", "no shells");
    assert!(pattern.matches("shell_exec", &json("{}")));
    assert!(!pattern.matches("my_tool", &json("{}")));
    // A pattern that cannot be read matches only the same name.
    let broken = DenyPattern::deny_tool("shell(", "broken");
    assert!(broken.matches("shell(", &json("{}")));
    assert!(!broken.matches("shell", &json("{}")));
}

#[test]
fn refusal_wins_over_approval() {
    let profile = PermissionProfile {
        auto_approve: names(&["shell"]),
        deny_by_default: vec![DenyPattern::deny_tool("shell", "never")],
        ..Default::default()
    };
    assert_eq!(
        profile.resolve("shell", &json("{}")),
        PermissionAction::Deny { reason: "never".to_string() }
    );
    assert_eq!(
        profile.resolve_refused("shell", &vec![true]),
        PermissionAction::Deny { reason: "never".to_string() }
    );
    assert_eq!(profile.resolve_refused("shell", &vec![false]), PermissionAction::AutoApprove);
}

#[test]
fn a_profile_merged_with_itself_decides_the_same() {
    let profile = PermissionProfile {
        auto_approve: names(&["grep"]),
        require_confirmation: names(&["shell"]),
        deny_by_default: vec![DenyPattern::deny_tool("rm", "no")],
        ..Default::default()
    };
    let merged = PermissionProfile::merge_strictest(&profile, &profile);
    for tool in ["grep", "shell", "rm", "other"] {
        assert_eq!(merged.resolve(tool, &json("{}")), profile.resolve(tool, &json("{}")));
    }
}

#[test]
fn a_directory_is_trusted_where_both_trust_it_however_it_is_written() {
    let trusting = |dirs: &[&str]| PermissionProfile {
        trusted_dirs: dirs.iter().map(|dir| dir.to_string()).collect(),
        ..Default::default()
    };
    let a = trusting(&["/p/", "/q", "r", "./s", "/t/../u"]);
    let b = trusting(&["/p", "//q/./", "./r", "s", "/u"]);
    assert_eq!(PermissionProfile::merge_strictest(&a, &b).trusted_dirs, vec!["/p/", "/q"]);
    assert_eq!(PermissionProfile::merge_strictest(&b, &a).trusted_dirs, vec!["/p", "//q/./"]);
}

#[test]
fn merging_keeps_an_override_that_only_one_side_has() {
    let a = PermissionProfile {
        permission_overrides: Table::from_pairs(vec![("grep".to_string(), PermissionLevel::Read)]),
        ..Default::default()
    };
    let b = PermissionProfile::default();
    let merged = PermissionProfile::merge_strictest(&a, &b);
    assert_eq!(
        merged.resolve("grep", &json("{}")),
        PermissionAction::UseDefaultPermission { level: PermissionLevel::Read }
    );
}
