//! The packs of the library, and what becomes of several together.

use oneai_domain::builtin_sources::GitStatusSource;
use oneai_domain::coding_pack::{coding_pack, coding_sub_agent_types};
use oneai_domain::collections::{NameSet, Table};
use oneai_domain::compression_template::CompressionTemplate;
use oneai_domain::containerized_pack::containerized_coding_pack;
use oneai_domain::domain_pack::{DomainPack, DomainPackBuilder, ToolHandle};
use oneai_domain::memory_profile::MemoryProfile;
use oneai_domain::merge::MergedDomainPack;
use oneai_domain::permission_profile::PermissionProfile;
use oneai_domain::research_pack::{research_pack, research_sub_agent_types};
use oneai_domain::tool_decorator::ToolDecorator;
use oneai_domain::types::{PermissionAction, PermissionLevel};
use oneai_domain::workflow::{NodeAction, StateGraph};

fn json(source: &str) -> serde_json::Value {
    serde_json::from_str(source).unwrap()
}

fn names(list: &[&str]) -> NameSet {
    NameSet::from_names(list.iter().map(|s| s.to_string()).collect())
}

#[test]
fn test_domain_pack_builder() {
    let pack = DomainPackBuilder::new("test_domain")
        .description("A test domain pack")
        .tool(ToolHandle::host("calculator"))
        .permission_profile(PermissionProfile::new("test".to_string()))
        .compression_template(CompressionTemplate::new("test".to_string()))
        .system_prompt("You are a test domain agent.")
        .build();

    assert_eq!(pack.name, "test_domain");
    assert_eq!(pack.description, "A test domain pack");
    assert_eq!(pack.tools.len(), 1);
    assert_eq!(pack.system_prompt_template, "You are a test domain agent.");
}

#[test]
fn the_builder_adds_up() {
    let pack = DomainPackBuilder::new("p")
        .tools(vec![ToolHandle::host("a")])
        .tool(ToolHandle::host("b"))
        .tool_decorator(ToolDecorator::with_description("a", "first"))
        .tool_decorators(vec![ToolDecorator::with_description("b", "second")])
        .context_source(GitStatusSource::new("/p").handle())
        .build();
    assert_eq!(pack.tools.len(), 2);
    assert_eq!(pack.tools[1].name, "b");
    assert_eq!(pack.tool_decorators.len(), 2);
    assert_eq!(pack.context_sources[0].key, "git_status");
    assert_eq!(pack.context_sources[0].project_dir.as_deref(), Some("/p"));
}

#[test]
fn test_coding_pack_creation() {
    let pack = coding_pack("/tmp/test_project");

    assert_eq!(pack.name, "coding");
    assert_eq!(pack.tools.len(), 11);
    assert_eq!(pack.tool_decorators.len(), 10);
    assert_eq!(pack.context_sources.len(), 7);
    assert!(!pack.system_prompt_template.is_empty());
}

#[test]
fn test_coding_pack_state_graphs() {
    let pack = coding_pack("/tmp/test_project");

    assert_eq!(pack.state_graphs.len(), 4);
    let names: Vec<&str> = pack.state_graphs.iter().map(|g| g.name.as_str()).collect();
    for expected in ["react-loop", "plan-workflow", "reflect-workflow", "explore-workflow"] {
        assert!(
            names.contains(&expected),
            "missing state graph '{}'; got: {:?}",
            expected,
            names
        );
    }

    for g in &pack.state_graphs {
        assert!(!g.entry_point.is_empty(), "graph '{}' has no entry point", g.name);
        assert!(!g.terminal_nodes.is_empty(), "graph '{}' has no terminal nodes", g.name);
        assert!(g.node_count() > 0, "graph '{}' has no nodes", g.name);
    }

    let terminal_of = |name: &str| -> &Vec<String> {
        let graph: &StateGraph =
            pack.state_graphs.iter().find(|g| g.name == name).expect("graph must exist");
        &graph.terminal_nodes
    };
    assert_eq!(terminal_of("plan-workflow"), &vec!["end".to_string()]);
    assert_eq!(terminal_of("reflect-workflow"), &vec!["end".to_string()]);
    assert_eq!(terminal_of("explore-workflow"), &vec!["synthesize".to_string()]);
}

#[test]
fn test_coding_pack_permission_profile() {
    let pack = coding_pack("/tmp/test");

    assert!(pack.permission_profile.auto_approve.contains("read_file"));
    assert!(pack.permission_profile.auto_approve.contains("grep"));
    assert!(pack.permission_profile.auto_approve.contains("glob"));

    assert!(pack.permission_profile.require_confirmation.contains("edit_file"));
    assert!(pack.permission_profile.require_confirmation.contains("shell"));

    assert!(!pack.permission_profile.deny_by_default.is_empty());
}

#[test]
fn test_coding_pack_paradigm_strategies() {
    let pack = coding_pack("/tmp/test");

    assert!(pack.paradigm_strategies.len() >= 4);

    let refactor = pack
        .paradigm_strategies
        .iter()
        .find(|s| s.trigger_pattern.contains("refactor"))
        .unwrap();
    assert_eq!(refactor.paradigm_sequence.len(), 3);

    let search =
        pack.paradigm_strategies.iter().find(|s| s.trigger_pattern.contains("find")).unwrap();
    assert_eq!(search.paradigm_sequence.len(), 1);
}

#[test]
fn test_coding_pack_compression_template() {
    let pack = coding_pack("/tmp/test");

    assert_eq!(pack.compression_template.name, "coding");
    assert!(pack.compression_template.preserve_fields.contains(&"critical_files".to_string()));
    assert!(pack.compression_template.preserve_fields.contains(&"progress_status".to_string()));
    assert!(pack.compression_template.truncate_rules.contains_key("tool_output"));
    assert!(pack.compression_template.truncate_rules.contains_key("file_content"));
}

#[test]
fn test_coding_pack_strategy_matching() {
    let pack = coding_pack("/tmp/test");

    let refactor_match =
        pack.paradigm_strategies.iter().find(|s| s.matches("Please refactor the auth module"));
    assert!(refactor_match.is_some());

    let search_match =
        pack.paradigm_strategies.iter().find(|s| s.matches("Find all uses of authenticate"));
    assert!(search_match.is_some());

    let bug_match =
        pack.paradigm_strategies.iter().find(|s| s.matches("Fix the crash in login handler"));
    assert!(bug_match.is_some());
}

#[test]
fn test_research_pack_creation() {
    let pack = research_pack("/tmp/test_project");

    assert_eq!(pack.name, "research");
    assert_eq!(pack.tools.len(), 8);
    assert_eq!(pack.tool_decorators.len(), 8);
    assert_eq!(pack.context_sources.len(), 4);
    assert!(!pack.system_prompt_template.is_empty());
}

#[test]
fn test_research_pack_permission_profile() {
    let pack = research_pack("/tmp/test");

    assert!(pack.permission_profile.auto_approve.contains("web_search"));
    assert!(pack.permission_profile.auto_approve.contains("web_fetch"));
    assert!(pack.permission_profile.auto_approve.contains("read_file"));
    assert!(pack.permission_profile.auto_approve.contains("grep"));
    assert!(pack.permission_profile.auto_approve.contains("calculator"));

    assert!(pack.permission_profile.require_confirmation.is_empty());
}

#[test]
fn test_research_pack_paradigm_strategies() {
    let pack = research_pack("/tmp/test");

    assert!(pack.paradigm_strategies.len() >= 4);

    let research = pack
        .paradigm_strategies
        .iter()
        .find(|s| s.trigger_pattern.contains("research"))
        .unwrap();
    assert_eq!(research.paradigm_sequence.len(), 3);

    let fact_check =
        pack.paradigm_strategies.iter().find(|s| s.trigger_pattern.contains("verify")).unwrap();
    assert_eq!(fact_check.paradigm_sequence.len(), 2);
}

#[test]
fn test_research_pack_compression_template() {
    let pack = research_pack("/tmp/test");

    assert_eq!(pack.compression_template.name, "research");
    assert!(pack.compression_template.preserve_fields.contains(&"search_queries".to_string()));
    assert!(pack.compression_template.preserve_fields.contains(&"key_findings".to_string()));
    assert!(pack.compression_template.preserve_fields.contains(&"source_citations".to_string()));
    assert!(pack.compression_template.truncate_rules.contains_key("search_result"));
}

#[test]
fn test_research_pack_strategy_matching() {
    let pack = research_pack("/tmp/test");

    for task in [
        "Research the impact of AI on healthcare",
        "Verify whether climate change causes more hurricanes",
        "What is the capital of France",
        "Summarize the research on quantum computing",
    ] {
        assert!(pack.paradigm_strategies.iter().find(|s| s.matches(task)).is_some(), "{}", task);
    }
}

#[test]
fn helping_agents_of_the_domains() {
    let coding: Vec<String> = coding_sub_agent_types().iter().map(|a| a.name.clone()).collect();
    assert_eq!(coding, vec!["searcher", "coder", "review"]);
    let research: Vec<String> =
        research_sub_agent_types().iter().map(|a| a.name.clone()).collect();
    assert_eq!(research, vec!["searcher", "analyzer", "verifier"]);
}

#[test]
fn steps_stand_behind_what_they_depend_on() {
    for pack in [coding_pack("/p"), research_pack("/p")] {
        for workflow in &pack.workflows {
            for (i, step) in workflow.steps.iter().enumerate() {
                for needed in &step.depends_on {
                    assert!(workflow.steps[..i].iter().any(|s| &s.id == needed));
                }
                assert!(step.tool.is_some() != step.prompt.is_some());
            }
        }
    }
}

#[test]
fn ends_of_graphs_can_be_reached() {
    for pack in [coding_pack("/p"), research_pack("/p")] {
        for graph in &pack.state_graphs {
            let mut reached = vec![graph.entry_point.clone()];
            for _ in 0..graph.node_count() {
                for edge in &graph.edges {
                    if reached.contains(&edge.from) && !reached.contains(&edge.to) {
                        reached.push(edge.to.clone());
                    }
                }
            }
            for end in &graph.terminal_nodes {
                assert!(reached.contains(end), "{} of {}", end, graph.name);
            }
        }
    }
}

#[test]
fn tools_are_approved_by_a_person() {
    let pack = coding_pack("/p");
    let react = pack.state_graphs.iter().find(|g| g.name == "react-loop").unwrap();
    assert!(react.nodes.iter().any(|n| matches!(n.action, NodeAction::HumanApproval { .. })));
}

fn make_test_pack(name: &str) -> DomainPack {
    DomainPack {
        name: name.to_string(),
        description: format!("{} domain pack", name),
        tools: Vec::new(),
        tool_decorators: Vec::new(),
        context_sources: Vec::new(),
        permission_profile: PermissionProfile::new(name.to_string()),
        paradigm_strategies: Vec::new(),
        compression_template: CompressionTemplate::new(name.to_string()),
        memory_profile: MemoryProfile::default(),
        system_prompt_template: format!("You are a {} agent.", name),
        workflows: Vec::new(),
        state_graphs: Vec::new(),
        sub_agent_definitions: Vec::new(),
    }
}

#[test]
fn test_merge_single_pack() {
    let pack = make_test_pack("coding");
    let merged = MergedDomainPack::merge(vec![pack]);

    assert_eq!(merged.name, "coding");
    assert_eq!(merged.system_prompt_template, "You are a coding agent.");
}

#[test]
fn test_merge_two_packs() {
    let pack_a = DomainPack {
        description: "Coding domain".to_string(),
        tools: vec![ToolHandle::host("calculator")],
        permission_profile: PermissionProfile {
            name: "coding".to_string(),
            auto_approve: names(&["calculator"]),
            require_confirmation: names(&["shell"]),
            deny_by_default: Vec::new(),
            permission_overrides: Table::new(),
            default_threshold: PermissionLevel::Standard,
            ..Default::default()
        },
        ..make_test_pack("coding")
    };

    let pack_b = DomainPack {
        description: "Research domain".to_string(),
        permission_profile: PermissionProfile {
            name: "research".to_string(),
            auto_approve: names(&["calculator", "web_search"]),
            require_confirmation: names(&["web_fetch"]),
            deny_by_default: Vec::new(),
            permission_overrides: Table::new(),
            default_threshold: PermissionLevel::Read,
            ..Default::default()
        },
        ..make_test_pack("research")
    };

    let merged = MergedDomainPack::merge(vec![pack_a, pack_b]);

    assert_eq!(merged.name, "coding+research");
    assert_eq!(merged.tools.len(), 1);

    assert!(merged.permission_profile.auto_approve.contains("calculator"));
    assert!(!merged.permission_profile.auto_approve.contains("web_search"));
    assert!(merged.permission_profile.require_confirmation.contains("shell"));
    assert!(merged.permission_profile.require_confirmation.contains("web_fetch"));
    assert_eq!(merged.permission_profile.default_threshold, PermissionLevel::Standard);

    assert_eq!(merged.compression_template.name, "coding");

    assert!(merged.system_prompt_template.contains("## coding Domain"));
    assert!(merged.system_prompt_template.contains("## research Domain"));
}

#[test]
fn test_merge_empty() {
    let merged = MergedDomainPack::empty();
    assert_eq!(merged.name, "default");
    assert!(merged.tools.is_empty());
    assert!(merged.context_sources.is_empty());
}

#[test]
fn test_merge_tools_dedup() {
    let pack_a = DomainPack {
        name: "a".to_string(),
        tools: vec![ToolHandle::host("calculator")],
        ..make_test_pack("a")
    };
    let pack_b = DomainPack {
        name: "b".to_string(),
        tools: vec![ToolHandle::host("calculator")],
        ..make_test_pack("b")
    };

    let merged = MergedDomainPack::merge(vec![pack_a, pack_b]);
    assert_eq!(merged.tools.len(), 1);
}

#[test]
fn merged_packs_are_asked_by_name() {
    let merged = MergedDomainPack::merge(vec![coding_pack("/p"), research_pack("/p")]);
    assert!(merged.has_tools());
    assert!(merged.has_context_sources());
    assert!(merged.get_workflow_config("deep-research").is_some());
    assert!(merged.get_workflow_config("nothing").is_none());
    assert!(merged.get_state_graph("react-loop").is_some());
    assert!(merged.workflow_names().contains(&"debug".to_string()));
    assert!(merged.state_graph_names().contains(&"research-loop".to_string()));
    assert!(merged.get_sub_agent_definition("plan").is_some());
    assert!(merged.sub_agent_kind_names().contains(&"explore".to_string()));
    assert!(merged.find_matching_strategy("refactor the parser").is_some());
    assert_eq!(merged.find_decorator("shell").unwrap().tool_name, "shell");
    assert_eq!(
        merged.resolve_permission("read_file", &json("{}")),
        PermissionAction::AutoApprove
    );
    assert!(matches!(
        merged.resolve_permission("shell", &json(r#"{"command": "ls"}"#)),
        PermissionAction::Deny { .. }
    ));
    let pack = merged.to_domain_pack();
    assert_eq!(pack.name, "coding+research");
    assert_eq!(pack.tools.len(), merged.tools.len());
}

fn tool_names(pack: &DomainPack) -> Vec<&str> {
    pack.tools.iter().map(|t| t.name.as_str()).collect()
}

#[test]
fn containerized_pack_has_same_tool_names_as_coding() {
    let coding = coding_pack("/tmp");
    let containerized = containerized_coding_pack("/tmp", "nop");

    let mut c = tool_names(&coding);
    let mut z = tool_names(&containerized);
    c.sort();
    z.sort();
    assert_eq!(c, z, "tool name sets must match");
    assert_eq!(containerized.name, "containerized-coding");
}

#[test]
fn shell_and_file_tools_route_through_injected_backend() {
    let pack = containerized_coding_pack("/tmp", "test-vm");
    for tool in &pack.tools {
        let contained = ["shell", "read_file", "edit_file", "list_directory"];
        if contained.contains(&tool.name.as_str()) {
            assert_eq!(tool.backend.as_deref(), Some("test-vm"), "{}", tool.name);
        } else {
            assert!(tool.backend.is_none(), "{}", tool.name);
        }
    }
}

#[test]
fn permission_profile_inherited_from_coding() {
    let coding = coding_pack("/tmp");
    let containerized = containerized_coding_pack("/tmp", "nop");

    assert_eq!(
        containerized.permission_profile.auto_approve,
        coding.permission_profile.auto_approve
    );
    assert_eq!(
        containerized.permission_profile.require_confirmation,
        coding.permission_profile.require_confirmation
    );
    assert_eq!(
        containerized.permission_profile.deny_by_default.len(),
        coding.permission_profile.deny_by_default.len()
    );
}
