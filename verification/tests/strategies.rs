//! Ways of working, helping agents, decorated tools, summaries.

use oneai_domain::collections::Table;
use oneai_domain::compression_template::{CompressionTemplate, CODING_COMPRESSION_TEMPLATE};
use oneai_domain::data::{parse_json, DataValue};
use oneai_domain::paradigm_strategy::{
    DomainParadigmKind, ParadigmStrategy, ParadigmStrategyRegistry, SubAgentMergeStrategy,
    SubAgentTypeDefinition,
};
use oneai_domain::tool_decorator::{merge_tool_schemas, DecoratedTool, ToolDecorator, ToolFace};
use oneai_domain::types::{PermissionLevel, RiskLevel};

#[test]
fn test_paradigm_strategy_match() {
    let strategy = ParadigmStrategy {
        trigger_pattern: "refactor|rewrite|restructure".to_string(),
        paradigm_sequence: vec![
            DomainParadigmKind::Plan,
            DomainParadigmKind::ReAct,
            DomainParadigmKind::Reflect,
        ],
        sub_agent_types: Vec::new(),
        description: "Refactoring tasks".to_string(),
    };

    assert!(strategy.matches("Please refactor the auth module"));
    assert!(strategy.matches("I want to rewrite the login handler"));
    assert!(!strategy.matches("What does this function do?"));
}

#[test]
fn test_sub_agent_type_definition() {
    let definition = SubAgentTypeDefinition {
        name: "searcher".to_string(),
        description: "Explores codebase with read+grep+glob".to_string(),
        system_prompt: "You are a code exploration agent...".to_string(),
        available_tools: vec!["read_file".to_string(), "grep".to_string(), "glob".to_string()],
        permission_threshold: PermissionLevel::Read,
        budget: 40_000,
        modifies_files: false,
        merge_strategy: SubAgentMergeStrategy::PreserveOnly,
        structured_output: None,
    };

    assert_eq!(definition.name, "searcher");
    assert_eq!(definition.available_tools.len(), 3);
    assert!(!definition.modifies_files);
    assert_eq!(definition.budget, 40_000);
}

#[test]
fn test_sub_agent_type_definition_defaults() {
    let defaults = SubAgentTypeDefinition::defaults();
    assert_eq!(defaults.len(), 4);

    let code = defaults.iter().find(|d| d.name == "code").unwrap();
    assert!(code.modifies_files);
    assert_eq!(code.merge_strategy, SubAgentMergeStrategy::Merge);

    let explore = defaults.iter().find(|d| d.name == "explore").unwrap();
    assert!(!explore.modifies_files);
}

#[test]
fn test_strategy_registry() {
    let strategies = vec![
        ParadigmStrategy {
            trigger_pattern: "refactor|rewrite".to_string(),
            paradigm_sequence: vec![DomainParadigmKind::Plan, DomainParadigmKind::ReAct],
            sub_agent_types: Vec::new(),
            description: "Refactoring".to_string(),
        },
        ParadigmStrategy {
            trigger_pattern: "find|search|understand".to_string(),
            paradigm_sequence: vec![DomainParadigmKind::Explore],
            sub_agent_types: Vec::new(),
            description: "Search".to_string(),
        },
    ];

    let registry = ParadigmStrategyRegistry::from_strategies(strategies);

    let match_refactor = registry.find_matching("refactor the auth module");
    assert!(match_refactor.is_some());
    assert_eq!(match_refactor.unwrap().paradigm_sequence.len(), 2);

    let match_search = registry.find_matching("find all uses of authenticate");
    assert!(match_search.is_some());
    assert_eq!(match_search.unwrap().paradigm_sequence.len(), 1);

    let no_match = registry.find_matching("tell me a joke");
    assert!(no_match.is_none());
}

#[test]
fn the_first_fitting_strategy_wins() {
    let strategy = |pattern: &str, description: &str| ParadigmStrategy {
        trigger_pattern: pattern.to_string(),
        paradigm_sequence: vec![DomainParadigmKind::Plan],
        sub_agent_types: Vec::new(),
        description: description.to_string(),
    };
    let registry = ParadigmStrategyRegistry::from_strategies(vec![
        strategy("alpha", "first"),
        strategy("alpha|beta", "second"),
    ]);
    assert_eq!(registry.find_matching("alpha").unwrap().description, "first");
    assert_eq!(registry.find_matching("beta").unwrap().description, "second");
    assert_eq!(registry.find_marked(&vec![false, true]).unwrap().description, "second");
    assert_eq!(registry.all_strategies().len(), 2);
}

#[test]
fn names_of_ways_lead_back_to_them() {
    for kind in [
        DomainParadigmKind::Plan,
        DomainParadigmKind::ReAct,
        DomainParadigmKind::Reflect,
        DomainParadigmKind::Explore,
    ] {
        assert_eq!(DomainParadigmKind::from_str(&kind.to_agent_paradigm()), kind);
    }
    assert_eq!(DomainParadigmKind::from_str("EXPLORE"), DomainParadigmKind::Explore);
    assert_eq!(DomainParadigmKind::from_str("ÉXPLORE"), DomainParadigmKind::ReAct);
}

fn calculator() -> ToolFace {
    ToolFace {
        name: "calculator".to_string(),
        description: "Evaluates arithmetic".to_string(),
        parameters_schema: parse_json(r#"{"type": "object", "properties": {}}"#).unwrap(),
        risk_level: RiskLevel::Low,
    }
}

#[test]
fn test_tool_decorator_simple() {
    let decorator = ToolDecorator::with_description("calculator", "Domain-specific calculator");
    assert_eq!(decorator.tool_name, "calculator");
    assert_eq!(decorator.description_override.as_deref(), Some("Domain-specific calculator"));
    assert!(decorator.permission_override.is_none());
}

#[test]
fn test_decorated_tool_description_override() {
    let decorator =
        ToolDecorator::with_description("calculator", "Scientific calculator for data analysis");
    let decorated = DecoratedTool::new(calculator(), decorator);
    assert_eq!(decorated.description(), "Scientific calculator for data analysis");
    assert_eq!(decorated.name(), "calculator");
}

#[test]
fn test_decorated_tool_risk_level_override() {
    let inner = calculator();
    assert_eq!(inner.risk_level, RiskLevel::Low);
    let decorator = ToolDecorator::with_description_and_permission(
        "calculator",
        "Scientific calculator",
        PermissionLevel::Standard,
    );
    let decorated = DecoratedTool::new(inner, decorator);
    assert_eq!(decorated.risk_level(), RiskLevel::Medium);
}

#[test]
fn test_decorated_tool_no_override_fallback() {
    let inner = calculator();
    let original_desc = inner.description.clone();
    let original_risk = inner.risk_level;
    let decorator = ToolDecorator {
        tool_name: "calculator".to_string(),
        description_override: None,
        permission_override: None,
        extra_params: parse_json("{}").unwrap(),
    };
    let decorated = DecoratedTool::new(inner, decorator);
    assert_eq!(decorated.description(), original_desc);
    assert_eq!(decorated.risk_level(), original_risk);
    assert_eq!(decorated.parameters_schema(), calculator().parameters_schema);
}

#[test]
fn further_parameters_may_be_bare() {
    let decorated = |extra: &str| {
        let decorator = ToolDecorator {
            tool_name: "calculator".to_string(),
            description_override: None,
            permission_override: None,
            extra_params: parse_json(extra).unwrap(),
        };
        DecoratedTool::new(calculator(), decorator).parameters_schema()
    };
    let expected = parse_json(
        r#"{"type": "object", "properties": {"unit": {"type": "string"}}}"#,
    )
    .unwrap();
    assert_eq!(decorated(r#"{"unit": {"type": "string"}}"#), expected);
    assert_eq!(decorated(r#"{"properties": {"unit": {"type": "string"}}}"#), expected);
}

#[test]
fn test_merge_tool_schemas_additive() {
    let base = parse_json(
        r#"{
            "type": "object",
            "properties": {
                "path": {"type": "string", "description": "File path"},
                "offset": {"type": "integer", "description": "Line offset"}
            },
            "required": ["path"]
        }"#,
    )
    .unwrap();
    let extra = parse_json(
        r#"{
            "properties": {
                "encoding": {"type": "string", "default": "utf-8", "description": "File encoding"},
                "format": {"type": "string", "default": "auto"}
            },
            "required": ["encoding"]
        }"#,
    )
    .unwrap();

    let merged = merge_tool_schemas(base, extra);

    let props = merged.get("properties").unwrap();
    assert!(props.get("path").is_some());
    assert!(props.get("offset").is_some());
    assert!(props.get("encoding").is_some());
    assert!(props.get("format").is_some());

    let required = merged.list_at("required").unwrap();
    assert!(required.iter().any(|r| r == &DataValue::Text("path".to_string())));
    assert!(required.iter().any(|r| r == &DataValue::Text("encoding".to_string())));
}

#[test]
fn test_merge_tool_schemas_no_overwrite() {
    let base = parse_json(
        r#"{
            "type": "object",
            "properties": {
                "path": {"type": "string", "description": "Original description"}
            },
            "required": ["path"]
        }"#,
    )
    .unwrap();
    let extra = parse_json(
        r#"{
            "properties": {
                "path": {"type": "string", "description": "New description"}
            },
            "required": ["path"]
        }"#,
    )
    .unwrap();

    let merged = merge_tool_schemas(base, extra);

    let path_prop = merged.get("properties").unwrap().get("path").unwrap();
    assert_eq!(path_prop.get("description").unwrap().as_str().unwrap(), "Original description");
    assert_eq!(merged.list_at("required").unwrap().len(), 1);
}

#[test]
fn test_compression_template_default() {
    let template = CompressionTemplate::default();
    assert_eq!(template.name, "default");
    assert!(template.preserve_fields.is_empty());
    assert!(template.template.is_empty());
}

#[test]
fn test_build_summarization_prompt_no_template() {
    let template = CompressionTemplate {
        name: "test".to_string(),
        preserve_fields: vec!["critical_files".to_string(), "progress_status".to_string()],
        template: String::new(),
        truncate_rules: Table::new(),
        default_variables: Table::new(),
    };

    let prompt = template.build_summarization_prompt("Refactor auth module");
    assert!(prompt.contains("Refactor auth module"));
    assert!(prompt.contains("critical_files"));
    assert!(prompt.contains("progress_status"));
}

#[test]
fn test_build_summarization_prompt_with_template() {
    let template = CompressionTemplate {
        name: "coding".to_string(),
        preserve_fields: vec!["critical_files".to_string()],
        template: "Summarize for coding. Task: {{task_description}}".to_string(),
        truncate_rules: Table::new(),
        default_variables: Table::new(),
    };

    let prompt = template.build_summarization_prompt("Fix bug in login");
    assert!(prompt.contains("Fix bug in login"));
    assert!(prompt.contains("critical_files"));
}

#[test]
fn test_truncate_content() {
    let template = CompressionTemplate {
        name: "coding".to_string(),
        preserve_fields: Vec::new(),
        template: String::new(),
        truncate_rules: Table::from_pairs(vec![
            ("tool_output".to_string(), 100),
            ("file_content".to_string(), 500),
        ]),
        default_variables: Table::new(),
    };

    let short = "hello world";
    assert_eq!(template.truncate_content("tool_output", short), short);

    let long = "a".repeat(200);
    let truncated = template.truncate_content("tool_output", &long);
    assert!(truncated.len() < 200);
    assert!(truncated.contains("truncated"));

    let no_rule = "some long content".repeat(100);
    assert_eq!(template.truncate_content("unknown_type", &no_rule), no_rule);
}

#[test]
fn rules_count_characters() {
    let mut template = CompressionTemplate::default();
    template.truncate_rules = Table::from_pairs(vec![("note".to_string(), 3)]);
    assert_eq!(template.truncate_content("note", "é中文"), "é中文");
    assert_eq!(
        template.truncate_content("note", "é中文字"),
        "é中文\n... [truncated due to domain compression policy]"
    );
}

#[test]
fn test_coding_template_content() {
    assert!(CODING_COMPRESSION_TEMPLATE.contains("Session Summary"));
    assert!(CODING_COMPRESSION_TEMPLATE.contains("Critical Files"));
    assert!(CODING_COMPRESSION_TEMPLATE.contains("Progress"));
}

#[test]
fn variables_of_a_template_are_filled_in() {
    let template = CompressionTemplate {
        name: "t".to_string(),
        preserve_fields: Vec::new(),
        template: "{{a}} and {{task_description}}".to_string(),
        truncate_rules: Table::new(),
        default_variables: Table::from_pairs(vec![("a".to_string(), "one".to_string())]),
    };
    assert_eq!(template.build_summarization_prompt("two"), "one and two");
}
