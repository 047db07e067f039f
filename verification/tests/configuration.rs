//! Configurations of packs: their schema, their rules, and the packs they give.

use std::path::Path;

use oneai_domain::collections::Table;
use oneai_domain::config_parser::{
    config_file_names, config_format, default_permission_threshold, domain_pack_from_dir,
    domain_pack_from_file, pick_config_file, resolve_config, resolve_level,
    resolve_memory_profile, resolve_paradigm_strategy, CompressionTemplateConfig, ConfigFormat,
    DenyPatternConfig, DomainPackConfig, MemoryProfileConfig, ParadigmStrategyConfig,
    PermissionProfileConfig, SkillLifecyclePolicyConfig, SubAgentConfig, WorkingStatePolicyConfig,
};
use oneai_domain::domain_spec::DomainPackSpec;
use oneai_domain::memory_profile::{
    DecayPolicy, FactType, MemoryProfile, RecallConfig, RecallStrategy, StorageRoot,
};
use oneai_domain::paradigm_strategy::{DomainParadigmKind, SubAgentMergeStrategy};
use oneai_domain::spec_file::DomainPackSpecFile;
use oneai_domain::types::PermissionLevel;
use oneai_domain::validator::{Severity, ValidationIssue, ValidationResult};

fn strings(list: &[&str]) -> Vec<String> {
    list.iter().map(|s| s.to_string()).collect()
}

fn make_valid_config() -> DomainPackConfig {
    DomainPackConfig {
        name: "test-domain".to_string(),
        description: "Test domain".to_string(),
        tools: strings(&["read_file", "calculator"]),
        tool_decorators: Table::new(),
        context_sources: strings(&["date"]),
        permission_profile: PermissionProfileConfig {
            auto_approve: strings(&["read_file", "calculator"]),
            require_confirmation: vec![],
            deny_by_default: vec![],
        },
        paradigm_strategies: Vec::new(),
        compression_template: CompressionTemplateConfig {
            name: "test".to_string(),
            preserve_fields: strings(&["key_data"]),
            truncate_rules: Table::new(),
        },
        system_prompt: "You are a test agent".to_string(),
        memory_profile: MemoryProfileConfig::default(),
    }
}

#[test]
fn test_schema_is_valid_json() {
    let schema = DomainPackSpec::schema();
    assert!(schema.get("$schema").is_some());
    assert!(schema.get("title").is_some());
    assert!(schema.get("type").is_some());
    assert!(schema.get("properties").is_some());
    assert!(schema.get("required").is_some());
}

#[test]
fn test_schema_has_all_layers() {
    let schema = DomainPackSpec::schema();
    let props = schema.get("properties").unwrap();
    assert!(props.get("name").is_some());
    assert!(props.get("tools").is_some());
    assert!(props.get("tool_decorators").is_some());
    assert!(props.get("context_sources").is_some());
    assert!(props.get("permission_profile").is_some());
    assert!(props.get("paradigm_strategies").is_some());
    assert!(props.get("compression_template").is_some());
    assert!(props.get("system_prompt").is_some());
    assert!(props.get("spec_version").is_some());
}

#[test]
fn test_schema_required_fields() {
    let schema = DomainPackSpec::schema();
    let required = schema.list_at("required").unwrap();
    let required_names: Vec<&str> = required.iter().map(|v| v.as_str().unwrap()).collect();
    assert!(required_names.contains(&"name"));
    assert!(required_names.contains(&"tools"));
    assert!(required_names.contains(&"permission_profile"));
}

#[test]
fn test_known_tool_names() {
    let tools = DomainPackSpec::known_tool_names();
    assert!(tools.contains(&"read_file".to_string()));
    assert!(tools.contains(&"shell".to_string()));
    assert!(tools.contains(&"calculator".to_string()));
    assert!(tools.contains(&"web_search".to_string()));
    assert!(tools.len() >= 12);
}

#[test]
fn test_known_context_source_names() {
    let sources = DomainPackSpec::known_context_source_names();
    assert!(sources.contains(&"project_instructions".to_string()));
    assert!(sources.contains(&"date".to_string()));
    assert!(sources.contains(&"environment".to_string()));
    assert!(sources.len() >= 6);
}

#[test]
fn test_spec_version() {
    assert_eq!(DomainPackSpec::SPEC_VERSION, "1.0");
}

#[test]
fn the_schema_lists_the_known_sources() {
    let schema = DomainPackSpec::schema();
    let listed: Vec<String> = schema
        .get("properties")
        .and_then(|p| p.get("context_sources"))
        .and_then(|s| s.get("items"))
        .and_then(|i| i.list_at("enum"))
        .unwrap()
        .iter()
        .map(|v| v.as_str().unwrap().to_string())
        .collect();
    assert_eq!(listed, DomainPackSpec::known_context_source_names());
    let name = schema.get("properties").and_then(|p| p.get("name")).unwrap();
    assert_eq!(name.get("pattern").unwrap().as_str(), Some("^[a-z][a-z0-9_-]*$"));
}

#[test]
fn test_resolve_config_to_domain_pack() {
    let config = DomainPackConfig {
        name: "test_domain".to_string(),
        description: "Test domain".to_string(),
        tools: strings(&["read_file", "calculator", "unknown_tool"]),
        tool_decorators: Table::from_pairs(vec![(
            "read_file".to_string(),
            "Read files for test purposes".to_string(),
        )]),
        context_sources: strings(&["date", "environment", "unknown_source"]),
        permission_profile: PermissionProfileConfig {
            auto_approve: strings(&["read_file", "calculator"]),
            require_confirmation: vec![],
            deny_by_default: vec![],
        },
        paradigm_strategies: vec![],
        compression_template: CompressionTemplateConfig {
            name: "test".to_string(),
            preserve_fields: strings(&["key_data"]),
            truncate_rules: Table::new(),
        },
        system_prompt: "You are a test agent".to_string(),
        memory_profile: MemoryProfileConfig::default(),
    };

    let pack = resolve_config(&config, "/tmp/test_project");

    assert_eq!(pack.name, "test_domain");
    assert_eq!(pack.tools.len(), 2);
    assert_eq!(pack.context_sources.len(), 2);
    assert_eq!(pack.tool_decorators.len(), 1);
    assert_eq!(pack.permission_profile.auto_approve.len(), 2);
    assert_eq!(pack.system_prompt_template, "You are a test agent");
}

#[test]
fn test_resolve_unknown_tools_are_skipped() {
    let config = DomainPackConfig {
        name: "minimal".to_string(),
        description: String::new(),
        tools: strings(&["nonexistent_tool"]),
        tool_decorators: Table::new(),
        context_sources: strings(&["nonexistent_source"]),
        permission_profile: PermissionProfileConfig {
            auto_approve: strings(&["nonexistent_tool"]),
            require_confirmation: vec![],
            deny_by_default: vec![],
        },
        paradigm_strategies: vec![],
        compression_template: CompressionTemplateConfig {
            name: "minimal".to_string(),
            preserve_fields: vec![],
            truncate_rules: Table::new(),
        },
        system_prompt: String::new(),
        memory_profile: MemoryProfileConfig::default(),
    };

    let pack = resolve_config(&config, "/tmp/test");
    assert_eq!(pack.tools.len(), 0);
    assert_eq!(pack.context_sources.len(), 0);
    assert!(pack.permission_profile.auto_approve.contains("nonexistent_tool"));
}

#[test]
fn test_resolve_paradigm_strategy() {
    let strategy_config = ParadigmStrategyConfig {
        trigger: "research|investigate".to_string(),
        sequence: strings(&["Explore", "Reflect", "Plan"]),
        sub_agents: vec![SubAgentConfig {
            name: "searcher".to_string(),
            description: "Search agent".to_string(),
            system_prompt: "You search".to_string(),
            available_tools: strings(&["web_search"]),
            permission_threshold: "standard".to_string(),
            modifies_files: false,
        }],
        description: "Research workflow".to_string(),
    };

    let strategy = resolve_paradigm_strategy(&strategy_config);
    assert_eq!(strategy.trigger_pattern, "research|investigate");
    assert_eq!(strategy.paradigm_sequence.len(), 3);
    assert_eq!(strategy.paradigm_sequence[0], DomainParadigmKind::Explore);
    assert_eq!(strategy.sub_agent_types.len(), 1);
    assert_eq!(strategy.sub_agent_types[0].name, "searcher");
}

#[test]
fn test_permission_threshold_resolution() {
    assert_eq!(resolve_level("read"), PermissionLevel::Read);
    assert_eq!(resolve_level("admin"), PermissionLevel::Full);
    assert_eq!(resolve_level("standard"), PermissionLevel::Standard);
    assert_eq!(resolve_level("other"), PermissionLevel::Standard);
    assert_eq!(default_permission_threshold(), "standard");
}

#[test]
fn test_file_extension_detection() {
    let yaml_path = Path::new("ONEAI.domain.yaml");
    assert_eq!(yaml_path.extension().unwrap(), "yaml");
    assert_eq!(config_format("yaml"), Some(ConfigFormat::Yaml));

    let toml_path = Path::new("ONEAI.domain.toml");
    assert_eq!(toml_path.extension().unwrap(), "toml");
    assert_eq!(config_format("toml"), Some(ConfigFormat::Toml));

    assert_eq!(config_format("yml"), Some(ConfigFormat::Yaml));
    assert_eq!(config_format("json"), None);
}

fn coding_memory_config() -> MemoryProfileConfig {
    MemoryProfileConfig {
        name: "coding".to_string(),
        extraction_schema: strings(&[
            "user_tooling_pref",
            "decision",
            "open_task",
            "critical_file",
        ]),
        recall: RecallConfig { strategy: RecallStrategy::Hybrid, top_k: 5, time_decay: true },
        core_budget_tokens: 2048,
        enable_memory_tools: true,
        habit_fact_types: strings(&["user_tooling_pref"]),
        decay: DecayPolicy::default(),
        working_state: WorkingStatePolicyConfig {
            storage_root: "in_repo".to_string(),
            checkpoint_granularity: "every_step".to_string(),
            ground_truth_reconciliation: "git".to_string(),
            cross_session_surface: "auto_inject".to_string(),
            retention: "archive_on_complete".to_string(),
            thickness: "thin".to_string(),
            compaction_event_threshold: 200,
            compaction_keep_recent: 50,
            max_age_before_archive_secs: 30 * 24 * 3600,
        },
        skill_lifecycle: SkillLifecyclePolicyConfig {
            stale_after_secs: 30 * 24 * 3600,
            archive_after_secs: 90 * 24 * 3600,
            auto_transitions: true,
            backup_count: 5,
            storage_root: "home_dir".to_string(),
            grace_unused_secs: 7 * 24 * 3600,
        },
    }
}

#[test]
fn test_resolve_memory_profile_round_trip() {
    let mp = resolve_memory_profile(&coding_memory_config());
    assert_eq!(mp.name, "coding");
    assert_eq!(mp.extraction_schema.len(), 4);
    assert!(mp.extraction_schema.contains(&FactType::new("decision")));
    assert_eq!(mp.recall.strategy, RecallStrategy::Hybrid);
    assert_eq!(mp.recall.top_k, 5);
    assert!(mp.recall.time_decay);
    assert_eq!(mp.core_budget_tokens, 2048);
    assert!(mp.enable_memory_tools);
    assert_eq!(mp.habit_fact_types, vec![FactType::new("user_tooling_pref")]);
    assert!(!mp.decay.enabled);
    assert_eq!(mp.working_state.compaction.event_threshold, 200);
    assert_eq!(mp.working_state.compaction.keep_recent, 50);
    assert_eq!(mp.working_state.storage_root, StorageRoot::InRepo);
    assert_eq!(mp.skill_lifecycle.stale_after, std::time::Duration::from_secs(30 * 24 * 3600).as_nanos());
    assert_eq!(mp, MemoryProfile::coding());
}

#[test]
fn what_is_left_out_is_the_usual() {
    let memory = MemoryProfileConfig::default();
    assert_eq!(memory.core_budget_tokens, 2048);
    assert!(memory.enable_memory_tools);
    assert_eq!(memory.working_state.compaction_event_threshold, 200);
    assert_eq!(memory.skill_lifecycle.archive_after_secs, 7_776_000);
    assert!(memory.working_state.compaction_keep_recent
        < memory.working_state.compaction_event_threshold);
    assert_eq!(CompressionTemplateConfig::default().name, "");
    let profile = resolve_memory_profile(&memory);
    assert_eq!(profile.working_state, MemoryProfile::coding().working_state);
    assert_eq!(profile.skill_lifecycle, MemoryProfile::coding().skill_lifecycle);
}

#[test]
fn agents_that_change_files_are_merged_back() {
    let agent = |modifies_files: bool| SubAgentConfig {
        name: "a".to_string(),
        description: String::new(),
        system_prompt: "p".to_string(),
        available_tools: strings(&["grep"]),
        permission_threshold: "admin".to_string(),
        modifies_files,
    };
    let strategy = resolve_paradigm_strategy(&ParadigmStrategyConfig {
        trigger: "t".to_string(),
        sequence: strings(&["react", "PLAN", "unknown"]),
        sub_agents: vec![agent(true), agent(false)],
        description: String::new(),
    });
    assert_eq!(
        strategy.paradigm_sequence,
        vec![DomainParadigmKind::ReAct, DomainParadigmKind::Plan, DomainParadigmKind::ReAct]
    );
    assert_eq!(strategy.sub_agent_types[0].merge_strategy, SubAgentMergeStrategy::Merge);
    assert_eq!(strategy.sub_agent_types[1].merge_strategy, SubAgentMergeStrategy::PreserveOnly);
    assert_eq!(strategy.sub_agent_types[0].permission_threshold, PermissionLevel::Full);
    assert_eq!(strategy.sub_agent_types[0].budget, 0);
}

#[test]
fn refused_calls_come_from_the_configuration() {
    let mut config = make_valid_config();
    config.permission_profile.deny_by_default = vec![DenyPatternConfig {
        tool: "shell".to_string(),
        args_pattern: Some(".*".to_string()),
        reason: "Shell not available".to_string(),
    }];
    let pack = resolve_config(&config, "/p");
    assert_eq!(pack.permission_profile.name, "config");
    assert_eq!(pack.permission_profile.deny_by_default[0].reason, "Shell not available");
    assert_eq!(pack.permission_profile.default_threshold, PermissionLevel::Standard);
}

#[test]
fn test_spec_file_from_config() {
    let config = make_valid_config();
    let spec_file = DomainPackSpecFile::from_config(config);
    assert!(spec_file.source_path.is_none());
    assert_eq!(spec_file.config.name, "test-domain");
}

#[test]
fn test_spec_file_validate_valid() {
    let config = make_valid_config();
    let spec_file = DomainPackSpecFile::from_config(config);
    let result = spec_file.validate();
    assert!(result.is_valid());
}

#[test]
fn test_spec_file_validate_and_build_valid() {
    let config = make_valid_config();
    let spec_file = DomainPackSpecFile::from_config(config);
    let pack_result = spec_file.validate_and_build("/tmp/test");
    assert!(pack_result.is_ok());
    let pack = pack_result.unwrap();
    assert_eq!(pack.name, "test-domain");
    assert_eq!(pack.tools.len(), 2);
}

#[test]
fn test_spec_file_validate_and_build_invalid() {
    let mut config = make_valid_config();
    config.name = String::new();
    let spec_file = DomainPackSpecFile::from_config(config);
    let pack_result = spec_file.validate_and_build("/tmp/test");
    assert!(pack_result.is_err());
    let result = pack_result.unwrap_err();
    assert!(!result.is_valid());
}

#[test]
fn test_spec_file_load_yaml() {
    let config = DomainPackConfig { name: "test-yaml".to_string(), ..make_valid_config() };
    let spec_file =
        DomainPackSpecFile::load("/tmp/x/ONEAI.domain.yaml", "yaml", &Ok(config)).unwrap();
    assert_eq!(spec_file.config.name, "test-yaml");
    assert!(spec_file.source_path.is_some());
}

#[test]
fn test_spec_file_load_toml() {
    let config = DomainPackConfig { name: "test-toml".to_string(), ..make_valid_config() };
    let spec_file =
        DomainPackSpecFile::load("/tmp/x/ONEAI.domain.toml", "toml", &Ok(config)).unwrap();
    assert_eq!(spec_file.config.name, "test-toml");
    assert!(spec_file.source_path.is_some());
}

#[test]
fn test_spec_file_load_unknown_extension() {
    let result =
        DomainPackSpecFile::load("/tmp/x/ONEAI.domain.json", "json", &Ok(make_valid_config()));
    assert!(result.is_err());
    assert!(result.unwrap_err().contains("Unknown domain spec file extension"));
}

#[test]
fn a_file_that_cannot_be_read_is_refused() {
    let result = DomainPackSpecFile::load("/p/f.toml", "toml", &Err("bad line".to_string()));
    assert_eq!(result.unwrap_err(), "bad line");
}

#[test]
fn test_spec_file_search_dir_finds_yaml() {
    let file = |name: &str| {
        let config = DomainPackConfig { name: name.to_string(), ..make_valid_config() };
        DomainPackSpecFile::from_config(config)
    };
    let found = vec![Some(file("search-test")), None, Some(file("later"))];
    let spec_file = DomainPackSpecFile::search_dir(&found).unwrap();
    assert_eq!(spec_file.config.name, "search-test");
}

#[test]
fn test_spec_file_search_dir_finds_toml() {
    let config = DomainPackConfig { name: "search-toml".to_string(), ..make_valid_config() };
    let found = vec![None, None, Some(DomainPackSpecFile::from_config(config))];
    let spec_file = DomainPackSpecFile::search_dir(&found).unwrap();
    assert_eq!(spec_file.config.name, "search-toml");
}

#[test]
fn test_spec_file_search_dir_none_found() {
    let result = DomainPackSpecFile::search_dir(&vec![None, None, None]);
    assert!(result.is_none());
}

fn fields(result: &ValidationResult) -> Vec<String> {
    result.issues().iter().map(|i| i.field.clone()).collect()
}

#[test]
fn each_rule_is_held() {
    let validate =
        |config: DomainPackConfig| DomainPackSpecFile::from_config(config).validate();
    let valid = make_valid_config();

    let mut config = valid.clone();
    config.name = "Bad Name".to_string();
    assert_eq!(fields(&validate(config)), vec!["name"]);

    let mut config = valid.clone();
    config.name = "a".repeat(65);
    assert!(!validate(config).is_valid());

    let mut config = valid.clone();
    config.tools = strings(&["read_file", "teleport", "read_file"]);
    let result = validate(config);
    assert_eq!(fields(&result), vec!["tools", "tools"]);
    assert_eq!(result.issues()[0].line(), "tools: unknown name 'teleport'");
    assert_eq!(result.issues()[1].line(), "tools: name 'read_file' stands twice");

    let mut config = valid.clone();
    config.context_sources = strings(&["weather"]);
    assert_eq!(fields(&validate(config)), vec!["context_sources"]);

    let mut config = valid.clone();
    config.tool_decorators =
        Table::from_pairs(vec![("read_file".to_string(), String::new())]);
    assert_eq!(fields(&validate(config)), vec!["tool_decorators"]);

    let mut config = valid.clone();
    config.paradigm_strategies = vec![ParadigmStrategyConfig {
        trigger: String::new(),
        sequence: strings(&["Dance"]),
        sub_agents: vec![SubAgentConfig {
            name: String::new(),
            description: String::new(),
            system_prompt: String::new(),
            available_tools: vec![],
            permission_threshold: "boss".to_string(),
            modifies_files: false,
        }],
        description: String::new(),
    }];
    assert_eq!(
        fields(&validate(config)),
        vec![
            "paradigm_strategies",
            "paradigm_strategies",
            "sub_agents",
            "sub_agents",
            "sub_agents",
            "sub_agents"
        ]
    );

    let mut config = valid.clone();
    config.memory_profile.working_state.compaction_keep_recent = 200;
    config.memory_profile.skill_lifecycle.stale_after_secs = 7_776_000;
    assert_eq!(fields(&validate(config)), vec!["working_state", "skill_lifecycle"]);
}

#[test]
fn only_errors_make_a_configuration_invalid() {
    let issue = |severity: Severity| ValidationIssue {
        severity,
        field: "f".to_string(),
        message: "m".to_string(),
    };
    assert!(ValidationResult { issues: vec![issue(Severity::Warning)] }.is_valid());
    assert!(!ValidationResult { issues: vec![issue(Severity::Warning), issue(Severity::Error)] }
        .is_valid());
    assert!(ValidationResult { issues: vec![] }.is_valid());
}

#[test]
fn the_pack_of_a_directory() {
    let names = config_file_names();
    assert_eq!(names, vec!["ONEAI.domain.yaml", "ONEAI.domain.yml", "ONEAI.domain.toml"]);
    assert_eq!(pick_config_file(&vec![false, true, true]), Some("ONEAI.domain.yml".to_string()));
    assert_eq!(pick_config_file(&vec![false, false, false]), None);

    assert_eq!(domain_pack_from_dir(&None, "/p").unwrap().name, "coding");
    let found = Some(Ok(make_valid_config()));
    assert_eq!(domain_pack_from_dir(&found, "/p").unwrap().name, "test-domain");
    let broken = Some(Err("bad".to_string()));
    assert_eq!(domain_pack_from_dir(&broken, "/p").unwrap_err(), "bad");
}

#[test]
fn the_pack_of_a_file() {
    let config = Ok(make_valid_config());
    assert_eq!(domain_pack_from_file("yml", &config, "/p").unwrap().name, "test-domain");
    assert_eq!(
        domain_pack_from_file("ini", &config, "/p").unwrap_err(),
        "Unknown domain config file extension 'ini' — expected .yaml, .yml, or .toml"
    );
    let broken = Err("bad".to_string());
    assert_eq!(domain_pack_from_file("toml", &broken, "/p").unwrap_err(), "bad");
}
