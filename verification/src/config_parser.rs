//! Packs out of configuration files.
//!
//! A configuration names tools and sources; resolving it gives the pack of those
//! that are known.

use vstd::prelude::*;
use crate::builtin_sources::{
    self, DateSource, EnvironmentInfoSource, FileTreeSource, GitStatusSource, ProjectConfigSource,
    ProjectInstructionsSource,
};
use crate::coding_pack;
use crate::collections::{self, Keyed, NameSet, Table};
use crate::compression_template::{CompressionTemplate, CompressionTemplateView};
use crate::context_source::{RefreshPolicyView, SourceHandle, SourceHandleView};
use crate::domain_pack::{self, DomainPack, DomainPackView, ToolHandle, ToolHandleView};
use crate::duplicate::Duplicate;
use crate::memory_profile::{
    self, CheckpointGranularity, CompactionConfig, CompactionConfigView, CrossSessionSurface,
    DecayPolicy, DecayPolicyView, GroundTruthReconciliation, MemoryProfile, MemoryProfileView,
    RecallConfig, RecallConfigView, Retention, SkillLifecyclePolicy, SkillLifecyclePolicyView,
    StorageRoot, WorkingStatePolicy, WorkingStatePolicyView, WorkingStateThickness,
};
use crate::paradigm_strategy::{
    self, DomainParadigmKind, ParadigmStrategy, ParadigmStrategyView, SubAgentMergeStrategy,
    SubAgentTypeDefinition, SubAgentTypeDefinitionView,
};
use crate::permission_profile::{
    self, DenyPattern, DenyPatternView, PermissionProfile, PermissionProfileView,
};
use crate::domain_spec;
use crate::text;
use crate::time;
use crate::tool_decorator::{self, ToolDecorator, ToolDecoratorView};
use crate::types::{PermissionActionView, PermissionLevel};

verus! {

// ─── Configuration ──────────────────────────────────────────────────────────

/// A pack as a configuration file describes it.
#[derive(Debug, PartialEq)]
pub struct DomainPackConfig {
    /// The name of the domain.
    pub name: String,
    /// What the pack is for.
    pub description: String,
    /// The names of the tools.
    pub tools: Vec<String>,
    /// What is said of the tools, by tool.
    pub tool_decorators: Table<String>,
    /// The names of the sources.
    pub context_sources: Vec<String>,
    /// The permissions.
    pub permission_profile: PermissionProfileConfig,
    /// The ways of working.
    pub paradigm_strategies: Vec<ParadigmStrategyConfig>,
    /// How conversations are summarised.
    pub compression_template: CompressionTemplateConfig,
    /// What the agent is told.
    pub system_prompt: String,
    /// What is remembered, and how.
    pub memory_profile: MemoryProfileConfig,
}

/// The contents of a [`DomainPackConfig`].
#[verifier::ext_equal]
pub struct DomainPackConfigView {
    pub name: Seq<char>,
    pub description: Seq<char>,
    pub tools: Seq<Seq<char>>,
    pub tool_decorators: Seq<(Seq<char>, Seq<char>)>,
    pub context_sources: Seq<Seq<char>>,
    pub permission_profile: PermissionProfileConfigView,
    pub paradigm_strategies: Seq<ParadigmStrategyConfigView>,
    pub compression_template: CompressionTemplateConfigView,
    pub system_prompt: Seq<char>,
    pub memory_profile: MemoryProfileConfigView,
}

impl DeepView for DomainPackConfig {
    type V = DomainPackConfigView;

    open spec fn deep_view(&self) -> DomainPackConfigView {
        DomainPackConfigView {
            name: self.name.deep_view(),
            description: self.description.deep_view(),
            tools: self.tools.deep_view(),
            tool_decorators: self.tool_decorators.deep_view(),
            context_sources: self.context_sources.deep_view(),
            permission_profile: self.permission_profile.deep_view(),
            paradigm_strategies: self.paradigm_strategies.deep_view(),
            compression_template: self.compression_template.deep_view(),
            system_prompt: self.system_prompt.deep_view(),
            memory_profile: self.memory_profile.deep_view(),
        }
    }
}

impl Duplicate for DomainPackConfig {
    fn duplicate(&self) -> (copy: Self) {
        DomainPackConfig {
            name: self.name.duplicate(),
            description: self.description.duplicate(),
            tools: self.tools.duplicate(),
            tool_decorators: self.tool_decorators.duplicate(),
            context_sources: self.context_sources.duplicate(),
            permission_profile: self.permission_profile.duplicate(),
            paradigm_strategies: self.paradigm_strategies.duplicate(),
            compression_template: self.compression_template.duplicate(),
            system_prompt: self.system_prompt.duplicate(),
            memory_profile: self.memory_profile.duplicate(),
        }
    }
}

impl Clone for DomainPackConfig {
    fn clone(&self) -> (copy: Self)
        ensures
            copy.deep_view() == self.deep_view(),
    {
        self.duplicate()
    }
}

/// Permissions as a configuration file describes them.
#[derive(Debug, PartialEq)]
pub struct PermissionProfileConfig {
    /// The tools that run without asking.
    pub auto_approve: Vec<String>,
    /// The tools that are asked about.
    pub require_confirmation: Vec<String>,
    /// The calls that are refused.
    pub deny_by_default: Vec<DenyPatternConfig>,
}

/// The contents of a [`PermissionProfileConfig`].
#[verifier::ext_equal]
pub struct PermissionProfileConfigView {
    pub auto_approve: Seq<Seq<char>>,
    pub require_confirmation: Seq<Seq<char>>,
    pub deny_by_default: Seq<DenyPatternConfigView>,
}

impl DeepView for PermissionProfileConfig {
    type V = PermissionProfileConfigView;

    open spec fn deep_view(&self) -> PermissionProfileConfigView {
        PermissionProfileConfigView {
            auto_approve: self.auto_approve.deep_view(),
            require_confirmation: self.require_confirmation.deep_view(),
            deny_by_default: self.deny_by_default.deep_view(),
        }
    }
}

impl Duplicate for PermissionProfileConfig {
    fn duplicate(&self) -> (copy: Self) {
        PermissionProfileConfig {
            auto_approve: self.auto_approve.duplicate(),
            require_confirmation: self.require_confirmation.duplicate(),
            deny_by_default: self.deny_by_default.duplicate(),
        }
    }
}

impl Clone for PermissionProfileConfig {
    fn clone(&self) -> (copy: Self)
        ensures
            copy.deep_view() == self.deep_view(),
    {
        self.duplicate()
    }
}

/// Calls that are refused, as a configuration file describes them.
#[derive(Debug, PartialEq)]
pub struct DenyPatternConfig {
    /// The name of the tool, or a pattern of names.
    pub tool: String,
    /// A pattern of arguments.
    pub args_pattern: Option<String>,
    /// What is said where a call is refused.
    pub reason: String,
}

/// The contents of a [`DenyPatternConfig`].
#[verifier::ext_equal]
pub struct DenyPatternConfigView {
    pub tool: Seq<char>,
    pub args_pattern: Option<Seq<char>>,
    pub reason: Seq<char>,
}

impl DeepView for DenyPatternConfig {
    type V = DenyPatternConfigView;

    open spec fn deep_view(&self) -> DenyPatternConfigView {
        DenyPatternConfigView {
            tool: self.tool.deep_view(),
            args_pattern: self.args_pattern.deep_view(),
            reason: self.reason.deep_view(),
        }
    }
}

impl Duplicate for DenyPatternConfig {
    fn duplicate(&self) -> (copy: Self) {
        DenyPatternConfig {
            tool: self.tool.duplicate(),
            args_pattern: self.args_pattern.duplicate(),
            reason: self.reason.duplicate(),
        }
    }
}

impl Clone for DenyPatternConfig {
    fn clone(&self) -> (copy: Self)
        ensures
            copy.deep_view() == self.deep_view(),
    {
        self.duplicate()
    }
}

/// A way of working as a configuration file describes it.
#[derive(Debug, PartialEq)]
pub struct ParadigmStrategyConfig {
    /// A pattern of the tasks that it fits.
    pub trigger: String,
    /// The names of the ways, in order.
    pub sequence: Vec<String>,
    /// The agents that help.
    pub sub_agents: Vec<SubAgentConfig>,
    /// What it is for.
    pub description: String,
}

/// The contents of a [`ParadigmStrategyConfig`].
#[verifier::ext_equal]
pub struct ParadigmStrategyConfigView {
    pub trigger: Seq<char>,
    pub sequence: Seq<Seq<char>>,
    pub sub_agents: Seq<SubAgentConfigView>,
    pub description: Seq<char>,
}

impl DeepView for ParadigmStrategyConfig {
    type V = ParadigmStrategyConfigView;

    open spec fn deep_view(&self) -> ParadigmStrategyConfigView {
        ParadigmStrategyConfigView {
            trigger: self.trigger.deep_view(),
            sequence: self.sequence.deep_view(),
            sub_agents: self.sub_agents.deep_view(),
            description: self.description.deep_view(),
        }
    }
}

impl Duplicate for ParadigmStrategyConfig {
    fn duplicate(&self) -> (copy: Self) {
        ParadigmStrategyConfig {
            trigger: self.trigger.duplicate(),
            sequence: self.sequence.duplicate(),
            sub_agents: self.sub_agents.duplicate(),
            description: self.description.duplicate(),
        }
    }
}

impl Clone for ParadigmStrategyConfig {
    fn clone(&self) -> (copy: Self)
        ensures
            copy.deep_view() == self.deep_view(),
    {
        self.duplicate()
    }
}

/// A helping agent as a configuration file describes it.
#[derive(Debug, PartialEq)]
pub struct SubAgentConfig {
    /// The name.
    pub name: String,
    /// What the agent does.
    pub description: String,
    /// What the agent is told.
    pub system_prompt: String,
    /// The tools of the agent.
    pub available_tools: Vec<String>,
    /// The permission level: `read`, `standard` or `admin`.
    pub permission_threshold: String,
    /// Whether the agent changes files.
    pub modifies_files: bool,
}

/// The contents of a [`SubAgentConfig`].
#[verifier::ext_equal]
pub struct SubAgentConfigView {
    pub name: Seq<char>,
    pub description: Seq<char>,
    pub system_prompt: Seq<char>,
    pub available_tools: Seq<Seq<char>>,
    pub permission_threshold: Seq<char>,
    pub modifies_files: bool,
}

impl DeepView for SubAgentConfig {
    type V = SubAgentConfigView;

    open spec fn deep_view(&self) -> SubAgentConfigView {
        SubAgentConfigView {
            name: self.name.deep_view(),
            description: self.description.deep_view(),
            system_prompt: self.system_prompt.deep_view(),
            available_tools: self.available_tools.deep_view(),
            permission_threshold: self.permission_threshold.deep_view(),
            modifies_files: self.modifies_files,
        }
    }
}

impl Duplicate for SubAgentConfig {
    fn duplicate(&self) -> (copy: Self) {
        SubAgentConfig {
            name: self.name.duplicate(),
            description: self.description.duplicate(),
            system_prompt: self.system_prompt.duplicate(),
            available_tools: self.available_tools.duplicate(),
            permission_threshold: self.permission_threshold.duplicate(),
            modifies_files: self.modifies_files,
        }
    }
}

impl Clone for SubAgentConfig {
    fn clone(&self) -> (copy: Self)
        ensures
            copy.deep_view() == self.deep_view(),
    {
        self.duplicate()
    }
}

/// A template of summaries as a configuration file describes it.
#[derive(Debug, PartialEq)]
pub struct CompressionTemplateConfig {
    /// The name.
    pub name: String,
    /// What a summary keeps.
    pub preserve_fields: Vec<String>,
    /// How many characters are kept, by kind of content.
    pub truncate_rules: Table<usize>,
}

/// The contents of a [`CompressionTemplateConfig`].
#[verifier::ext_equal]
pub struct CompressionTemplateConfigView {
    pub name: Seq<char>,
    pub preserve_fields: Seq<Seq<char>>,
    pub truncate_rules: Seq<(Seq<char>, usize)>,
}

impl DeepView for CompressionTemplateConfig {
    type V = CompressionTemplateConfigView;

    open spec fn deep_view(&self) -> CompressionTemplateConfigView {
        CompressionTemplateConfigView {
            name: self.name.deep_view(),
            preserve_fields: self.preserve_fields.deep_view(),
            truncate_rules: self.truncate_rules.deep_view(),
        }
    }
}

impl Duplicate for CompressionTemplateConfig {
    fn duplicate(&self) -> (copy: Self) {
        CompressionTemplateConfig {
            name: self.name.duplicate(),
            preserve_fields: self.preserve_fields.duplicate(),
            truncate_rules: self.truncate_rules.duplicate(),
        }
    }
}

impl Clone for CompressionTemplateConfig {
    fn clone(&self) -> (copy: Self)
        ensures
            copy.deep_view() == self.deep_view(),
    {
        self.duplicate()
    }
}

/// What is remembered, as a configuration file describes it.
#[derive(Debug, PartialEq)]
pub struct MemoryProfileConfig {
    /// The name.
    pub name: String,
    /// The kinds of facts that are kept.
    pub extraction_schema: Vec<String>,
    /// How facts are recalled.
    pub recall: RecallConfig,
    /// How much of what is always at hand there may be.
    pub core_budget_tokens: usize,
    /// Whether the agent manages its memory itself.
    pub enable_memory_tools: bool,
    /// The kinds of facts that are kept for the user.
    pub habit_fact_types: Vec<String>,
    /// How facts fade.
    pub decay: DecayPolicy,
    /// How the state of work is kept.
    pub working_state: WorkingStatePolicyConfig,
    /// How skills come and go.
    pub skill_lifecycle: SkillLifecyclePolicyConfig,
}

/// The contents of a [`MemoryProfileConfig`].
#[verifier::ext_equal]
pub struct MemoryProfileConfigView {
    pub name: Seq<char>,
    pub extraction_schema: Seq<Seq<char>>,
    pub recall: RecallConfigView,
    pub core_budget_tokens: usize,
    pub enable_memory_tools: bool,
    pub habit_fact_types: Seq<Seq<char>>,
    pub decay: DecayPolicyView,
    pub working_state: WorkingStatePolicyConfigView,
    pub skill_lifecycle: SkillLifecyclePolicyConfigView,
}

impl DeepView for MemoryProfileConfig {
    type V = MemoryProfileConfigView;

    open spec fn deep_view(&self) -> MemoryProfileConfigView {
        MemoryProfileConfigView {
            name: self.name.deep_view(),
            extraction_schema: self.extraction_schema.deep_view(),
            recall: self.recall.deep_view(),
            core_budget_tokens: self.core_budget_tokens,
            enable_memory_tools: self.enable_memory_tools,
            habit_fact_types: self.habit_fact_types.deep_view(),
            decay: self.decay.deep_view(),
            working_state: self.working_state.deep_view(),
            skill_lifecycle: self.skill_lifecycle.deep_view(),
        }
    }
}

impl Duplicate for MemoryProfileConfig {
    fn duplicate(&self) -> (copy: Self) {
        MemoryProfileConfig {
            name: self.name.duplicate(),
            extraction_schema: self.extraction_schema.duplicate(),
            recall: self.recall.duplicate(),
            core_budget_tokens: self.core_budget_tokens,
            enable_memory_tools: self.enable_memory_tools,
            habit_fact_types: self.habit_fact_types.duplicate(),
            decay: self.decay.duplicate(),
            working_state: self.working_state.duplicate(),
            skill_lifecycle: self.skill_lifecycle.duplicate(),
        }
    }
}

impl Clone for MemoryProfileConfig {
    fn clone(&self) -> (copy: Self)
        ensures
            copy.deep_view() == self.deep_view(),
    {
        self.duplicate()
    }
}

/// How the state of work is kept, as a configuration file describes it.
#[derive(Debug, PartialEq)]
pub struct WorkingStatePolicyConfig {
    /// Where it is stored.
    pub storage_root: String,
    /// How often it is stored.
    pub checkpoint_granularity: String,
    /// What it is held against.
    pub ground_truth_reconciliation: String,
    /// How it shows in later sessions.
    pub cross_session_surface: String,
    /// How long it stays.
    pub retention: String,
    /// How much of it is kept.
    pub thickness: String,
    /// From how many events on it is made compact.
    pub compaction_event_threshold: usize,
    /// How many events stay then.
    pub compaction_keep_recent: usize,
    /// After how many seconds it is put away.
    pub max_age_before_archive_secs: u64,
}

/// The contents of a [`WorkingStatePolicyConfig`].
#[verifier::ext_equal]
pub struct WorkingStatePolicyConfigView {
    pub storage_root: Seq<char>,
    pub checkpoint_granularity: Seq<char>,
    pub ground_truth_reconciliation: Seq<char>,
    pub cross_session_surface: Seq<char>,
    pub retention: Seq<char>,
    pub thickness: Seq<char>,
    pub compaction_event_threshold: usize,
    pub compaction_keep_recent: usize,
    pub max_age_before_archive_secs: u64,
}

impl DeepView for WorkingStatePolicyConfig {
    type V = WorkingStatePolicyConfigView;

    open spec fn deep_view(&self) -> WorkingStatePolicyConfigView {
        WorkingStatePolicyConfigView {
            storage_root: self.storage_root.deep_view(),
            checkpoint_granularity: self.checkpoint_granularity.deep_view(),
            ground_truth_reconciliation: self.ground_truth_reconciliation.deep_view(),
            cross_session_surface: self.cross_session_surface.deep_view(),
            retention: self.retention.deep_view(),
            thickness: self.thickness.deep_view(),
            compaction_event_threshold: self.compaction_event_threshold,
            compaction_keep_recent: self.compaction_keep_recent,
            max_age_before_archive_secs: self.max_age_before_archive_secs,
        }
    }
}

impl Duplicate for WorkingStatePolicyConfig {
    fn duplicate(&self) -> (copy: Self) {
        WorkingStatePolicyConfig {
            storage_root: self.storage_root.duplicate(),
            checkpoint_granularity: self.checkpoint_granularity.duplicate(),
            ground_truth_reconciliation: self.ground_truth_reconciliation.duplicate(),
            cross_session_surface: self.cross_session_surface.duplicate(),
            retention: self.retention.duplicate(),
            thickness: self.thickness.duplicate(),
            compaction_event_threshold: self.compaction_event_threshold,
            compaction_keep_recent: self.compaction_keep_recent,
            max_age_before_archive_secs: self.max_age_before_archive_secs,
        }
    }
}

impl Clone for WorkingStatePolicyConfig {
    fn clone(&self) -> (copy: Self)
        ensures
            copy.deep_view() == self.deep_view(),
    {
        self.duplicate()
    }
}

/// How skills come and go, as a configuration file describes it.
#[derive(Debug, PartialEq)]
pub struct SkillLifecyclePolicyConfig {
    /// After how many seconds a skill is stale.
    pub stale_after_secs: u64,
    /// After how many seconds a skill is put away.
    pub archive_after_secs: u64,
    /// Whether that happens by itself.
    pub auto_transitions: bool,
    /// How many copies are kept.
    pub backup_count: usize,
    /// Where skills are stored.
    pub storage_root: String,
    /// For how many seconds a skill may go unused.
    pub grace_unused_secs: u64,
}

/// The contents of a [`SkillLifecyclePolicyConfig`].
#[verifier::ext_equal]
pub struct SkillLifecyclePolicyConfigView {
    pub stale_after_secs: u64,
    pub archive_after_secs: u64,
    pub auto_transitions: bool,
    pub backup_count: usize,
    pub storage_root: Seq<char>,
    pub grace_unused_secs: u64,
}

impl DeepView for SkillLifecyclePolicyConfig {
    type V = SkillLifecyclePolicyConfigView;

    open spec fn deep_view(&self) -> SkillLifecyclePolicyConfigView {
        SkillLifecyclePolicyConfigView {
            stale_after_secs: self.stale_after_secs,
            archive_after_secs: self.archive_after_secs,
            auto_transitions: self.auto_transitions,
            backup_count: self.backup_count,
            storage_root: self.storage_root.deep_view(),
            grace_unused_secs: self.grace_unused_secs,
        }
    }
}

impl Duplicate for SkillLifecyclePolicyConfig {
    fn duplicate(&self) -> (copy: Self) {
        SkillLifecyclePolicyConfig {
            stale_after_secs: self.stale_after_secs,
            archive_after_secs: self.archive_after_secs,
            auto_transitions: self.auto_transitions,
            backup_count: self.backup_count,
            storage_root: self.storage_root.duplicate(),
            grace_unused_secs: self.grace_unused_secs,
        }
    }
}

impl Clone for SkillLifecyclePolicyConfig {
    fn clone(&self) -> (copy: Self)
        ensures
            copy.deep_view() == self.deep_view(),
    {
        self.duplicate()
    }
}

// ─── What a file may leave out ──────────────────────────────────────────────

/// The level of a helping agent of which nothing else is said.
pub fn default_permission_threshold() -> (r: String)
    ensures
        r@ == "standard"@,
{
    "standard".to_string()
}

/// How the state of work is kept where nothing else is said.
pub open spec fn usual_working_state() -> WorkingStatePolicyConfigView {
    WorkingStatePolicyConfigView {
        storage_root: "in_repo"@,
        checkpoint_granularity: "every_step"@,
        ground_truth_reconciliation: "git"@,
        cross_session_surface: "auto_inject"@,
        retention: "archive_on_complete"@,
        thickness: "thin"@,
        compaction_event_threshold: 200,
        compaction_keep_recent: 50,
        max_age_before_archive_secs: 2_592_000,
    }
}

impl Default for WorkingStatePolicyConfig {
    fn default() -> (r: Self)
        ensures
            r.deep_view() == usual_working_state(),
    {
        WorkingStatePolicyConfig {
            storage_root: "in_repo".to_string(),
            checkpoint_granularity: "every_step".to_string(),
            ground_truth_reconciliation: "git".to_string(),
            cross_session_surface: "auto_inject".to_string(),
            retention: "archive_on_complete".to_string(),
            thickness: "thin".to_string(),
            compaction_event_threshold: 200,
            compaction_keep_recent: 50,
            max_age_before_archive_secs: 30 * 24 * 3600,
        }
    }
}

/// How skills come and go where nothing else is said.
pub open spec fn usual_skills() -> SkillLifecyclePolicyConfigView {
    SkillLifecyclePolicyConfigView {
        stale_after_secs: 2_592_000,
        archive_after_secs: 7_776_000,
        auto_transitions: true,
        backup_count: 5,
        storage_root: "home_dir"@,
        grace_unused_secs: 604_800,
    }
}

impl Default for SkillLifecyclePolicyConfig {
    fn default() -> (r: Self)
        ensures
            r.deep_view() == usual_skills(),
    {
        SkillLifecyclePolicyConfig {
            stale_after_secs: 30 * 24 * 3600,
            archive_after_secs: 90 * 24 * 3600,
            auto_transitions: true,
            backup_count: 5,
            storage_root: "home_dir".to_string(),
            grace_unused_secs: 7 * 24 * 3600,
        }
    }
}

/// What is remembered where nothing else is said.
pub open spec fn usual_memory() -> MemoryProfileConfigView {
    MemoryProfileConfigView {
        name: Seq::empty(),
        extraction_schema: Seq::empty(),
        recall: memory_profile::usual_recall(),
        core_budget_tokens: 2048,
        enable_memory_tools: true,
        habit_fact_types: Seq::empty(),
        decay: memory_profile::keeping(),
        working_state: usual_working_state(),
        skill_lifecycle: usual_skills(),
    }
}

impl Default for MemoryProfileConfig {
    fn default() -> (r: Self)
        ensures
            r.deep_view() == usual_memory(),
    {
        proof {
            reveal_strlit("");
            assert(""@ =~= Seq::<char>::empty());
        }
        MemoryProfileConfig {
            name: "".to_string(),
            extraction_schema: Vec::new(),
            recall: RecallConfig::default(),
            core_budget_tokens: 2048,
            enable_memory_tools: true,
            habit_fact_types: Vec::new(),
            decay: DecayPolicy::default(),
            working_state: WorkingStatePolicyConfig::default(),
            skill_lifecycle: SkillLifecyclePolicyConfig::default(),
        }
    }
}

impl Default for CompressionTemplateConfig {
    fn default() -> (r: Self)
        ensures
            r.deep_view() == (CompressionTemplateConfigView {
                name: Seq::empty(),
                preserve_fields: Seq::empty(),
                truncate_rules: Seq::empty(),
            }),
    {
        proof {
            reveal_strlit("");
            assert(""@ =~= Seq::<char>::empty());
        }
        CompressionTemplateConfig {
            name: "".to_string(),
            preserve_fields: Vec::new(),
            truncate_rules: Table::new(),
        }
    }
}

// ─── Tools ──────────────────────────────────────────────────────────────────

/// The names that are known tools.
pub open spec fn known_of(names: Seq<Seq<char>>) -> Seq<Seq<char>> {
    names.filter(|name: Seq<char>| domain_spec::known_tools().contains(name))
}

/// The tools of the names that are known; other names are passed over.
pub fn resolve_tools(names: &Vec<String>) -> (r: Vec<ToolHandle>)
    ensures
        r.deep_view() == domain_pack::host_tools(known_of(names.deep_view())),
{
    let known = domain_spec::DomainPackSpec::known_tool_names();
    let ghost all = names.deep_view();
    let ghost keep = |name: Seq<char>| domain_spec::known_tools().contains(name);
    let mut kept: Vec<String> = Vec::new();
    let mut i: usize = 0;
    proof {
        reveal(Seq::filter);
        assert(all.take(0).filter(keep) =~= Seq::empty());
    }
    while i < names.len()
        invariant
            i <= names.len(),
            all == names.deep_view(),
            known.deep_view() == domain_spec::known_tools(),
            keep == (|name: Seq<char>| domain_spec::known_tools().contains(name)),
            kept.deep_view() == all.take(i as int).filter(keep),
        decreases names.len() - i,
    {
        let ghost before = kept.deep_view();
        proof {
            reveal(Seq::filter);
            assert(all[i as int] == names@[i as int]@);
            assert(all.take(i + 1).drop_last() =~= all.take(i as int));
        }
        if text::list_contains(&known, names[i].as_str()) {
            kept.push(names[i].clone());
            assert(kept.deep_view() =~= before.push(all[i as int]));
        }
        i = i + 1;
    }
    assert(all.take(i as int) =~= all);
    ToolHandle::hosts(&kept)
}

/// What is said of tools, by tool, as decorators.
pub open spec fn described(entries: Seq<(Seq<char>, Seq<char>)>) -> Seq<ToolDecoratorView> {
    entries.map_values(
        |entry: (Seq<char>, Seq<char>)| tool_decorator::decorated(entry.0, entry.1, None),
    )
}

/// What is said of tools, by tool, as decorators.
pub fn resolve_decorators(entries: &Table<String>) -> (r: Vec<ToolDecorator>)
    ensures
        r.deep_view() == described(entries.deep_view()),
{
    let ghost all = entries.deep_view();
    let mut r: Vec<ToolDecorator> = Vec::new();
    let mut i: usize = 0;
    while i < entries.len()
        invariant
            i <= all.len(),
            all == entries.deep_view(),
            r.deep_view() == described(all.take(i as int)),
        decreases all.len() - i,
    {
        let ghost before = r.deep_view();
        r.push(ToolDecorator::with_description(entries.key_at(i), entries.value_at(i).as_str()));
        assert(r.deep_view() =~= before.push(
            tool_decorator::decorated(all[i as int].0, all[i as int].1, None),
        ));
        i = i + 1;
        assert(r.deep_view() =~= described(all.take(i as int)));
    }
    assert(all.take(i as int) =~= all);
    r
}

// ─── Sources ────────────────────────────────────────────────────────────────

/// The source of a name, for a project; no source where the name is not known.
pub open spec fn source_named(name: Seq<char>, project_dir: Seq<char>) -> Option<
    SourceHandleView,
> {
    if name == "project_instructions"@ {
        Some(
            builtin_sources::source_in(name, project_dir, RefreshPolicyView::OnceAtStart, 1),
        )
    } else if name == "git_status"@ {
        Some(builtin_sources::source_in(name, project_dir, RefreshPolicyView::OnChange, 10))
    } else if name == "file_tree"@ {
        Some(
            builtin_sources::source_in(name, project_dir, RefreshPolicyView::OnceAtStart, 20),
        )
    } else if name == "project_config"@ {
        Some(
            builtin_sources::source_in(name, project_dir, RefreshPolicyView::OnceAtStart, 30),
        )
    } else if name == "date"@ {
        Some(
            builtin_sources::source_anywhere(
                name,
                RefreshPolicyView::Periodic(time::seconds(3600)),
                5,
            )
        )
    } else if name == "environment"@ {
        Some(builtin_sources::source_anywhere(name, RefreshPolicyView::OnceAtStart, 15))
    } else {
        None
    }
}

/// The sources of the names that are known, in their order.
pub open spec fn sources_named(names: Seq<Seq<char>>, project_dir: Seq<char>) -> Seq<
    SourceHandleView,
>
    decreases names.len(),
{
    if names.len() == 0 {
        Seq::empty()
    } else {
        let front = sources_named(names.drop_last(), project_dir);
        match source_named(names.last(), project_dir) {
            Some(source) => front.push(source),
            None => front,
        }
    }
}

/// The source of a name, for a project; no source where the name is not known.
pub fn resolve_source(name: &str, project_dir: &str) -> (r: Option<SourceHandle>)
    ensures
        r.deep_view() == source_named(name@, project_dir@),
{
    if text::same(name, "project_instructions") {
        Some(ProjectInstructionsSource::new(project_dir).handle())
    } else if text::same(name, "git_status") {
        Some(GitStatusSource::new(project_dir).handle())
    } else if text::same(name, "file_tree") {
        Some(FileTreeSource::new(project_dir).handle())
    } else if text::same(name, "project_config") {
        Some(ProjectConfigSource::new(project_dir).handle())
    } else if text::same(name, "date") {
        Some(DateSource::new().handle())
    } else if text::same(name, "environment") {
        Some(EnvironmentInfoSource::new().handle())
    } else {
        None
    }
}

/// The sources of the names that are known, in their order; other names are
/// passed over.
pub fn resolve_context_sources(names: &Vec<String>, project_dir: &str) -> (r: Vec<SourceHandle>)
    ensures
        r.deep_view() == sources_named(names.deep_view(), project_dir@),
{
    let ghost all = names.deep_view();
    let mut r: Vec<SourceHandle> = Vec::new();
    let mut i: usize = 0;
    while i < names.len()
        invariant
            i <= names.len(),
            all == names.deep_view(),
            r.deep_view() == sources_named(all.take(i as int), project_dir@),
        decreases names.len() - i,
    {
        let ghost before = r.deep_view();
        assert(all.take(i + 1).drop_last() =~= all.take(i as int));
        assert(all[i as int] == names@[i as int]@);
        match resolve_source(names[i].as_str(), project_dir) {
            Some(source) => {
                let ghost found = source.deep_view();
                r.push(source);
                assert(r.deep_view() =~= before.push(found));
            },
            None => {},
        }
        i = i + 1;
    }
    assert(all.take(i as int) =~= all);
    r
}

// ─── Permissions ────────────────────────────────────────────────────────────

/// The calls that are refused.
pub open spec fn refused(patterns: Seq<DenyPatternConfigView>) -> Seq<DenyPatternView> {
    patterns.map_values(
        |pattern: DenyPatternConfigView|
            DenyPatternView {
                tool_pattern: pattern.tool,
                arg_pattern: pattern.args_pattern,
                reason: pattern.reason,
            },
    )
}

/// The permissions that a configuration gives.
pub open spec fn permissions_of(config: PermissionProfileConfigView) -> PermissionProfileView {
    PermissionProfileView {
        auto_approve: collections::set_of(config.auto_approve),
        require_confirmation: collections::set_of(config.require_confirmation),
        deny_by_default: refused(config.deny_by_default),
        ..permission_profile::bare_profile("config"@)
    }
}

/// The permissions that a configuration gives.
pub fn resolve_permission_profile(config: &PermissionProfileConfig) -> (r: PermissionProfile)
    ensures
        r.deep_view() == permissions_of(config.deep_view()),
{
    let patterns = &config.deny_by_default;
    let ghost all = patterns.deep_view();
    let mut deny_by_default: Vec<DenyPattern> = Vec::new();
    let mut i: usize = 0;
    while i < patterns.len()
        invariant
            i <= patterns.len(),
            all == patterns.deep_view(),
            deny_by_default.deep_view() == refused(all.take(i as int)),
        decreases patterns.len() - i,
    {
        let ghost before = deny_by_default.deep_view();
        assert(all[i as int] == patterns@[i as int].deep_view());
        let pattern = DenyPattern {
            tool_pattern: patterns[i].tool.clone(),
            arg_pattern: patterns[i].args_pattern.duplicate(),
            reason: patterns[i].reason.clone(),
        };
        let ghost made = pattern.deep_view();
        deny_by_default.push(pattern);
        assert(deny_by_default.deep_view() =~= before.push(made));
        i = i + 1;
        assert(deny_by_default.deep_view() =~= refused(all.take(i as int)));
    }
    assert(all.take(i as int) =~= all);
    PermissionProfile {
        auto_approve: NameSet::from_names(config.auto_approve.duplicate()),
        require_confirmation: NameSet::from_names(config.require_confirmation.duplicate()),
        deny_by_default,
        ..PermissionProfile::new("config".to_string())
    }
}

// ─── Ways of working ────────────────────────────────────────────────────────

/// The level of a name.
pub open spec fn level_named(name: Seq<char>) -> PermissionLevel {
    if name == "read"@ {
        PermissionLevel::Read
    } else if name == "admin"@ {
        PermissionLevel::Full
    } else {
        PermissionLevel::Standard
    }
}

/// The level of a name.
pub fn resolve_level(name: &str) -> (r: PermissionLevel)
    ensures
        r == level_named(name@),
{
    if text::same(name, "read") {
        PermissionLevel::Read
    } else if text::same(name, "admin") {
        PermissionLevel::Full
    } else {
        PermissionLevel::Standard
    }
}

/// The helping agent that a configuration gives.
pub open spec fn agent_of(config: SubAgentConfigView) -> SubAgentTypeDefinitionView {
    SubAgentTypeDefinitionView {
        name: config.name,
        description: config.description,
        system_prompt: config.system_prompt,
        available_tools: config.available_tools,
        permission_threshold: level_named(config.permission_threshold),
        budget: 0,
        modifies_files: config.modifies_files,
        merge_strategy: if config.modifies_files {
            SubAgentMergeStrategy::Merge
        } else {
            SubAgentMergeStrategy::PreserveOnly
        },
        structured_output: None,
    }
}

/// The helping agents that a configuration gives.
pub open spec fn agents_of(configs: Seq<SubAgentConfigView>) -> Seq<SubAgentTypeDefinitionView> {
    configs.map_values(|config: SubAgentConfigView| agent_of(config))
}

/// The ways of these names.
pub open spec fn ways_named(names: Seq<Seq<char>>) -> Seq<DomainParadigmKind> {
    names.map_values(|name: Seq<char>| paradigm_strategy::paradigm_named(text::in_lower_case(name)))
}

/// The way of working that a configuration gives.
pub open spec fn strategy_of(config: ParadigmStrategyConfigView) -> ParadigmStrategyView {
    ParadigmStrategyView {
        trigger_pattern: config.trigger,
        paradigm_sequence: ways_named(config.sequence),
        sub_agent_types: agents_of(config.sub_agents),
        description: config.description,
    }
}

/// The ways of working that a configuration gives.
pub open spec fn strategies_of(configs: Seq<ParadigmStrategyConfigView>) -> Seq<
    ParadigmStrategyView,
> {
    configs.map_values(|config: ParadigmStrategyConfigView| strategy_of(config))
}

/// The helping agent that a configuration gives.
pub fn resolve_sub_agent(config: &SubAgentConfig) -> (r: SubAgentTypeDefinition)
    ensures
        r.deep_view() == agent_of(config.deep_view()),
{
    SubAgentTypeDefinition {
        name: config.name.clone(),
        description: config.description.clone(),
        system_prompt: config.system_prompt.clone(),
        available_tools: config.available_tools.duplicate(),
        permission_threshold: resolve_level(config.permission_threshold.as_str()),
        budget: 0,
        modifies_files: config.modifies_files,
        merge_strategy: if config.modifies_files {
            SubAgentMergeStrategy::Merge
        } else {
            SubAgentMergeStrategy::PreserveOnly
        },
        structured_output: None,
    }
}

/// The way of working that a configuration gives.
pub fn resolve_paradigm_strategy(config: &ParadigmStrategyConfig) -> (r: ParadigmStrategy)
    ensures
        r.deep_view() == strategy_of(config.deep_view()),
{
    let ghost names = config.sequence.deep_view();
    let mut paradigm_sequence: Vec<DomainParadigmKind> = Vec::new();
    let mut i: usize = 0;
    while i < config.sequence.len()
        invariant
            i <= config.sequence.len(),
            names == config.sequence.deep_view(),
            paradigm_sequence.deep_view() == ways_named(names.take(i as int)),
        decreases config.sequence.len() - i,
    {
        let ghost before = paradigm_sequence.deep_view();
        assert(names[i as int] == config.sequence@[i as int]@);
        let kind = DomainParadigmKind::from_str(config.sequence[i].as_str());
        paradigm_sequence.push(kind);
        assert(paradigm_sequence.deep_view() =~= before.push(kind));
        i = i + 1;
        assert(paradigm_sequence.deep_view() =~= ways_named(names.take(i as int)));
    }
    assert(names.take(i as int) =~= names);
    let ghost agents = config.sub_agents.deep_view();
    let mut sub_agent_types: Vec<SubAgentTypeDefinition> = Vec::new();
    let mut j: usize = 0;
    while j < config.sub_agents.len()
        invariant
            j <= config.sub_agents.len(),
            agents == config.sub_agents.deep_view(),
            sub_agent_types.deep_view() == agents_of(agents.take(j as int)),
        decreases config.sub_agents.len() - j,
    {
        let ghost before = sub_agent_types.deep_view();
        assert(agents[j as int] == config.sub_agents@[j as int].deep_view());
        sub_agent_types.push(resolve_sub_agent(&config.sub_agents[j]));
        assert(sub_agent_types.deep_view() =~= before.push(agent_of(agents[j as int])));
        j = j + 1;
        assert(sub_agent_types.deep_view() =~= agents_of(agents.take(j as int)));
    }
    assert(agents.take(j as int) =~= agents);
    ParadigmStrategy {
        trigger_pattern: config.trigger.clone(),
        paradigm_sequence,
        sub_agent_types,
        description: config.description.clone(),
    }
}

/// The ways of working that a configuration gives.
pub fn resolve_paradigm_strategies(configs: &Vec<ParadigmStrategyConfig>) -> (r: Vec<
    ParadigmStrategy,
>)
    ensures
        r.deep_view() == strategies_of(configs.deep_view()),
{
    let ghost all = configs.deep_view();
    let mut r: Vec<ParadigmStrategy> = Vec::new();
    let mut i: usize = 0;
    while i < configs.len()
        invariant
            i <= configs.len(),
            all == configs.deep_view(),
            r.deep_view() == strategies_of(all.take(i as int)),
        decreases configs.len() - i,
    {
        let ghost before = r.deep_view();
        assert(all[i as int] == configs@[i as int].deep_view());
        r.push(resolve_paradigm_strategy(&configs[i]));
        assert(r.deep_view() =~= before.push(strategy_of(all[i as int])));
        i = i + 1;
        assert(r.deep_view() =~= strategies_of(all.take(i as int)));
    }
    assert(all.take(i as int) =~= all);
    r
}

// ─── Summaries and memory ───────────────────────────────────────────────────

/// The template of summaries that a configuration gives.
pub open spec fn template_of(config: CompressionTemplateConfigView) -> CompressionTemplateView {
    CompressionTemplateView {
        name: config.name,
        preserve_fields: config.preserve_fields,
        template: Seq::empty(),
        truncate_rules: config.truncate_rules,
        default_variables: Seq::empty(),
    }
}

/// The template of summaries that a configuration gives.
pub fn resolve_compression_template(config: &CompressionTemplateConfig) -> (r: CompressionTemplate)
    ensures
        r.deep_view() == template_of(config.deep_view()),
{
    proof {
        reveal_strlit("");
        assert(""@ =~= Seq::<char>::empty());
    }
    CompressionTemplate {
        name: config.name.clone(),
        preserve_fields: config.preserve_fields.duplicate(),
        template: "".to_string(),
        truncate_rules: config.truncate_rules.duplicate(),
        default_variables: Table::new(),
    }
}

/// How the state of work is kept.
pub open spec fn working_state_of(config: WorkingStatePolicyConfigView) -> WorkingStatePolicyView {
    WorkingStatePolicyView {
        storage_root: StorageRoot::named(config.storage_root),
        checkpoint_granularity: CheckpointGranularity::named(config.checkpoint_granularity),
        ground_truth_reconciliation: GroundTruthReconciliation::named(
            config.ground_truth_reconciliation,
        ),
        cross_session_surface: CrossSessionSurface::named(config.cross_session_surface),
        retention: Retention::named(config.retention),
        thickness: WorkingStateThickness::named(config.thickness),
        compaction: CompactionConfigView {
            event_threshold: config.compaction_event_threshold,
            keep_recent: config.compaction_keep_recent,
        },
        max_age_before_archive: time::seconds(config.max_age_before_archive_secs),
    }
}

/// How the state of work is kept.
pub fn resolve_working_state(c: &WorkingStatePolicyConfig) -> (r: WorkingStatePolicy)
    ensures
        r.deep_view() == working_state_of(c.deep_view()),
{
    WorkingStatePolicy {
        storage_root: StorageRoot::from_str(c.storage_root.as_str()),
        checkpoint_granularity: CheckpointGranularity::from_str(c.checkpoint_granularity.as_str()),
        ground_truth_reconciliation: GroundTruthReconciliation::from_str(
            c.ground_truth_reconciliation.as_str(),
        ),
        cross_session_surface: CrossSessionSurface::from_str(c.cross_session_surface.as_str()),
        retention: Retention::from_str(c.retention.as_str()),
        thickness: WorkingStateThickness::from_str(c.thickness.as_str()),
        compaction: CompactionConfig {
            event_threshold: c.compaction_event_threshold,
            keep_recent: c.compaction_keep_recent,
        },
        max_age_before_archive: time::from_secs(c.max_age_before_archive_secs),
    }
}

/// How skills come and go.
pub open spec fn skills_of(config: SkillLifecyclePolicyConfigView) -> SkillLifecyclePolicyView {
    SkillLifecyclePolicyView {
        stale_after: time::seconds(config.stale_after_secs),
        archive_after: time::seconds(config.archive_after_secs),
        auto_transitions: config.auto_transitions,
        backup_count: config.backup_count,
        storage_root: StorageRoot::named(config.storage_root),
        grace_unused: time::seconds(config.grace_unused_secs),
    }
}

/// How skills come and go.
pub fn resolve_skill_lifecycle(c: &SkillLifecyclePolicyConfig) -> (r: SkillLifecyclePolicy)
    ensures
        r.deep_view() == skills_of(c.deep_view()),
{
    SkillLifecyclePolicy {
        stale_after: time::from_secs(c.stale_after_secs),
        archive_after: time::from_secs(c.archive_after_secs),
        auto_transitions: c.auto_transitions,
        backup_count: c.backup_count,
        storage_root: StorageRoot::from_str(c.storage_root.as_str()),
        grace_unused: time::from_secs(c.grace_unused_secs),
    }
}

/// What is remembered.
pub open spec fn memory_of(config: MemoryProfileConfigView) -> MemoryProfileView {
    MemoryProfileView {
        name: config.name,
        extraction_schema: memory_profile::kinds(config.extraction_schema),
        recall: config.recall,
        core_budget_tokens: config.core_budget_tokens,
        enable_memory_tools: config.enable_memory_tools,
        habit_fact_types: memory_profile::kinds(config.habit_fact_types),
        decay: config.decay,
        working_state: working_state_of(config.working_state),
        skill_lifecycle: skills_of(config.skill_lifecycle),
    }
}

/// What is remembered.
pub fn resolve_memory_profile(config: &MemoryProfileConfig) -> (r: MemoryProfile)
    ensures
        r.deep_view() == memory_of(config.deep_view()),
{
    MemoryProfile::new(config.name.as_str()).extraction_schema(
        memory_profile::fact_types(&config.extraction_schema),
    ).recall(config.recall.duplicate()).core_budget_tokens(
        config.core_budget_tokens,
    ).enable_memory_tools(config.enable_memory_tools).habit_fact_types(
        memory_profile::fact_types(&config.habit_fact_types),
    ).decay(config.decay.duplicate()).working_state(
        resolve_working_state(&config.working_state),
    ).skill_lifecycle(resolve_skill_lifecycle(&config.skill_lifecycle))
}

// ─── Packs ──────────────────────────────────────────────────────────────────

/// The pack that a configuration gives, for a project.
pub open spec fn resolved(config: DomainPackConfigView, project_dir: Seq<char>) -> DomainPackView {
    DomainPackView {
        name: config.name,
        description: config.description,
        tools: domain_pack::host_tools(known_of(config.tools)),
        tool_decorators: described(config.tool_decorators),
        context_sources: sources_named(config.context_sources, project_dir),
        permission_profile: permissions_of(config.permission_profile),
        paradigm_strategies: strategies_of(config.paradigm_strategies),
        compression_template: template_of(config.compression_template),
        memory_profile: memory_of(config.memory_profile),
        system_prompt_template: config.system_prompt,
        workflows: Seq::empty(),
        state_graphs: Seq::empty(),
        sub_agent_definitions: Seq::empty(),
    }
}

/// The pack that a configuration gives, for a project.
pub fn resolve_config(config: &DomainPackConfig, project_dir: &str) -> (r: DomainPack)
    ensures
        r.deep_view() == resolved(config.deep_view(), project_dir@),
{
    DomainPack {
        name: config.name.clone(),
        description: config.description.clone(),
        tools: resolve_tools(&config.tools),
        tool_decorators: resolve_decorators(&config.tool_decorators),
        context_sources: resolve_context_sources(&config.context_sources, project_dir),
        permission_profile: resolve_permission_profile(&config.permission_profile),
        paradigm_strategies: resolve_paradigm_strategies(&config.paradigm_strategies),
        compression_template: resolve_compression_template(&config.compression_template),
        memory_profile: resolve_memory_profile(&config.memory_profile),
        system_prompt_template: config.system_prompt.clone(),
        workflows: Vec::new(),
        state_graphs: Vec::new(),
        sub_agent_definitions: Vec::new(),
    }
}

// ─── Files ──────────────────────────────────────────────────────────────────

/// The notation of a configuration file.
#[derive(Debug, Clone, Copy, PartialEq, Eq, Structural)]
pub enum ConfigFormat {
    /// YAML.
    Yaml,
    /// TOML.
    Toml,
}

impl DeepView for ConfigFormat {
    type V = ConfigFormat;

    open spec fn deep_view(&self) -> ConfigFormat {
        *self
    }
}

impl Duplicate for ConfigFormat {
    fn duplicate(&self) -> (copy: Self) {
        *self
    }
}

/// The notation of a file with this extension, where there is one.
pub open spec fn format_of(extension: Seq<char>) -> Option<ConfigFormat> {
    if extension == "yaml"@ || extension == "yml"@ {
        Some(ConfigFormat::Yaml)
    } else if extension == "toml"@ {
        Some(ConfigFormat::Toml)
    } else {
        None
    }
}

/// The notation of a file with this extension, where there is one.
pub fn config_format(extension: &str) -> (r: Option<ConfigFormat>)
    ensures
        r == format_of(extension@),
{
    if text::same(extension, "yaml") || text::same(extension, "yml") {
        Some(ConfigFormat::Yaml)
    } else if text::same(extension, "toml") {
        Some(ConfigFormat::Toml)
    } else {
        None
    }
}

/// What is said of a file with an extension that stands for no notation.
pub open spec fn unknown_extension(what: Seq<char>, extension: Seq<char>) -> Seq<char> {
    "Unknown domain "@ + what + " file extension '"@ + extension
        + "' — expected .yaml, .yml, or .toml"@
}

/// What is said of a file with an extension that stands for no notation.
pub fn unknown_extension_message(what: &str, extension: &str) -> (r: String)
    ensures
        r@ == unknown_extension(what@, extension@),
{
    let mut r = "Unknown domain ".to_string();
    r.push_str(what);
    r.push_str(" file extension '");
    r.push_str(extension);
    r.push_str("' — expected .yaml, .yml, or .toml");
    r
}

/// The names of configuration files, in the order in which they are looked for.
pub open spec fn config_files() -> Seq<Seq<char>> {
    seq!["ONEAI.domain.yaml"@, "ONEAI.domain.yml"@, "ONEAI.domain.toml"@]
}

/// The names of configuration files, in the order in which they are looked for.
pub fn config_file_names() -> (r: Vec<String>)
    ensures
        r.deep_view() == config_files(),
{
    text::texts(["ONEAI.domain.yaml", "ONEAI.domain.yml", "ONEAI.domain.toml"])
}

/// The pack of a file, given its extension and what it was read as.
///
/// A file of another extension is refused, whatever it was read as; one that
/// could not be read is refused with what was said of it.
pub fn domain_pack_from_file(
    extension: &str,
    parsed: &Result<DomainPackConfig, String>,
    project_dir: &str,
) -> (r: Result<DomainPack, String>)
    ensures
        r.is_ok() == (format_of(extension@).is_some() && parsed.is_ok()),
        r matches Ok(pack) ==> pack.deep_view() == resolved(
            parsed->Ok_0.deep_view(),
            project_dir@,
        ),
        r matches Err(error) ==> error@ == if format_of(extension@).is_none() {
            unknown_extension("config"@, extension@)
        } else {
            parsed->Err_0@
        },
{
    match config_format(extension) {
        None => Err(unknown_extension_message("config", extension)),
        Some(_) => match parsed {
            Ok(config) => Ok(resolve_config(config, project_dir)),
            Err(error) => Err(error.clone()),
        },
    }
}

/// The pack of a project, given what its first configuration file was read as,
/// where it has one.
///
/// A project without a configuration file gets the coding pack.
pub fn domain_pack_from_dir(
    found: &Option<Result<DomainPackConfig, String>>,
    project_dir: &str,
) -> (r: Result<DomainPack, String>)
    ensures
        match found {
            None => r matches Ok(pack) && pack.deep_view() == coding_pack::coding_contents(
                project_dir@,
            ),
            Some(Ok(config)) => r matches Ok(pack) && pack.deep_view() == resolved(
                config.deep_view(),
                project_dir@,
            ),
            Some(Err(error)) => r matches Err(said) && said@ == error@,
        },
{
    match found {
        None => Ok(coding_pack::coding_pack(project_dir)),
        Some(Ok(config)) => Ok(resolve_config(config, project_dir)),
        Some(Err(error)) => Err(error.clone()),
    }
}

/// The first place at which there is something, or their number.
pub open spec fn first_present(present: Seq<bool>) -> nat
    decreases present.len(),
{
    if present.len() == 0 || present[0] {
        0
    } else {
        1 + first_present(present.drop_first())
    }
}

/// The configuration file that counts, given which of them there are, in the
/// order in which they are looked for.
pub fn pick_config_file(present: &Vec<bool>) -> (r: Option<String>)
    requires
        present.len() == config_files().len(),
    ensures
        r.deep_view() == if first_present(present@) < present.len() {
            Some(config_files()[first_present(present@) as int])
        } else {
            None
        },
{
    let names = config_file_names();
    let ghost all = present@;
    let mut i: usize = 0;
    assert(all.skip(0) =~= all);
    while i < present.len()
        invariant
            i <= present.len(),
            all == present@,
            all.len() == config_files().len(),
            names.deep_view() == config_files(),
            first_present(all) == i + first_present(all.skip(i as int)),
        decreases present.len() - i,
    {
        assert(all.skip(i as int).drop_first() =~= all.skip(i + 1));
        if present[i] {
            assert(names.deep_view()[i as int] == names@[i as int]@);
            return Some(names[i].clone());
        }
        i = i + 1;
    }
    None
}

// ─── Laws ───────────────────────────────────────────────────────────────────

/// A tool of a resolved pack is a known tool that its configuration names, and
/// each known tool that the configuration names is one of the pack.
pub proof fn law_resolved_tools(
    config: DomainPackConfigView,
    project_dir: Seq<char>,
    name: Seq<char>,
)
    ensures
        (domain_spec::known_tools().contains(name) && config.tools.contains(name))
            == collections::holds_key::<ToolHandle>(
            resolved(config, project_dir).tools,
            name,
        ),
{
    let keep = |name: Seq<char>| domain_spec::known_tools().contains(name);
    let kept = config.tools.filter(keep);
    let tools = resolved(config, project_dir).tools;
    collections::lemma_filter_item(config.tools, keep, name);
    if kept.contains(name) {
        let i = choose|i: int| 0 <= i < kept.len() && kept[i] == name;
        assert(ToolHandle::key_of(tools[i]) == name);
    }
    if collections::holds_key::<ToolHandle>(tools, name) {
        let i = choose|i: int| 0 <= i < tools.len() && ToolHandle::key_of(#[trigger] tools[i]) == name;
        assert(kept[i] == name);
    }
}

/// Where every tool that a configuration names is known, none is passed over.
pub proof fn law_known_tools_all_stay(config: DomainPackConfigView, project_dir: Seq<char>)
    requires
        forall|i: int|
            0 <= i < config.tools.len() ==> domain_spec::known_tools().contains(
                #[trigger] config.tools[i],
            ),
    ensures
        resolved(config, project_dir).tools == domain_pack::host_tools(config.tools),
{
    lemma_all_kept(config.tools);
}

proof fn lemma_all_kept(names: Seq<Seq<char>>)
    requires
        forall|i: int| 0 <= i < names.len() ==> domain_spec::known_tools().contains(#[trigger] names[i]),
    ensures
        known_of(names) == names,
    decreases names.len(),
{
    reveal(Seq::filter);
    if names.len() > 0 {
        let front = names.drop_last();
        assert forall|i: int| 0 <= i < front.len() implies domain_spec::known_tools().contains(
            #[trigger] front[i],
        ) by {
            assert(front[i] == names[i]);
        }
        lemma_all_kept(front);
        assert(domain_spec::known_tools().contains(names[names.len() - 1]));
        assert(front.push(names.last()) =~= names);
    } else {
        assert(known_of(names) =~= names);
    }
}

/// The names of sources that resolve are the known ones.
pub proof fn law_known_sources_resolve(name: Seq<char>, project_dir: Seq<char>)
    ensures
        source_named(name, project_dir).is_some() == domain_spec::known_sources().contains(name),
        source_named(name, project_dir) matches Some(source) ==> source.key == name,
{
    let known = domain_spec::known_sources();
    assert(known[0] == "project_instructions"@ && known[1] == "git_status"@ && known[2]
        == "file_tree"@ && known[3] == "project_config"@ && known[4] == "date"@ && known[5]
        == "environment"@);
}

/// What a configuration that leaves memory out says of it keeps its bounds: fewer
/// events stay than there are before, and skills are stale before they are put
/// away.
pub proof fn law_usual_bounds()
    ensures
        usual_memory().working_state.compaction_keep_recent
            < usual_memory().working_state.compaction_event_threshold,
        usual_memory().skill_lifecycle.stale_after_secs
            < usual_memory().skill_lifecycle.archive_after_secs,
{
}

/// What a configuration that leaves the state of work and skills out says of
/// them is what the coding domain says.
pub proof fn law_usual_policies_are_those_of_coding()
    ensures
        working_state_of(usual_working_state()) == memory_profile::coding_working_state(),
        skills_of(usual_skills()) == memory_profile::coding_skills(),
{
    reveal_strlit("in_repo");
    reveal_strlit("home_dir");
    reveal_strlit("every_step");
    reveal_strlit("on_task_boundary");
    reveal_strlit("critical_nodes");
    reveal_strlit("git");
    reveal_strlit("none");
    reveal_strlit("auto_inject");
    reveal_strlit("on_demand");
    reveal_strlit("archive_on_complete");
    reveal_strlit("keep");
    reveal_strlit("thin");
    reveal_strlit("thick");
    assert("in_repo"@.len() != "home_dir"@.len());
    assert("every_step"@.len() != "on_task_boundary"@.len());
    assert("every_step"@.len() != "critical_nodes"@.len());
    assert("git"@.len() != "none"@.len());
    assert("auto_inject"@.len() != "on_demand"@.len());
    assert("archive_on_complete"@.len() != "keep"@.len());
    assert("thin"@.len() != "thick"@.len());
}

/// The permissions of a resolved pack are those that its configuration lists: a tool is
/// on a list of the pack where it is on that of the configuration, and the calls that the
/// configuration refuses are refused, in its order and for its reasons. All else is as in
/// a profile without rules.
pub proof fn law_resolved_permissions(
    config: DomainPackConfigView,
    project_dir: Seq<char>,
    tool: Seq<char>,
)
    ensures
        ({
            let given = config.permission_profile;
            let profile = resolved(config, project_dir).permission_profile;
            &&& profile.auto_approve.contains(tool) <==> given.auto_approve.contains(tool)
            &&& profile.require_confirmation.contains(tool) <==> given.require_confirmation.contains(
                tool,
            )
            &&& profile.deny_by_default.len() == given.deny_by_default.len()
            &&& forall|i: int|
                0 <= i < given.deny_by_default.len() ==> {
                    &&& (#[trigger] profile.deny_by_default[i]).tool_pattern
                        == given.deny_by_default[i].tool
                    &&& profile.deny_by_default[i].arg_pattern
                        == given.deny_by_default[i].args_pattern
                    &&& profile.deny_by_default[i].reason == given.deny_by_default[i].reason
                }
            &&& profile.permission_overrides.len() == 0
            &&& profile.default_threshold == PermissionLevel::Standard
            &&& profile.trusted_dirs.len() == 0
            &&& profile.exec_policy is None
        }),
{
    collections::lemma_set_of(config.permission_profile.auto_approve, tool);
    collections::lemma_set_of(config.permission_profile.require_confirmation, tool);
}

/// What a resolved pack decides of a call that none of its patterns refuses: a tool that
/// the configuration lets run without asking runs, one that it only lists to be asked
/// about is asked about, and any other goes by the standard level.
pub proof fn law_resolved_decisions(
    config: DomainPackConfigView,
    project_dir: Seq<char>,
    tool: Seq<char>,
    args: Seq<char>,
)
    requires
        forall|i: int|
            0 <= i < resolved(config, project_dir).permission_profile.deny_by_default.len()
                ==> !permission_profile::refuses_call(
                #[trigger] resolved(config, project_dir).permission_profile.deny_by_default[i],
                tool,
                args,
            ),
    ensures
        ({
            let given = config.permission_profile;
            let decided = permission_profile::decision(
                resolved(config, project_dir).permission_profile,
                tool,
                args,
            );
            &&& given.auto_approve.contains(tool) ==> decided is AutoApprove
            &&& !given.auto_approve.contains(tool) && given.require_confirmation.contains(tool)
                ==> decided is RequireConfirmation
            &&& !given.auto_approve.contains(tool) && !given.require_confirmation.contains(tool)
                ==> decided == (PermissionActionView::UseDefaultPermission {
                level: PermissionLevel::Standard,
            })
        }),
{
    let profile = resolved(config, project_dir).permission_profile;
    law_resolved_permissions(config, project_dir, tool);
    permission_profile::law_call_goes_by_the_profile(profile, tool, args);
    collections::lemma_lookup_at(profile.permission_overrides, tool);
}

/// A resolved pack is called, described and told what its configuration says, and has no
/// workflows, graphs or types of sub-agents.
pub proof fn law_resolved_words(config: DomainPackConfigView, project_dir: Seq<char>)
    ensures
        ({
            let pack = resolved(config, project_dir);
            &&& pack.name == config.name
            &&& pack.description == config.description
            &&& pack.system_prompt_template == config.system_prompt
            &&& pack.workflows.len() == 0
            &&& pack.state_graphs.len() == 0
            &&& pack.sub_agent_definitions.len() == 0
            &&& pack.compression_template.name == config.compression_template.name
            &&& pack.compression_template.preserve_fields
                == config.compression_template.preserve_fields
            &&& pack.compression_template.truncate_rules
                == config.compression_template.truncate_rules
            &&& pack.compression_template.template.len() == 0
            &&& pack.compression_template.default_variables.len() == 0
        }),
{
}

/// The tools of a resolved pack stand in the order of the configuration: one more name
/// adds its tool at the end where it is known, and nothing where it is not.
pub proof fn law_resolved_tools_in_order(
    config: DomainPackConfigView,
    project_dir: Seq<char>,
    name: Seq<char>,
)
    ensures
        ({
            let more = DomainPackConfigView { tools: config.tools.push(name), ..config };
            let before = resolved(config, project_dir).tools;
            let after = resolved(more, project_dir).tools;
            &&& domain_spec::known_tools().contains(name) ==> after.drop_last() == before
                && after.len() == before.len() + 1 && after.last().name == name
            &&& !domain_spec::known_tools().contains(name) ==> after == before
            &&& config.tools.len() == 0 ==> before.len() == 0
        }),
{
    let keep = |name: Seq<char>| domain_spec::known_tools().contains(name);
    reveal(Seq::filter);
    assert(config.tools.push(name).drop_last() =~= config.tools);
    let more = DomainPackConfigView { tools: config.tools.push(name), ..config };
    let before = resolved(config, project_dir).tools;
    let after = resolved(more, project_dir).tools;
    if domain_spec::known_tools().contains(name) {
        assert(known_of(more.tools) =~= known_of(config.tools).push(name));
        assert(after.drop_last() =~= before);
    } else {
        assert(known_of(more.tools) =~= known_of(config.tools));
    }
}

/// What a configuration says of tools, the decorators of the pack say: each of the tool
/// that it is said of, and in place of its description alone.
pub proof fn law_resolved_decorators(
    config: DomainPackConfigView,
    project_dir: Seq<char>,
    i: int,
)
    ensures
        resolved(config, project_dir).tool_decorators.len() == config.tool_decorators.len(),
        0 <= i < config.tool_decorators.len() ==> {
            let decorator = resolved(config, project_dir).tool_decorators[i];
            &&& decorator.tool_name == config.tool_decorators[i].0
            &&& decorator.description_override == Some(config.tool_decorators[i].1)
            &&& decorator.permission_override is None
        },
{
}

/// The sources of a resolved pack are those of the names that are known, in the order of
/// the configuration: a further name adds its source at the end where it is known, and
/// nothing where it is not. Those of the project are for the directory of the project.
pub proof fn law_resolved_sources(
    config: DomainPackConfigView,
    project_dir: Seq<char>,
    name: Seq<char>,
)
    ensures
        ({
            let more = DomainPackConfigView {
                context_sources: config.context_sources.push(name),
                ..config
            };
            let before = resolved(config, project_dir).context_sources;
            let after = resolved(more, project_dir).context_sources;
            &&& domain_spec::known_sources().contains(name) ==> {
                &&& after.len() == before.len() + 1
                &&& after.drop_last() == before
                &&& after.last().key == name
                &&& after.last().project_dir == (if name == "date"@ || name == "environment"@ {
                    None
                } else {
                    Some(project_dir)
                })
            }
            &&& !domain_spec::known_sources().contains(name) ==> after == before
            &&& config.context_sources.len() == 0 ==> before.len() == 0
        }),
{
    law_known_sources_resolve(name, project_dir);
    assert(config.context_sources.push(name).drop_last() =~= config.context_sources);
    let before = resolved(config, project_dir).context_sources;
    if let Some(source) = source_named(name, project_dir) {
        assert(before.push(source).drop_last() =~= before);
    }
    reveal_strlit("date");
    reveal_strlit("environment");
    reveal_strlit("project_instructions");
    reveal_strlit("git_status");
    reveal_strlit("file_tree");
    reveal_strlit("project_config");
    assert("date"@.len() == 4 && "environment"@.len() == 11);
    assert("project_instructions"@.len() == 20 && "git_status"@.len() == 10);
    assert("file_tree"@.len() == 9 && "project_config"@.len() == 14);
}

/// The strategies of a resolved pack are those of its configuration, in order: each for
/// the tasks that it is for, with its ways of working in their order, and with the agents
/// that help, each as it is described.
pub proof fn law_resolved_strategies(
    config: DomainPackConfigView,
    project_dir: Seq<char>,
    i: int,
    k: int,
)
    requires
        0 <= i < config.paradigm_strategies.len(),
    ensures
        resolved(config, project_dir).paradigm_strategies.len()
            == config.paradigm_strategies.len(),
        ({
            let given = config.paradigm_strategies[i];
            let strategy = resolved(config, project_dir).paradigm_strategies[i];
            &&& strategy.trigger_pattern == given.trigger
            &&& strategy.description == given.description
            &&& strategy.paradigm_sequence.len() == given.sequence.len()
            &&& 0 <= k < given.sequence.len() ==> strategy.paradigm_sequence[k]
                == paradigm_strategy::paradigm_named(text::in_lower_case(given.sequence[k]))
            &&& strategy.sub_agent_types.len() == given.sub_agents.len()
            &&& 0 <= k < given.sub_agents.len() ==> {
                let agent = strategy.sub_agent_types[k];
                let described = given.sub_agents[k];
                &&& agent.name == described.name
                &&& agent.description == described.description
                &&& agent.system_prompt == described.system_prompt
                &&& agent.available_tools == described.available_tools
                &&& agent.modifies_files == described.modifies_files
                &&& described.permission_threshold == "read"@ ==> agent.permission_threshold
                    == PermissionLevel::Read
                &&& described.permission_threshold == "admin"@ ==> agent.permission_threshold
                    == PermissionLevel::Full
                &&& described.permission_threshold != "read"@ && described.permission_threshold
                    != "admin"@ ==> agent.permission_threshold == PermissionLevel::Standard
                &&& described.modifies_files ==> agent.merge_strategy
                    == SubAgentMergeStrategy::Merge
                &&& !described.modifies_files ==> agent.merge_strategy
                    == SubAgentMergeStrategy::PreserveOnly
                &&& agent.structured_output is None
            }
        }),
{
    reveal_strlit("read");
    reveal_strlit("admin");
    assert("read"@.len() == 4 && "admin"@.len() == 5);
}

/// What the agents of a resolved pack remember is what its configuration says, with times
/// in nanoseconds where it gives seconds.
pub proof fn law_resolved_memory(config: DomainPackConfigView, project_dir: Seq<char>, i: int)
    ensures
        ({
            let given = config.memory_profile;
            let memory = resolved(config, project_dir).memory_profile;
            let state = given.working_state;
            let skills = given.skill_lifecycle;
            &&& memory.name == given.name
            &&& memory.recall == given.recall
            &&& memory.core_budget_tokens == given.core_budget_tokens
            &&& memory.enable_memory_tools == given.enable_memory_tools
            &&& memory.decay == given.decay
            &&& memory.extraction_schema.len() == given.extraction_schema.len()
            &&& memory.habit_fact_types.len() == given.habit_fact_types.len()
            &&& 0 <= i < given.extraction_schema.len() ==> memory.extraction_schema[i].name
                == given.extraction_schema[i]
            &&& 0 <= i < given.habit_fact_types.len() ==> memory.habit_fact_types[i].name
                == given.habit_fact_types[i]
            &&& memory.working_state.compaction.event_threshold == state.compaction_event_threshold
            &&& memory.working_state.compaction.keep_recent == state.compaction_keep_recent
            &&& memory.working_state.max_age_before_archive == state.max_age_before_archive_secs
                * 1_000_000_000
            &&& memory.working_state.storage_root == StorageRoot::named(state.storage_root)
            &&& memory.working_state.checkpoint_granularity == CheckpointGranularity::named(
                state.checkpoint_granularity,
            )
            &&& memory.working_state.ground_truth_reconciliation
                == GroundTruthReconciliation::named(state.ground_truth_reconciliation)
            &&& memory.working_state.cross_session_surface == CrossSessionSurface::named(
                state.cross_session_surface,
            )
            &&& memory.working_state.retention == Retention::named(state.retention)
            &&& memory.working_state.thickness == WorkingStateThickness::named(state.thickness)
            &&& memory.skill_lifecycle.stale_after == skills.stale_after_secs * 1_000_000_000
            &&& memory.skill_lifecycle.archive_after == skills.archive_after_secs * 1_000_000_000
            &&& memory.skill_lifecycle.grace_unused == skills.grace_unused_secs * 1_000_000_000
            &&& memory.skill_lifecycle.auto_transitions == skills.auto_transitions
            &&& memory.skill_lifecycle.backup_count == skills.backup_count
            &&& memory.skill_lifecycle.storage_root == StorageRoot::named(skills.storage_root)
        }),
{
}

/// The first file that is there counts, and none where none is.
pub proof fn law_first_present_counts(present: Seq<bool>, i: int)
    ensures
        0 <= i < present.len() && present[i] && (forall|k: int|
            0 <= k < i ==> !#[trigger] present[k]) ==> first_present(present) == i,
        (
            forall|k: int| 0 <= k < present.len() ==> !#[trigger] present[k]
        ) ==> first_present(present)
            == present.len(),
    decreases present.len(),
{
    if present.len() > 0 {
        let rest = present.drop_first();
        assert forall|k: int| 0 <= k < rest.len() implies #[trigger] rest[k] == present[k + 1] by {}
        law_first_present_counts(rest, i - 1);
        if 0 < i < present.len() && present[i] && (forall|k: int|
            0 <= k < i ==> !#[trigger] present[k]) {
            assert(!present[0]);
            assert(rest[i - 1] == present[i]);
            assert forall|k: int| 0 <= k < i - 1 implies !#[trigger] rest[k] by {
                assert(!present[k + 1]);
            }
        }
        if forall|k: int| 0 <= k < present.len() ==> !#[trigger] present[k] {
            assert(!present[0]);
            assert forall|k: int| 0 <= k < rest.len() implies !#[trigger] rest[k] by {
                assert(!present[k + 1]);
            }
        }
    }
}

/// Both notations are known by their extensions, and no other is.
pub proof fn law_formats_by_extension(extension: Seq<char>)
    ensures
        extension == "yaml"@ || extension == "yml"@ ==> format_of(extension) == Some(
            ConfigFormat::Yaml,
        ),
        extension == "toml"@ ==> format_of(extension) == Some(ConfigFormat::Toml),
        extension != "yaml"@ && extension != "yml"@ && extension != "toml"@ ==> format_of(extension)
            is None,
        config_files() == seq!["ONEAI.domain.yaml"@, "ONEAI.domain.yml"@, "ONEAI.domain.toml"@],
{
    reveal_strlit("yaml");
    reveal_strlit("yml");
    reveal_strlit("toml");
    assert("yaml"@[0] == 'y' && "yml"@[0] == 'y' && "toml"@[0] == 't');
}

/// The coding domain has every source that a configuration may name, for the same project.
pub proof fn law_coding_has_every_known_source(name: Seq<char>, project_dir: Seq<char>)
    requires
        domain_spec::known_sources().contains(name),
    ensures
        source_named(name, project_dir) matches Some(source) && source.key == name
            && coding_pack::coding_contents(project_dir).context_sources.contains(source),
{
    law_known_sources_resolve(name, project_dir);
    let table = coding_pack::coding_contents(project_dir).context_sources;
    assert(table[0].key == "project_instructions"@);
    assert(table[2].key == "git_status"@);
    assert(table[3].key == "file_tree"@);
    assert(table[4].key == "project_config"@);
    assert(table[5].key == "date"@);
    assert(table[6].key == "environment"@);
    let i = choose|i: int|
        0 <= i < domain_spec::known_sources().len() && domain_spec::known_sources()[i] == name;
    lemma_distinct_source_names();
    if i == 0 {
        assert(source_named(name, project_dir) == Some(table[0]));
    } else if i == 1 {
        assert(source_named(name, project_dir) == Some(table[2]));
    } else if i == 2 {
        assert(source_named(name, project_dir) == Some(table[3]));
    } else if i == 3 {
        assert(source_named(name, project_dir) == Some(table[4]));
    } else if i == 4 {
        assert(source_named(name, project_dir) == Some(table[5]));
    } else {
        assert(source_named(name, project_dir) == Some(table[6]));
    }
}

proof fn lemma_distinct_source_names()
    ensures
        forall|i: int, j: int|
            0 <= i < j < 6 ==> domain_spec::known_sources()[i] != domain_spec::known_sources()[j],
{
    reveal_strlit("project_instructions");
    reveal_strlit("git_status");
    reveal_strlit("file_tree");
    reveal_strlit("project_config");
    reveal_strlit("date");
    reveal_strlit("environment");
    let names = domain_spec::known_sources();
    assert(names[0].len() == 20 && names[1].len() == 10 && names[2].len() == 9 && names[3].len()
        == 14 && names[4].len() == 4 && names[5].len() == 11);
}

/// An extension that is not known is named in what is said of it.
pub proof fn law_unknown_extension_is_told(what: Seq<char>, extension: Seq<char>)
    ensures
        text::in_order(unknown_extension(what, extension), seq![what, extension]),
{
    let start = "Unknown domain "@;
    let middle = " file extension '"@;
    let end = "' — expected .yaml, .yml, or .toml"@;
    text::lemma_in_order_between(start, what, middle);
    text::lemma_in_order_piece(start + what + middle, seq![what], extension);
    text::lemma_in_order_before(
        start + what + middle + extension,
        seq![what].push(extension),
        end,
    );
    assert(seq![what].push(extension) =~= seq![what, extension]);
}

} // verus!
