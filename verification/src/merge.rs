//! How the packs of several domains become one.
//!
//! Of the tools, the sources, the strategies, the workflows and the graphs of a
//! name the first is taken; of the decorators and the sub-agents of a name the
//! last. Of two permissions the strictest wins. Conversations are summarised as
//! the first pack says. What agents are told stands one after the other.

use vstd::prelude::*;
use crate::collections::{self, Keyed};
use crate::compression_template::{CompressionTemplate, CompressionTemplateView};
use crate::context_source::{SourceHandle, SourceHandleView};
use crate::data;
use crate::domain_pack::{self, DomainPack, DomainPackView, ToolHandle, ToolHandleView};
use crate::duplicate::Duplicate;
use crate::memory_profile::{self, MemoryProfile, MemoryProfileView};
use crate::paradigm_strategy::{
    self, ParadigmStrategy, ParadigmStrategyView, SubAgentTypeDefinition,
    SubAgentTypeDefinitionView,
};
use crate::permission_profile::{self, PermissionProfile, PermissionProfileView};
use crate::text;
use crate::tool_decorator::{ToolDecorator, ToolDecoratorView};
use crate::types::{PermissionAction, PermissionActionView, PermissionLevel};
use crate::workflow::{StateGraph, StateGraphView, WorkflowConfig, WorkflowConfigView};

verus! {

/// What an agent needs to work in several domains.
#[derive(Debug, PartialEq)]
pub struct MergedDomainPack {
    /// What it is called.
    pub name: String,
    /// What it is for.
    pub description: String,
    /// Its tools.
    pub tools: Vec<ToolHandle>,
    /// What it says of tools in place of what they say of themselves.
    pub tool_decorators: Vec<ToolDecorator>,
    /// Where its agents get what they know of their surroundings.
    pub context_sources: Vec<SourceHandle>,
    /// Which calls run, which are refused, and which the user is asked about.
    pub permission_profile: PermissionProfile,
    /// Which ways of working fit which tasks.
    pub paradigm_strategies: Vec<ParadigmStrategy>,
    /// How conversations are summarised.
    pub compression_template: CompressionTemplate,
    /// What its agents remember.
    pub memory_profile: MemoryProfile,
    /// What its agents are told.
    pub system_prompt_template: String,
    /// Tasks that are done step by step.
    pub workflows: Vec<WorkflowConfig>,
    /// Graphs of what may follow what.
    pub state_graphs: Vec<StateGraph>,
    /// Its types of sub-agents.
    pub sub_agent_definitions: Vec<SubAgentTypeDefinition>,
}

/// The contents of a [`MergedDomainPack`].
#[verifier::ext_equal]
pub struct MergedDomainPackView {
    pub name: Seq<char>,
    pub description: Seq<char>,
    pub tools: Seq<ToolHandleView>,
    pub tool_decorators: Seq<ToolDecoratorView>,
    pub context_sources: Seq<SourceHandleView>,
    pub permission_profile: PermissionProfileView,
    pub paradigm_strategies: Seq<ParadigmStrategyView>,
    pub compression_template: CompressionTemplateView,
    pub memory_profile: MemoryProfileView,
    pub system_prompt_template: Seq<char>,
    pub workflows: Seq<WorkflowConfigView>,
    pub state_graphs: Seq<StateGraphView>,
    pub sub_agent_definitions: Seq<SubAgentTypeDefinitionView>,
}

impl DeepView for MergedDomainPack {
    type V = MergedDomainPackView;

    open spec fn deep_view(&self) -> MergedDomainPackView {
        MergedDomainPackView {
            name: self.name.deep_view(),
            description: self.description.deep_view(),
            tools: self.tools.deep_view(),
            tool_decorators: self.tool_decorators.deep_view(),
            context_sources: self.context_sources.deep_view(),
            permission_profile: self.permission_profile.deep_view(),
            paradigm_strategies: self.paradigm_strategies.deep_view(),
            compression_template: self.compression_template.deep_view(),
            memory_profile: self.memory_profile.deep_view(),
            system_prompt_template: self.system_prompt_template.deep_view(),
            workflows: self.workflows.deep_view(),
            state_graphs: self.state_graphs.deep_view(),
            sub_agent_definitions: self.sub_agent_definitions.deep_view(),
        }
    }
}

impl Duplicate for MergedDomainPack {
    fn duplicate(&self) -> (copy: Self) {
        MergedDomainPack {
            name: self.name.duplicate(),
            description: self.description.duplicate(),
            tools: self.tools.duplicate(),
            tool_decorators: self.tool_decorators.duplicate(),
            context_sources: self.context_sources.duplicate(),
            permission_profile: self.permission_profile.duplicate(),
            paradigm_strategies: self.paradigm_strategies.duplicate(),
            compression_template: self.compression_template.duplicate(),
            memory_profile: self.memory_profile.duplicate(),
            system_prompt_template: self.system_prompt_template.duplicate(),
            workflows: self.workflows.duplicate(),
            state_graphs: self.state_graphs.duplicate(),
            sub_agent_definitions: self.sub_agent_definitions.duplicate(),
        }
    }
}

impl Clone for MergedDomainPack {
    fn clone(&self) -> (copy: Self)
        ensures
            copy.deep_view() == self.deep_view(),
    {
        self.duplicate()
    }
}

/// A pack alone.
pub open spec fn merged_from(pack: DomainPackView) -> MergedDomainPackView {
    MergedDomainPackView {
        name: pack.name,
        description: pack.description,
        tools: pack.tools,
        tool_decorators: pack.tool_decorators,
        context_sources: pack.context_sources,
        permission_profile: pack.permission_profile,
        paradigm_strategies: pack.paradigm_strategies,
        compression_template: pack.compression_template,
        memory_profile: pack.memory_profile,
        system_prompt_template: pack.system_prompt_template,
        workflows: pack.workflows,
        state_graphs: pack.state_graphs,
        sub_agent_definitions: pack.sub_agent_definitions,
    }
}

/// The pack that a merged pack is.
pub open spec fn pack_from(merged: MergedDomainPackView) -> DomainPackView {
    DomainPackView {
        name: merged.name,
        description: merged.description,
        tools: merged.tools,
        tool_decorators: merged.tool_decorators,
        context_sources: merged.context_sources,
        permission_profile: merged.permission_profile,
        paradigm_strategies: merged.paradigm_strategies,
        compression_template: merged.compression_template,
        memory_profile: merged.memory_profile,
        system_prompt_template: merged.system_prompt_template,
        workflows: merged.workflows,
        state_graphs: merged.state_graphs,
        sub_agent_definitions: merged.sub_agent_definitions,
    }
}

/// No packs.
pub open spec fn no_packs() -> MergedDomainPackView {
    merged_from(
        DomainPackView {
            description: "No domain pack configured — using default settings"@,
            ..domain_pack::bare_pack("default"@)
        },
    )
}

/// The tools of all packs: of those of a name the first.
pub open spec fn all_tools(packs: Seq<DomainPackView>) -> Seq<ToolHandleView>
    decreases packs.len(),
{
    if packs.len() == 0 {
        Seq::empty()
    } else {
        collections::with_first::<ToolHandle>(all_tools(packs.drop_last()), packs.last().tools)
    }
}

/// The decorators of all packs: of those of a name the last.
pub open spec fn all_tool_decorators(packs: Seq<DomainPackView>) -> Seq<ToolDecoratorView>
    decreases packs.len(),
{
    if packs.len() == 0 {
        Seq::empty()
    } else {
        collections::with_last::<ToolDecorator>(
            all_tool_decorators(packs.drop_last()),
            packs.last().tool_decorators,
        )
    }
}

/// The sources of all packs: of those of a name the first.
pub open spec fn all_context_sources(packs: Seq<DomainPackView>) -> Seq<SourceHandleView>
    decreases packs.len(),
{
    if packs.len() == 0 {
        Seq::empty()
    } else {
        collections::with_first::<SourceHandle>(
            all_context_sources(packs.drop_last()),
            packs.last().context_sources,
        )
    }
}

/// The strategies of all packs: of those of a name the first.
pub open spec fn all_paradigm_strategies(packs: Seq<DomainPackView>) -> Seq<ParadigmStrategyView>
    decreases packs.len(),
{
    if packs.len() == 0 {
        Seq::empty()
    } else {
        collections::with_first::<ParadigmStrategy>(
            all_paradigm_strategies(packs.drop_last()),
            packs.last().paradigm_strategies,
        )
    }
}

/// The workflows of all packs: of those of a name the first.
pub open spec fn all_workflows(packs: Seq<DomainPackView>) -> Seq<WorkflowConfigView>
    decreases packs.len(),
{
    if packs.len() == 0 {
        Seq::empty()
    } else {
        collections::with_first::<WorkflowConfig>(
            all_workflows(packs.drop_last()),
            packs.last().workflows,
        )
    }
}

/// The graphs of all packs: of those of a name the first.
pub open spec fn all_state_graphs(packs: Seq<DomainPackView>) -> Seq<StateGraphView>
    decreases packs.len(),
{
    if packs.len() == 0 {
        Seq::empty()
    } else {
        collections::with_first::<StateGraph>(
            all_state_graphs(packs.drop_last()),
            packs.last().state_graphs,
        )
    }
}

/// The sub-agents of all packs: of those of a name the last.
pub open spec fn all_sub_agent_definitions(packs: Seq<DomainPackView>) -> Seq<SubAgentTypeDefinitionView>
    decreases packs.len(),
{
    if packs.len() == 0 {
        Seq::empty()
    } else {
        collections::with_last::<SubAgentTypeDefinition>(
            all_sub_agent_definitions(packs.drop_last()),
            packs.last().sub_agent_definitions,
        )
    }
}

/// The permissions of all packs, the strictest of each.
pub open spec fn all_permissions(packs: Seq<DomainPackView>) -> PermissionProfileView
    recommends
        packs.len() > 0,
    decreases packs.len(),
{
    if packs.len() <= 1 {
        packs[0].permission_profile
    } else {
        permission_profile::merged_profile(
            all_permissions(packs.drop_last()),
            packs.last().permission_profile,
        )
    }
}

/// What the agents of all packs remember.
pub open spec fn all_memory(packs: Seq<DomainPackView>) -> MemoryProfileView
    recommends
        packs.len() > 0,
    decreases packs.len(),
{
    if packs.len() <= 1 {
        packs[0].memory_profile
    } else {
        memory_profile::merged_memory(
            all_memory(packs.drop_last()),
            packs.last().memory_profile,
        )
    }
}

/// The names of the packs.
pub open spec fn pack_names(packs: Seq<DomainPackView>) -> Seq<Seq<char>> {
    packs.map_values(|pack: DomainPackView| pack.name)
}

/// The descriptions of the packs, each behind its name.
pub open spec fn pack_descriptions(packs: Seq<DomainPackView>) -> Seq<Seq<char>> {
    packs.map_values(|pack: DomainPackView| pack.name + ": "@ + pack.description)
}

/// What the agents of the packs are told, each under the name of the pack.
pub open spec fn pack_prompts(packs: Seq<DomainPackView>) -> Seq<Seq<char>> {
    packs.map_values(
        |pack: DomainPackView| "## "@ + pack.name + " Domain\n"@ + pack.system_prompt_template,
    )
}

/// The packs together.
pub open spec fn merged_packs(packs: Seq<DomainPackView>) -> MergedDomainPackView {
    if packs.len() == 0 {
        no_packs()
    } else if packs.len() == 1 {
        merged_from(packs[0])
    } else {
        MergedDomainPackView {
            name: text::joined(pack_names(packs), "+"@),
            description: text::joined(pack_descriptions(packs), "; "@),
            permission_profile: all_permissions(packs),
            compression_template: packs[0].compression_template,
            memory_profile: all_memory(packs),
            system_prompt_template: text::joined(pack_prompts(packs), "\n\n"@),
            tools: all_tools(packs),
            tool_decorators: all_tool_decorators(packs),
            context_sources: all_context_sources(packs),
            paradigm_strategies: all_paradigm_strategies(packs),
            workflows: all_workflows(packs),
            state_graphs: all_state_graphs(packs),
            sub_agent_definitions: all_sub_agent_definitions(packs),
        }
    }
}

/// The names, the descriptions and what agents are told, pack after pack.
fn describe_packs(packs: &Vec<DomainPack>) -> (r: (Vec<String>, Vec<String>, Vec<String>))
    ensures
        r.0.deep_view() == pack_names(packs.deep_view()),
        r.1.deep_view() == pack_descriptions(packs.deep_view()),
        r.2.deep_view() == pack_prompts(packs.deep_view()),
{
    let ghost all = packs.deep_view();
    let mut names: Vec<String> = Vec::new();
    let mut descriptions: Vec<String> = Vec::new();
    let mut prompts: Vec<String> = Vec::new();
    let mut i: usize = 0;
    while i < packs.len()
        invariant
            i <= packs.len(),
            all == packs.deep_view(),
            names.deep_view() == pack_names(all.take(i as int)),
            descriptions.deep_view() == pack_descriptions(all.take(i as int)),
            prompts.deep_view() == pack_prompts(all.take(i as int)),
        decreases packs.len() - i,
    {
        let ghost n = names.deep_view();
        let ghost d = descriptions.deep_view();
        let ghost p = prompts.deep_view();
        let pack = &packs[i];
        assert(all[i as int] == pack.deep_view());
        names.push(pack.name.clone());
        let mut description = pack.name.clone();
        description.push_str(": ");
        description.push_str(pack.description.as_str());
        descriptions.push(description);
        let mut prompt = "## ".to_string();
        prompt.push_str(pack.name.as_str());
        prompt.push_str(" Domain\n");
        prompt.push_str(pack.system_prompt_template.as_str());
        prompts.push(prompt);
        let ghost v = all[i as int];
        assert(names.deep_view() =~= n.push(v.name));
        assert(descriptions.deep_view() =~= d.push(v.name + ": "@ + v.description));
        assert(prompts.deep_view() =~= p.push(
            "## "@ + v.name + " Domain\n"@ + v.system_prompt_template,
        ));
        i = i + 1;
        assert(names.deep_view() =~= pack_names(all.take(i as int)));
        assert(descriptions.deep_view() =~= pack_descriptions(all.take(i as int)));
        assert(prompts.deep_view() =~= pack_prompts(all.take(i as int)));
    }
    assert(all.take(i as int) =~= all);
    (names, descriptions, prompts)
}

impl MergedDomainPack {
    /// The packs together.
    pub fn merge(packs: Vec<DomainPack>) -> (r: Self)
        ensures
            r.deep_view() == merged_packs(packs.deep_view()),
    {
        if packs.len() == 0 {
            return MergedDomainPack::empty();
        }
        assert(packs.deep_view()[0] == packs@[0].deep_view());
        if packs.len() == 1 {
            let pack = &packs[0];
            return MergedDomainPack {
                name: pack.name.duplicate(),
                description: pack.description.duplicate(),
                tools: pack.tools.duplicate(),
                tool_decorators: pack.tool_decorators.duplicate(),
                context_sources: pack.context_sources.duplicate(),
                permission_profile: pack.permission_profile.duplicate(),
                paradigm_strategies: pack.paradigm_strategies.duplicate(),
                compression_template: pack.compression_template.duplicate(),
                memory_profile: pack.memory_profile.duplicate(),
                system_prompt_template: pack.system_prompt_template.duplicate(),
                workflows: pack.workflows.duplicate(),
                state_graphs: pack.state_graphs.duplicate(),
                sub_agent_definitions: pack.sub_agent_definitions.duplicate(),
            };
        }
        let ghost all = packs.deep_view();
        let mut tools: Vec<ToolHandle> = Vec::new();
        let mut tool_decorators: Vec<ToolDecorator> = Vec::new();
        let mut context_sources: Vec<SourceHandle> = Vec::new();
        let mut paradigm_strategies: Vec<ParadigmStrategy> = Vec::new();
        let mut workflows: Vec<WorkflowConfig> = Vec::new();
        let mut state_graphs: Vec<StateGraph> = Vec::new();
        let mut sub_agent_definitions: Vec<SubAgentTypeDefinition> = Vec::new();
        let mut i: usize = 0;
        while i < packs.len()
            invariant
                i <= packs.len(),
                all == packs.deep_view(),
                tools.deep_view() == all_tools(all.take(i as int)),
                tool_decorators.deep_view() == all_tool_decorators(all.take(i as int)),
                context_sources.deep_view() == all_context_sources(all.take(i as int)),
                paradigm_strategies.deep_view() == all_paradigm_strategies(all.take(i as int)),
                workflows.deep_view() == all_workflows(all.take(i as int)),
                state_graphs.deep_view() == all_state_graphs(all.take(i as int)),
                sub_agent_definitions.deep_view() == all_sub_agent_definitions(all.take(i as int)),
            decreases packs.len() - i,
        {
            assert(all.take(i + 1).drop_last() =~= all.take(i as int));
            assert(all[i as int] == packs@[i as int].deep_view());
            let pack = &packs[i];
            collections::extend_first(&mut tools, &pack.tools);
            collections::extend_last(&mut tool_decorators, &pack.tool_decorators);
            collections::extend_first(&mut context_sources, &pack.context_sources);
            collections::extend_first(&mut paradigm_strategies, &pack.paradigm_strategies);
            collections::extend_first(&mut workflows, &pack.workflows);
            collections::extend_first(&mut state_graphs, &pack.state_graphs);
            collections::extend_last(&mut sub_agent_definitions, &pack.sub_agent_definitions);
            i = i + 1;
        }
        assert(all.take(i as int) =~= all);
        let mut permission_profile = packs[0].permission_profile.duplicate();
        let mut memory_profile = packs[0].memory_profile.duplicate();
        let mut j: usize = 1;
        assert(all.take(1)[0] == all[0]);
        while j < packs.len()
            invariant
                1 <= j <= packs.len(),
                all == packs.deep_view(),
                permission_profile.deep_view() == all_permissions(all.take(j as int)),
                memory_profile.deep_view() == all_memory(all.take(j as int)),
            decreases packs.len() - j,
        {
            assert(all.take(j + 1).drop_last() =~= all.take(j as int));
            assert(all[j as int] == packs@[j as int].deep_view());
            permission_profile =
            PermissionProfile::merge_strictest(&permission_profile, &packs[j].permission_profile);
            memory_profile = MemoryProfile::merge(&memory_profile, &packs[j].memory_profile);
            j = j + 1;
        }
        assert(all.take(j as int) =~= all);
        let (names, descriptions, prompts) = describe_packs(&packs);
        MergedDomainPack {
            name: text::join(&names, "+"),
            description: text::join(&descriptions, "; "),
            permission_profile,
            compression_template: packs[0].compression_template.duplicate(),
            memory_profile,
            system_prompt_template: text::join(&prompts, "\n\n"),
            tools,
            tool_decorators,
            context_sources,
            paradigm_strategies,
            workflows,
            state_graphs,
            sub_agent_definitions,
        }
    }

    /// No packs.
    pub fn empty() -> (r: Self)
        ensures
            r.deep_view() == no_packs(),
    {
        MergedDomainPack {
            name: "default".to_string(),
            description: "No domain pack configured — using default settings".to_string(),
            tools: Vec::new(),
            tool_decorators: Vec::new(),
            context_sources: Vec::new(),
            permission_profile: PermissionProfile::default(),
            paradigm_strategies: Vec::new(),
            compression_template: CompressionTemplate::default(),
            memory_profile: MemoryProfile::default(),
            system_prompt_template: String::new(),
            workflows: Vec::new(),
            state_graphs: Vec::new(),
            sub_agent_definitions: Vec::new(),
        }
    }

    /// What is said of a tool.
    pub fn find_decorator(&self, tool_name: &str) -> (r: Option<&ToolDecorator>)
        ensures
            match r {
                Some(decorator) => collections::found::<ToolDecorator>(
                    self.deep_view().tool_decorators,
                    tool_name@,
                ) == Some(decorator.deep_view()),
                None => collections::found::<ToolDecorator>(
                    self.deep_view().tool_decorators,
                    tool_name@,
                ) is None,
            },
    {
        match collections::find_key(&self.tool_decorators, tool_name) {
            Some(i) => Some(&self.tool_decorators[i]),
            None => None,
        }
    }

    /// The first strategy that is for the task.
    pub fn find_matching_strategy(&self, task: &str) -> (r: Option<&ParadigmStrategy>)
        ensures
            match r {
                Some(strategy) => paradigm_strategy::first_fitting(
                    self.deep_view().paradigm_strategies,
                    task@,
                ) == Some(strategy.deep_view()),
                None => paradigm_strategy::first_fitting(
                    self.deep_view().paradigm_strategies,
                    task@,
                ) is None,
            },
    {
        paradigm_strategy::find_strategy(&self.paradigm_strategies, task)
    }

    /// What is said of a call of a tool with these arguments.
    pub fn resolve_permission(&self, tool_name: &str, args: &serde_json::Value) -> (r:
        PermissionAction)
        ensures
            r.deep_view() == permission_profile::decision(
                self.deep_view().permission_profile,
                tool_name@,
                data::written(*args),
            ),
    {
        self.permission_profile.resolve(tool_name, args)
    }

    /// Whether there are tools.
    pub fn has_tools(&self) -> (r: bool)
        ensures
            r == (self.deep_view().tools.len() > 0),
    {
        self.tools.len() > 0
    }

    /// Whether there are sources.
    pub fn has_context_sources(&self) -> (r: bool)
        ensures
            r == (self.deep_view().context_sources.len() > 0),
    {
        self.context_sources.len() > 0
    }

    /// The workflow of this name.
    pub fn get_workflow_config(&self, name: &str) -> (r: Option<&WorkflowConfig>)
        ensures
            match r {
                Some(workflow) => collections::found::<WorkflowConfig>(
                    self.deep_view().workflows,
                    name@,
                ) == Some(workflow.deep_view()),
                None => collections::found::<WorkflowConfig>(
                    self.deep_view().workflows,
                    name@,
                ) is None,
            },
    {
        match collections::find_key(&self.workflows, name) {
            Some(i) => Some(&self.workflows[i]),
            None => None,
        }
    }

    /// The graph of this name.
    pub fn get_state_graph(&self, name: &str) -> (r: Option<&StateGraph>)
        ensures
            match r {
                Some(graph) => collections::found::<StateGraph>(
                    self.deep_view().state_graphs,
                    name@,
                ) == Some(graph.deep_view()),
                None => collections::found::<StateGraph>(
                    self.deep_view().state_graphs,
                    name@,
                ) is None,
            },
    {
        match collections::find_key(&self.state_graphs, name) {
            Some(i) => Some(&self.state_graphs[i]),
            None => None,
        }
    }

    /// The names of the workflows.
    pub fn workflow_names(&self) -> (r: Vec<String>)
        ensures
            r.deep_view() == collections::keys_of::<WorkflowConfig>(self.deep_view().workflows),
    {
        collections::list_keys(&self.workflows)
    }

    /// The names of the graphs.
    pub fn state_graph_names(&self) -> (r: Vec<String>)
        ensures
            r.deep_view() == collections::keys_of::<StateGraph>(self.deep_view().state_graphs),
    {
        collections::list_keys(&self.state_graphs)
    }

    /// The first type of sub-agents of this name, whatever the case of its
    /// letters.
    pub fn get_sub_agent_definition(&self, kind: &str) -> (r: Option<&SubAgentTypeDefinition>)
        ensures
            match r {
                Some(definition) => agent_of_kind(
                    self.deep_view().sub_agent_definitions,
                    kind@,
                ) == Some(definition.deep_view()),
                None => agent_of_kind(self.deep_view().sub_agent_definitions, kind@) is None,
            },
    {
        let definitions = &self.sub_agent_definitions;
        let ghost all = definitions.deep_view();
        let mut i: usize = 0;
        assert(all.skip(0) =~= all);
        while i < definitions.len()
            invariant
                i <= definitions.len(),
                all == definitions.deep_view(),
                all == self.deep_view().sub_agent_definitions,
                agent_of_kind(all, kind@) == agent_of_kind(all.skip(i as int), kind@),
            decreases definitions.len() - i,
        {
            assert(all.skip(i as int)[0] == all[i as int]);
            assert(all[i as int] == definitions@[i as int].deep_view());
            if text::eq_ignore_ascii_case(definitions[i].name.as_str(), kind) {
                return Some(&definitions[i]);
            }
            assert(all.skip(i as int).drop_first() =~= all.skip(i + 1));
            i = i + 1;
        }
        None
    }

    /// The names of the types of sub-agents.
    pub fn sub_agent_kind_names(&self) -> (r: Vec<String>)
        ensures
            r.deep_view() == collections::keys_of::<SubAgentTypeDefinition>(
                self.deep_view().sub_agent_definitions,
            ),
    {
        collections::list_keys(&self.sub_agent_definitions)
    }

    /// The pack that this is.
    pub fn to_domain_pack(&self) -> (r: DomainPack)
        ensures
            r.deep_view() == pack_from(self.deep_view()),
    {
        DomainPack {
            name: self.name.duplicate(),
            description: self.description.duplicate(),
            tools: self.tools.duplicate(),
            tool_decorators: self.tool_decorators.duplicate(),
            context_sources: self.context_sources.duplicate(),
            permission_profile: self.permission_profile.duplicate(),
            paradigm_strategies: self.paradigm_strategies.duplicate(),
            compression_template: self.compression_template.duplicate(),
            memory_profile: self.memory_profile.duplicate(),
            system_prompt_template: self.system_prompt_template.duplicate(),
            workflows: self.workflows.duplicate(),
            state_graphs: self.state_graphs.duplicate(),
            sub_agent_definitions: self.sub_agent_definitions.duplicate(),
        }
    }
}

/// The first type of sub-agents of this name, whatever the case of its letters.
pub open spec fn agent_of_kind(
    definitions: Seq<SubAgentTypeDefinitionView>,
    kind: Seq<char>,
) -> Option<SubAgentTypeDefinitionView>
    decreases definitions.len(),
{
    if definitions.len() == 0 {
        None
    } else if text::ascii_lowered(definitions[0].name) == text::ascii_lowered(kind) {
        Some(definitions[0])
    } else {
        agent_of_kind(definitions.drop_first(), kind)
    }
}

// ─── Laws ───────────────────────────────────────────────────────────────────

/// A pack alone stays as it is, and comes back as it was.
pub proof fn law_single_pack(pack: DomainPackView)
    ensures
        pack_from(merged_packs(seq![pack])) == pack,
        ({
            let merged = merged_packs(seq![pack]);
            &&& merged.name == pack.name
            &&& merged.description == pack.description
            &&& merged.tools == pack.tools
            &&& merged.tool_decorators == pack.tool_decorators
            &&& merged.context_sources == pack.context_sources
            &&& merged.permission_profile == pack.permission_profile
            &&& merged.paradigm_strategies == pack.paradigm_strategies
            &&& merged.compression_template == pack.compression_template
            &&& merged.memory_profile == pack.memory_profile
            &&& merged.system_prompt_template == pack.system_prompt_template
            &&& merged.workflows == pack.workflows
            &&& merged.state_graphs == pack.state_graphs
            &&& merged.sub_agent_definitions == pack.sub_agent_definitions
        }),
{
}

/// The pack that a merged pack is holds what the merged pack holds.
pub proof fn law_pack_holds_what_was_merged(merged: MergedDomainPackView)
    ensures
        ({
            let pack = pack_from(merged);
            &&& pack.name == merged.name
            &&& pack.description == merged.description
            &&& pack.tools == merged.tools
            &&& pack.tool_decorators == merged.tool_decorators
            &&& pack.context_sources == merged.context_sources
            &&& pack.permission_profile == merged.permission_profile
            &&& pack.paradigm_strategies == merged.paradigm_strategies
            &&& pack.compression_template == merged.compression_template
            &&& pack.memory_profile == merged.memory_profile
            &&& pack.system_prompt_template == merged.system_prompt_template
            &&& pack.workflows == merged.workflows
            &&& pack.state_graphs == merged.state_graphs
            &&& pack.sub_agent_definitions == merged.sub_agent_definitions
        }),
        merged_packs(seq![pack_from(merged)]) == merged,
{
}

/// Without packs there are no tools, sources, strategies or the like, and every tool
/// goes by the standard level.
pub proof fn law_no_packs_hold_nothing(tool: Seq<char>, args: Seq<char>)
    ensures
        ({
            let merged = merged_packs(Seq::empty());
            &&& merged.name == "default"@
            &&& merged.tools.len() == 0
            &&& merged.tool_decorators.len() == 0
            &&& merged.context_sources.len() == 0
            &&& merged.paradigm_strategies.len() == 0
            &&& merged.system_prompt_template.len() == 0
            &&& merged.workflows.len() == 0
            &&& merged.state_graphs.len() == 0
            &&& merged.sub_agent_definitions.len() == 0
            &&& permission_profile::decision(merged.permission_profile, tool, args)
                == (PermissionActionView::UseDefaultPermission { level: PermissionLevel::Standard })
        }),
{
    permission_profile::law_bare_profile_leaves_tools_alone("default"@, tool, args);
}

/// The tools of all packs are there, those of each name once: the first of them.
pub proof fn law_all_tools(packs: Seq<DomainPackView>)
    ensures
        collections::gathers_first::<ToolHandle>(
            all_tools(packs),
            packs.map_values(|pack: DomainPackView| pack.tools),
        ),
    decreases packs.len(),
{
    let lists = packs.map_values(|pack: DomainPackView| pack.tools);
    if packs.len() > 0 {
        let front = packs.drop_last();
        let before = front.map_values(|pack: DomainPackView| pack.tools);
        let items = packs.last().tools;
        law_all_tools(front);
        collections::lemma_gathers_first_more::<ToolHandle>(
            all_tools(front),
            before,
            items,
        );
        assert(before.push(items) =~= lists);
    }
}

/// The decorators of all packs are there, those of each name once: the last of them.
pub proof fn law_all_tool_decorators(packs: Seq<DomainPackView>)
    ensures
        collections::gathers_last::<ToolDecorator>(
            all_tool_decorators(packs),
            packs.map_values(|pack: DomainPackView| pack.tool_decorators),
        ),
    decreases packs.len(),
{
    let lists = packs.map_values(|pack: DomainPackView| pack.tool_decorators);
    if packs.len() > 0 {
        let front = packs.drop_last();
        let before = front.map_values(|pack: DomainPackView| pack.tool_decorators);
        let items = packs.last().tool_decorators;
        law_all_tool_decorators(front);
        collections::lemma_gathers_last_more::<ToolDecorator>(
            all_tool_decorators(front),
            before,
            items,
        );
        assert(before.push(items) =~= lists);
    }
}

/// The sources of all packs are there, those of each name once: the first of them.
pub proof fn law_all_context_sources(packs: Seq<DomainPackView>)
    ensures
        collections::gathers_first::<SourceHandle>(
            all_context_sources(packs),
            packs.map_values(|pack: DomainPackView| pack.context_sources),
        ),
    decreases packs.len(),
{
    let lists = packs.map_values(|pack: DomainPackView| pack.context_sources);
    if packs.len() > 0 {
        let front = packs.drop_last();
        let before = front.map_values(|pack: DomainPackView| pack.context_sources);
        let items = packs.last().context_sources;
        law_all_context_sources(front);
        collections::lemma_gathers_first_more::<SourceHandle>(
            all_context_sources(front),
            before,
            items,
        );
        assert(before.push(items) =~= lists);
    }
}

/// The strategies of all packs are there, those of each name once: the first of them.
pub proof fn law_all_paradigm_strategies(packs: Seq<DomainPackView>)
    ensures
        collections::gathers_first::<ParadigmStrategy>(
            all_paradigm_strategies(packs),
            packs.map_values(|pack: DomainPackView| pack.paradigm_strategies),
        ),
    decreases packs.len(),
{
    let lists = packs.map_values(|pack: DomainPackView| pack.paradigm_strategies);
    if packs.len() > 0 {
        let front = packs.drop_last();
        let before = front.map_values(|pack: DomainPackView| pack.paradigm_strategies);
        let items = packs.last().paradigm_strategies;
        law_all_paradigm_strategies(front);
        collections::lemma_gathers_first_more::<ParadigmStrategy>(
            all_paradigm_strategies(front),
            before,
            items,
        );
        assert(before.push(items) =~= lists);
    }
}

/// The workflows of all packs are there, those of each name once: the first of them.
pub proof fn law_all_workflows(packs: Seq<DomainPackView>)
    ensures
        collections::gathers_first::<WorkflowConfig>(
            all_workflows(packs),
            packs.map_values(|pack: DomainPackView| pack.workflows),
        ),
    decreases packs.len(),
{
    let lists = packs.map_values(|pack: DomainPackView| pack.workflows);
    if packs.len() > 0 {
        let front = packs.drop_last();
        let before = front.map_values(|pack: DomainPackView| pack.workflows);
        let items = packs.last().workflows;
        law_all_workflows(front);
        collections::lemma_gathers_first_more::<WorkflowConfig>(
            all_workflows(front),
            before,
            items,
        );
        assert(before.push(items) =~= lists);
    }
}

/// The graphs of all packs are there, those of each name once: the first of them.
pub proof fn law_all_state_graphs(packs: Seq<DomainPackView>)
    ensures
        collections::gathers_first::<StateGraph>(
            all_state_graphs(packs),
            packs.map_values(|pack: DomainPackView| pack.state_graphs),
        ),
    decreases packs.len(),
{
    let lists = packs.map_values(|pack: DomainPackView| pack.state_graphs);
    if packs.len() > 0 {
        let front = packs.drop_last();
        let before = front.map_values(|pack: DomainPackView| pack.state_graphs);
        let items = packs.last().state_graphs;
        law_all_state_graphs(front);
        collections::lemma_gathers_first_more::<StateGraph>(
            all_state_graphs(front),
            before,
            items,
        );
        assert(before.push(items) =~= lists);
    }
}

/// The sub-agents of all packs are there, those of each name once: the last of them.
pub proof fn law_all_sub_agent_definitions(packs: Seq<DomainPackView>)
    ensures
        collections::gathers_last::<SubAgentTypeDefinition>(
            all_sub_agent_definitions(packs),
            packs.map_values(|pack: DomainPackView| pack.sub_agent_definitions),
        ),
    decreases packs.len(),
{
    let lists = packs.map_values(|pack: DomainPackView| pack.sub_agent_definitions);
    if packs.len() > 0 {
        let front = packs.drop_last();
        let before = front.map_values(|pack: DomainPackView| pack.sub_agent_definitions);
        let items = packs.last().sub_agent_definitions;
        law_all_sub_agent_definitions(front);
        collections::lemma_gathers_last_more::<SubAgentTypeDefinition>(
            all_sub_agent_definitions(front),
            before,
            items,
        );
        assert(before.push(items) =~= lists);
    }
}

/// Two packs or more become one that holds what any of them holds, the last one
/// included, each name once. Of the tools, the sources, the strategies, the workflows
/// and the graphs of a name the first is taken, and of the decorators and the sub-agents
/// the last.
pub proof fn law_merged_packs_hold_all(packs: Seq<DomainPackView>)
    requires
        packs.len() >= 2,
    ensures
        collections::gathers_first::<ToolHandle>(
            merged_packs(packs).tools,
            packs.map_values(|pack: DomainPackView| pack.tools),
        ),
        collections::gathers_last::<ToolDecorator>(
            merged_packs(packs).tool_decorators,
            packs.map_values(|pack: DomainPackView| pack.tool_decorators),
        ),
        collections::gathers_first::<SourceHandle>(
            merged_packs(packs).context_sources,
            packs.map_values(|pack: DomainPackView| pack.context_sources),
        ),
        collections::gathers_first::<ParadigmStrategy>(
            merged_packs(packs).paradigm_strategies,
            packs.map_values(|pack: DomainPackView| pack.paradigm_strategies),
        ),
        collections::gathers_first::<WorkflowConfig>(
            merged_packs(packs).workflows,
            packs.map_values(|pack: DomainPackView| pack.workflows),
        ),
        collections::gathers_first::<StateGraph>(
            merged_packs(packs).state_graphs,
            packs.map_values(|pack: DomainPackView| pack.state_graphs),
        ),
        collections::gathers_last::<SubAgentTypeDefinition>(
            merged_packs(packs).sub_agent_definitions,
            packs.map_values(|pack: DomainPackView| pack.sub_agent_definitions),
        ),
{
    law_all_tools(packs);
    law_all_tool_decorators(packs);
    law_all_context_sources(packs);
    law_all_paradigm_strategies(packs);
    law_all_workflows(packs);
    law_all_state_graphs(packs);
    law_all_sub_agent_definitions(packs);
}

/// For every name: two packs or more together have a tool of the name, a decorator for
/// it, a source of it and so on where some pack has, and only there.
pub proof fn law_merged_names(packs: Seq<DomainPackView>, key: Seq<char>)
    requires
        packs.len() >= 2,
    ensures
        collections::unique_keys::<ToolHandle>(merged_packs(packs).tools),
        collections::holds_key::<ToolHandle>(merged_packs(packs).tools, key) <==> exists|i: int|
            0 <= i < packs.len() && collections::holds_key::<ToolHandle>(
                (#[trigger] packs[i]).tools,
                key,
            ),
        collections::unique_keys::<ToolDecorator>(merged_packs(packs).tool_decorators),
        collections::holds_key::<ToolDecorator>(
            merged_packs(packs).tool_decorators,
            key,
        ) <==> exists|i: int|
            0 <= i < packs.len() && collections::holds_key::<ToolDecorator>(
                (#[trigger] packs[i]).tool_decorators,
                key,
            ),
        collections::unique_keys::<SourceHandle>(merged_packs(packs).context_sources),
        collections::holds_key::<SourceHandle>(
            merged_packs(packs).context_sources,
            key,
        ) <==> exists|i: int|
            0 <= i < packs.len() && collections::holds_key::<SourceHandle>(
                (#[trigger] packs[i]).context_sources,
                key,
            ),
        collections::unique_keys::<ParadigmStrategy>(merged_packs(packs).paradigm_strategies),
        collections::holds_key::<ParadigmStrategy>(
            merged_packs(packs).paradigm_strategies,
            key,
        ) <==> exists|i: int|
            0 <= i < packs.len() && collections::holds_key::<ParadigmStrategy>(
                (#[trigger] packs[i]).paradigm_strategies,
                key,
            ),
        collections::unique_keys::<WorkflowConfig>(merged_packs(packs).workflows),
        collections::holds_key::<WorkflowConfig>(
            merged_packs(packs).workflows,
            key,
        ) <==> exists|i: int|
            0 <= i < packs.len() && collections::holds_key::<WorkflowConfig>(
                (#[trigger] packs[i]).workflows,
                key,
            ),
        collections::unique_keys::<StateGraph>(merged_packs(packs).state_graphs),
        collections::holds_key::<StateGraph>(
            merged_packs(packs).state_graphs,
            key,
        ) <==> exists|i: int|
            0 <= i < packs.len() && collections::holds_key::<StateGraph>(
                (#[trigger] packs[i]).state_graphs,
                key,
            ),
        collections::unique_keys::<SubAgentTypeDefinition>(
            merged_packs(packs).sub_agent_definitions
        ),
        collections::holds_key::<SubAgentTypeDefinition>(
            merged_packs(packs).sub_agent_definitions,
            key,
        ) <==> exists|i: int|
            0 <= i < packs.len() && collections::holds_key::<SubAgentTypeDefinition>(
                (#[trigger] packs[i]).sub_agent_definitions,
                key,
            ),
{
    law_merged_packs_hold_all(packs);
    let lists = packs.map_values(|pack: DomainPackView| pack.tools);
    assert forall|i: int| 0 <= i < packs.len() implies #[trigger] lists[i]
        == packs[i].tools by {}
    if exists|i: int|
        0 <= i < packs.len() && collections::holds_key::<ToolHandle>(
            (#[trigger] packs[i]).tools,
            key,
        ) {
        let i = choose|i: int|
            0 <= i < packs.len() && collections::holds_key::<ToolHandle>(
                (#[trigger] packs[i]).tools,
                key,
            );
        assert(collections::holds_key::<ToolHandle>(lists[i], key));
    }
    if exists|i: int|
        0 <= i < lists.len() && collections::holds_key::<ToolHandle>(#[trigger] lists[i], key) {
        let i = choose|i: int|
            0 <= i < lists.len() && collections::holds_key::<ToolHandle>(#[trigger] lists[i], key);
        assert(collections::holds_key::<ToolHandle>(packs[i].tools, key));
    }
    let lists = packs.map_values(|pack: DomainPackView| pack.tool_decorators);
    assert forall|i: int| 0 <= i < packs.len() implies #[trigger] lists[i]
        == packs[i].tool_decorators by {}
    if exists|i: int|
        0 <= i < packs.len() && collections::holds_key::<ToolDecorator>(
            (#[trigger] packs[i]).tool_decorators,
            key,
        ) {
        let i = choose|i: int|
            0 <= i < packs.len() && collections::holds_key::<ToolDecorator>(
                (#[trigger] packs[i]).tool_decorators,
                key,
            );
        assert(collections::holds_key::<ToolDecorator>(lists[i], key));
    }
    if exists|i: int|
        0 <= i < lists.len() && collections::holds_key::<ToolDecorator>(#[trigger] lists[i], key) {
        let i = choose|i: int|
            0 <= i < lists.len() && collections::holds_key::<ToolDecorator>(#[trigger] lists[i], key);
        assert(collections::holds_key::<ToolDecorator>(packs[i].tool_decorators, key));
    }
    let lists = packs.map_values(|pack: DomainPackView| pack.context_sources);
    assert forall|i: int| 0 <= i < packs.len() implies #[trigger] lists[i]
        == packs[i].context_sources by {}
    if exists|i: int|
        0 <= i < packs.len() && collections::holds_key::<SourceHandle>(
            (#[trigger] packs[i]).context_sources,
            key,
        ) {
        let i = choose|i: int|
            0 <= i < packs.len() && collections::holds_key::<SourceHandle>(
                (#[trigger] packs[i]).context_sources,
                key,
            );
        assert(collections::holds_key::<SourceHandle>(lists[i], key));
    }
    if exists|i: int|
        0 <= i < lists.len() && collections::holds_key::<SourceHandle>(#[trigger] lists[i], key) {
        let i = choose|i: int|
            0 <= i < lists.len() && collections::holds_key::<SourceHandle>(#[trigger] lists[i], key);
        assert(collections::holds_key::<SourceHandle>(packs[i].context_sources, key));
    }
    let lists = packs.map_values(|pack: DomainPackView| pack.paradigm_strategies);
    assert forall|i: int| 0 <= i < packs.len() implies #[trigger] lists[i]
        == packs[i].paradigm_strategies by {}
    if exists|i: int|
        0 <= i < packs.len() && collections::holds_key::<ParadigmStrategy>(
            (#[trigger] packs[i]).paradigm_strategies,
            key,
        ) {
        let i = choose|i: int|
            0 <= i < packs.len() && collections::holds_key::<ParadigmStrategy>(
                (#[trigger] packs[i]).paradigm_strategies,
                key,
            );
        assert(collections::holds_key::<ParadigmStrategy>(lists[i], key));
    }
    if exists|i: int|
        0 <= i < lists.len() && collections::holds_key::<ParadigmStrategy>(#[trigger] lists[i], key) {
        let i = choose|i: int|
            0 <= i < lists.len() && collections::holds_key::<ParadigmStrategy>(#[trigger] lists[i], key);
        assert(collections::holds_key::<ParadigmStrategy>(packs[i].paradigm_strategies, key));
    }
    let lists = packs.map_values(|pack: DomainPackView| pack.workflows);
    assert forall|i: int| 0 <= i < packs.len() implies #[trigger] lists[i]
        == packs[i].workflows by {}
    if exists|i: int|
        0 <= i < packs.len() && collections::holds_key::<WorkflowConfig>(
            (#[trigger] packs[i]).workflows,
            key,
        ) {
        let i = choose|i: int|
            0 <= i < packs.len() && collections::holds_key::<WorkflowConfig>(
                (#[trigger] packs[i]).workflows,
                key,
            );
        assert(collections::holds_key::<WorkflowConfig>(lists[i], key));
    }
    if exists|i: int|
        0 <= i < lists.len() && collections::holds_key::<WorkflowConfig>(#[trigger] lists[i], key) {
        let i = choose|i: int|
            0 <= i < lists.len() && collections::holds_key::<WorkflowConfig>(#[trigger] lists[i], key);
        assert(collections::holds_key::<WorkflowConfig>(packs[i].workflows, key));
    }
    let lists = packs.map_values(|pack: DomainPackView| pack.state_graphs);
    assert forall|i: int| 0 <= i < packs.len() implies #[trigger] lists[i]
        == packs[i].state_graphs by {}
    if exists|i: int|
        0 <= i < packs.len() && collections::holds_key::<StateGraph>(
            (#[trigger] packs[i]).state_graphs,
            key,
        ) {
        let i = choose|i: int|
            0 <= i < packs.len() && collections::holds_key::<StateGraph>(
                (#[trigger] packs[i]).state_graphs,
                key,
            );
        assert(collections::holds_key::<StateGraph>(lists[i], key));
    }
    if exists|i: int|
        0 <= i < lists.len() && collections::holds_key::<StateGraph>(#[trigger] lists[i], key) {
        let i = choose|i: int|
            0 <= i < lists.len() && collections::holds_key::<StateGraph>(#[trigger] lists[i], key);
        assert(collections::holds_key::<StateGraph>(packs[i].state_graphs, key));
    }
    let lists = packs.map_values(|pack: DomainPackView| pack.sub_agent_definitions);
    assert forall|i: int| 0 <= i < packs.len() implies #[trigger] lists[i]
        == packs[i].sub_agent_definitions by {}
    if exists|i: int|
        0 <= i < packs.len() && collections::holds_key::<SubAgentTypeDefinition>(
            (#[trigger] packs[i]).sub_agent_definitions,
            key,
        ) {
        let i = choose|i: int|
            0 <= i < packs.len() && collections::holds_key::<SubAgentTypeDefinition>(
                (#[trigger] packs[i]).sub_agent_definitions,
                key,
            );
        assert(collections::holds_key::<SubAgentTypeDefinition>(lists[i], key));
    }
    if exists|i: int|
        0 <= i < lists.len() && collections::holds_key::<SubAgentTypeDefinition>(#[trigger] lists[i], key) {
        let i = choose|i: int|
            0 <= i < lists.len() && collections::holds_key::<SubAgentTypeDefinition>(#[trigger] lists[i], key);
        assert(
            collections::holds_key::<SubAgentTypeDefinition>(packs[i].sub_agent_definitions, key)
        );
    }
}

/// A further pack leaves the names that are there in their places.
pub proof fn law_further_pack_comes_last(packs: Seq<DomainPackView>, pack: DomainPackView)
    requires
        packs.len() >= 2,
    ensures
        merged_packs(packs).tools.is_prefix_of(merged_packs(packs.push(pack)).tools),
        collections::keys_of::<ToolDecorator>(merged_packs(packs).tool_decorators).is_prefix_of(
            collections::keys_of::<ToolDecorator>(merged_packs(packs.push(pack)).tool_decorators),
        ),
        merged_packs(packs).context_sources.is_prefix_of(
            merged_packs(packs.push(pack)).context_sources
        ),
        merged_packs(packs).paradigm_strategies.is_prefix_of(
            merged_packs(packs.push(pack)).paradigm_strategies
        ),
        merged_packs(packs).workflows.is_prefix_of(merged_packs(packs.push(pack)).workflows),
        merged_packs(packs).state_graphs.is_prefix_of(merged_packs(packs.push(pack)).state_graphs),
        collections::keys_of::<SubAgentTypeDefinition>(merged_packs(packs).sub_agent_definitions).is_prefix_of(
            collections::keys_of::<SubAgentTypeDefinition>(
                merged_packs(packs.push(pack)).sub_agent_definitions
            ),
        ),
        merged_packs(packs.push(pack)).compression_template == merged_packs(
            packs,
        ).compression_template,
        merged_packs(packs).compression_template == packs[0].compression_template,
{
    let all = packs.push(pack);
    assert(all.drop_last() =~= packs);
    collections::law_with_first::<ToolHandle>(all_tools(packs), pack.tools);
    collections::law_keys_stay_in_place::<ToolDecorator>(
        all_tool_decorators(packs),
        pack.tool_decorators,
    );
    collections::law_with_first::<SourceHandle>(all_context_sources(packs), pack.context_sources);
    collections::law_with_first::<ParadigmStrategy>(
        all_paradigm_strategies(packs),
        pack.paradigm_strategies,
    );
    collections::law_with_first::<WorkflowConfig>(all_workflows(packs), pack.workflows);
    collections::law_with_first::<StateGraph>(all_state_graphs(packs), pack.state_graphs);
    collections::law_keys_stay_in_place::<SubAgentTypeDefinition>(
        all_sub_agent_definitions(packs),
        pack.sub_agent_definitions,
    );
}

/// Where the first of two packs has each of its names once, all of it stands first.
pub proof fn law_first_pack_stands_first(first: DomainPackView, second: DomainPackView)
    ensures
        ({
            let merged = merged_packs(seq![first, second]);
            &&& collections::unique_keys::<ToolHandle>(first.tools) ==> first.tools.is_prefix_of(
                merged.tools,
            )
            &&& collections::unique_keys::<ToolDecorator>(first.tool_decorators) ==> collections::keys_of::<ToolDecorator>(
                first.tool_decorators,
            ).is_prefix_of(collections::keys_of::<ToolDecorator>(merged.tool_decorators))
            &&& collections::unique_keys::<SourceHandle>(first.context_sources) ==> first.context_sources.is_prefix_of(
                merged.context_sources,
            )
            &&& collections::unique_keys::<ParadigmStrategy>(first.paradigm_strategies) ==> first.paradigm_strategies.is_prefix_of(
                merged.paradigm_strategies,
            )
            &&& collections::unique_keys::<WorkflowConfig>(first.workflows) ==> first.workflows.is_prefix_of(
                merged.workflows,
            )
            &&& collections::unique_keys::<StateGraph>(first.state_graphs) ==> first.state_graphs.is_prefix_of(
                merged.state_graphs,
            )
            &&& collections::unique_keys::<SubAgentTypeDefinition>(first.sub_agent_definitions) ==> collections::keys_of::<SubAgentTypeDefinition>(
                first.sub_agent_definitions,
            ).is_prefix_of(collections::keys_of::<SubAgentTypeDefinition>(merged.sub_agent_definitions))
        }),
{
    let packs = seq![first, second];
    assert(packs.drop_last() =~= seq![first]);
    assert(seq![first].drop_last() =~= Seq::<DomainPackView>::empty());
    reveal_with_fuel(all_tools, 3);
    if collections::unique_keys::<ToolHandle>(first.tools) {
        collections::law_distinct_items_are_all_taken::<ToolHandle>(first.tools);
        collections::law_with_first::<ToolHandle>(first.tools, second.tools);
    }
    reveal_with_fuel(all_tool_decorators, 3);
    if collections::unique_keys::<ToolDecorator>(first.tool_decorators) {
        collections::law_distinct_items_are_all_taken::<ToolDecorator>(first.tool_decorators);
        collections::law_keys_stay_in_place::<ToolDecorator>(
            first.tool_decorators,
            second.tool_decorators,
        );
    }
    reveal_with_fuel(all_context_sources, 3);
    if collections::unique_keys::<SourceHandle>(first.context_sources) {
        collections::law_distinct_items_are_all_taken::<SourceHandle>(first.context_sources);
        collections::law_with_first::<SourceHandle>(first.context_sources, second.context_sources);
    }
    reveal_with_fuel(all_paradigm_strategies, 3);
    if collections::unique_keys::<ParadigmStrategy>(first.paradigm_strategies) {
        collections::law_distinct_items_are_all_taken::<ParadigmStrategy>(first.paradigm_strategies);
        collections::law_with_first::<ParadigmStrategy>(
            first.paradigm_strategies,
            second.paradigm_strategies,
        );
    }
    reveal_with_fuel(all_workflows, 3);
    if collections::unique_keys::<WorkflowConfig>(first.workflows) {
        collections::law_distinct_items_are_all_taken::<WorkflowConfig>(first.workflows);
        collections::law_with_first::<WorkflowConfig>(first.workflows, second.workflows);
    }
    reveal_with_fuel(all_state_graphs, 3);
    if collections::unique_keys::<StateGraph>(first.state_graphs) {
        collections::law_distinct_items_are_all_taken::<StateGraph>(first.state_graphs);
        collections::law_with_first::<StateGraph>(first.state_graphs, second.state_graphs);
    }
    reveal_with_fuel(all_sub_agent_definitions, 3);
    if collections::unique_keys::<SubAgentTypeDefinition>(first.sub_agent_definitions) {
        collections::law_distinct_items_are_all_taken::<SubAgentTypeDefinition>(first.sub_agent_definitions);
        collections::law_keys_stay_in_place::<SubAgentTypeDefinition>(
            first.sub_agent_definitions,
            second.sub_agent_definitions,
        );
    }
}

/// A further pack adds its name, its description behind its name, and what its agents
/// are told under its name; all that was there stays before them.
pub proof fn law_further_pack_is_described(packs: Seq<DomainPackView>, pack: DomainPackView)
    requires
        packs.len() >= 1,
    ensures
        merged_packs(packs.push(pack)).name == merged_packs(packs).name + "+"@ + pack.name,
        packs.len() >= 2 ==> merged_packs(packs.push(pack)).description == merged_packs(
            packs,
        ).description + "; "@ + pack.name + ": "@ + pack.description,
        packs.len() == 1 ==> merged_packs(packs.push(pack)).description == packs[0].name + ": "@
            + packs[0].description + "; "@ + pack.name + ": "@ + pack.description,
        packs.len() >= 2 ==> merged_packs(packs.push(pack)).system_prompt_template == merged_packs(
            packs,
        ).system_prompt_template + "\n\n## "@ + pack.name + " Domain\n"@
            + pack.system_prompt_template,
        packs.len() == 1 ==> merged_packs(packs.push(pack)).system_prompt_template == "## "@
            + packs[0].name + " Domain\n"@ + packs[0].system_prompt_template + "\n\n## "@
            + pack.name + " Domain\n"@ + pack.system_prompt_template,
{
    let all = packs.push(pack);
    reveal_strlit("\n\n## ");
    reveal_strlit("\n\n");
    reveal_strlit("## ");
    assert("\n\n"@ + "## "@ =~= "\n\n## "@);
    assert(all.drop_last() =~= packs);
    assert(pack_names(all).drop_last() =~= pack_names(packs));
    assert(pack_descriptions(all).drop_last() =~= pack_descriptions(packs));
    assert(pack_prompts(all).drop_last() =~= pack_prompts(packs));
    if packs.len() == 1 {
        assert(text::joined(pack_names(packs), "+"@) =~= packs[0].name);
        assert(text::joined(pack_descriptions(packs), "; "@) =~= packs[0].name + ": "@
            + packs[0].description);
        assert(text::joined(pack_prompts(packs), "\n\n"@) =~= "## "@ + packs[0].name
            + " Domain\n"@ + packs[0].system_prompt_template);
    }
    assert(merged_packs(all).description =~= text::joined(pack_descriptions(packs), "; "@) + "; "@
        + pack.name + ": "@ + pack.description);
    assert(merged_packs(all).system_prompt_template =~= text::joined(
        pack_prompts(packs),
        "\n\n"@,
    ) + "\n\n## "@ + pack.name + " Domain\n"@ + pack.system_prompt_template);
}

/// A further pack makes the permissions those of the packs before it, merged with its
/// own; and what agents remember likewise.
pub proof fn law_further_pack_is_merged_in(packs: Seq<DomainPackView>, pack: DomainPackView)
    requires
        packs.len() >= 1,
    ensures
        merged_packs(packs.push(pack)).permission_profile == permission_profile::merged_profile(
            merged_packs(packs).permission_profile,
            pack.permission_profile,
        ),
        merged_packs(packs.push(pack)).memory_profile == memory_profile::merged_memory(
            merged_packs(packs).memory_profile,
            pack.memory_profile,
        ),
{
    assert(packs.push(pack).drop_last() =~= packs);
}

/// A tool runs without asking where every pack says so, and is asked about where any
/// does; a deny pattern of any pack is there; and the level is the highest of all.
pub proof fn law_merged_permissions(packs: Seq<DomainPackView>, tool: Seq<char>)
    requires
        packs.len() >= 1,
    ensures
        ({
            let merged = merged_packs(packs).permission_profile;
            &&& merged.auto_approve.contains(tool) <==> forall|i: int|
                0 <= i < packs.len() ==> (
                #[trigger] packs[i]).permission_profile.auto_approve.contains(tool)
            &&& merged.require_confirmation.contains(tool) <==> exists|i: int|
                0 <= i < packs.len() && (
                #[trigger] packs[i]).permission_profile.require_confirmation.contains(tool)
            &&& forall|i: int|
                0 <= i < packs.len() ==> (
                #[trigger] packs[i]).permission_profile.default_threshold.auto_approved(
                    merged.default_threshold,
                )
            &&& exists|i: int|
                0 <= i < packs.len() && (#[trigger] packs[i]).permission_profile.default_threshold
                    == merged.default_threshold
            &&& forall|i: int, k: int|
                0 <= i < packs.len() && 0 <= k
                    < packs[i].permission_profile.deny_by_default.len()
                    ==> merged.deny_by_default.contains(
                    #[trigger] packs[i].permission_profile.deny_by_default[k],
                )
        }),
    decreases packs.len(),
{
    let merged = merged_packs(packs).permission_profile;
    if packs.len() == 1 {
        assert forall|i: int, k: int|
            0 <= i < packs.len() && 0 <= k
                < packs[i].permission_profile.deny_by_default.len() implies
            merged.deny_by_default.contains(
            #[trigger] packs[i].permission_profile.deny_by_default[k],
        ) by {
            assert(merged.deny_by_default[k] == packs[0].permission_profile.deny_by_default[k]);
        }
        assert(packs[0].permission_profile.default_threshold == merged.default_threshold);
    } else {
        let front = packs.drop_last();
        let last = packs.last();
        let before = merged_packs(front).permission_profile;
        assert(front.push(last) =~= packs);
        law_further_pack_is_merged_in(front, last);
        law_merged_permissions(front, tool);
        permission_profile::law_merged_profile_takes(before, last.permission_profile, tool);
        assert forall|i: int| 0 <= i < front.len() implies #[trigger] front[i] == packs[i] by {}
        assert(packs[packs.len() - 1] == last);
        assert(merged.auto_approve.contains(tool) <==> forall|i: int|
            0 <= i < packs.len() ==> (
            #[trigger] packs[i]).permission_profile.auto_approve.contains(tool)) by {
            if forall|i: int|
                0 <= i < packs.len() ==> (
                #[trigger] packs[i]).permission_profile.auto_approve.contains(tool) {
                assert forall|i: int| 0 <= i < front.len() implies (
                #[trigger] front[i]).permission_profile.auto_approve.contains(tool) by {
                    assert(packs[i].permission_profile.auto_approve.contains(tool));
                }
            }
            if merged.auto_approve.contains(tool) {
                assert forall|i: int| 0 <= i < packs.len() implies (
                #[trigger] packs[i]).permission_profile.auto_approve.contains(tool) by {
                    if i < front.len() {
                        assert(front[i].permission_profile.auto_approve.contains(tool));
                    }
                }
            }
        }
        assert(merged.require_confirmation.contains(tool) <==> exists|i: int|
            0 <= i < packs.len() && (
            #[trigger] packs[i]).permission_profile.require_confirmation.contains(tool)) by {
            if before.require_confirmation.contains(tool) {
                let i = choose|i: int|
                    0 <= i < front.len() && (
                    #[trigger] front[i]).permission_profile.require_confirmation.contains(tool);
                assert(packs[i].permission_profile.require_confirmation.contains(tool));
            }
            if exists|i: int|
                0 <= i < packs.len() && (
                #[trigger] packs[i]).permission_profile.require_confirmation.contains(tool) {
                let i = choose|i: int|
                    0 <= i < packs.len() && (
                    #[trigger] packs[i]).permission_profile.require_confirmation.contains(tool);
                if i < front.len() {
                    assert(front[i].permission_profile.require_confirmation.contains(tool));
                }
            }
        }
        assert forall|i: int| 0 <= i < packs.len() implies (
        #[trigger] packs[i]).permission_profile.default_threshold.auto_approved(
            merged.default_threshold,
        ) by {
            if i < front.len() {
                assert(front[i].permission_profile.default_threshold.auto_approved(
                    before.default_threshold,
                ));
            }
        }
        if merged.default_threshold == before.default_threshold {
            let i = choose|i: int|
                0 <= i < front.len() && (#[trigger] front[i]).permission_profile.default_threshold
                    == before.default_threshold;
            assert(packs[i].permission_profile.default_threshold == merged.default_threshold);
        }
        assert forall|i: int, k: int|
            0 <= i < packs.len() && 0 <= k
                < packs[i].permission_profile.deny_by_default.len() implies
            merged.deny_by_default.contains(
            #[trigger] packs[i].permission_profile.deny_by_default[k],
        ) by {
            let pattern = packs[i].permission_profile.deny_by_default[k];
            let n = before.deny_by_default.len() as int;
            if i < front.len() {
                assert(front[i].permission_profile.deny_by_default[k] == pattern);
                let w = choose|w: int|
                    0 <= w < before.deny_by_default.len() && before.deny_by_default[w] == pattern;
                assert(merged.deny_by_default.take(n)[w] == merged.deny_by_default[w]);
                assert(merged.deny_by_default[w] == pattern);
            } else {
                assert(merged.deny_by_default.skip(n)[k] == merged.deny_by_default[n + k]);
                assert(merged.deny_by_default[n + k] == pattern);
            }
        }
    }
}

/// What is found under a name is an item of that name, the first of them; and something
/// is found where there is one.
pub proof fn law_lookups_find_by_name(merged: MergedDomainPackView, key: Seq<char>, i: int)
    ensures
        0 <= i < merged.tool_decorators.len() && ToolDecorator::key_of(merged.tool_decorators[i]) == key && (forall|k: int|
            0 <= k < i ==> ToolDecorator::key_of(#[trigger] merged.tool_decorators[k]) != key)
            ==> collections::found::<ToolDecorator>(merged.tool_decorators, key) == Some(merged.tool_decorators[i]),
        collections::found::<ToolDecorator>(merged.tool_decorators, key) is Some <==> collections::holds_key::<ToolDecorator>(
            merged.tool_decorators,
            key,
        ),
        0 <= i < merged.workflows.len() && WorkflowConfig::key_of(merged.workflows[i]) == key && (forall|k: int|
            0 <= k < i ==> WorkflowConfig::key_of(#[trigger] merged.workflows[k]) != key)
            ==> collections::found::<WorkflowConfig>(merged.workflows, key) == Some(merged.workflows[i]),
        collections::found::<WorkflowConfig>(merged.workflows, key) is Some <==> collections::holds_key::<WorkflowConfig>(
            merged.workflows,
            key,
        ),
        0 <= i < merged.state_graphs.len() && StateGraph::key_of(merged.state_graphs[i]) == key && (forall|k: int|
            0 <= k < i ==> StateGraph::key_of(#[trigger] merged.state_graphs[k]) != key)
            ==> collections::found::<StateGraph>(merged.state_graphs, key) == Some(merged.state_graphs[i]),
        collections::found::<StateGraph>(merged.state_graphs, key) is Some <==> collections::holds_key::<StateGraph>(
            merged.state_graphs,
            key,
        ),
{
    collections::lemma_key_position::<ToolDecorator>(merged.tool_decorators, key);
    collections::lemma_key_position::<WorkflowConfig>(merged.workflows, key);
    collections::lemma_key_position::<StateGraph>(merged.state_graphs, key);
}

/// A type of sub-agents is found by its name in any case of the letters, the first of
/// them; and nothing is found under the name of none.
pub proof fn law_agent_is_found_by_name(
    definitions: Seq<SubAgentTypeDefinitionView>,
    kind: Seq<char>,
    i: int,
)
    ensures
        0 <= i < definitions.len() && text::ascii_lowered(definitions[i].name)
            == text::ascii_lowered(kind) && (forall|k: int|
            0 <= k < i ==> text::ascii_lowered((#[trigger] definitions[k]).name)
                != text::ascii_lowered(kind)) ==> agent_of_kind(definitions, kind) == Some(
            definitions[i],
        ),
        (forall|k: int|
            0 <= k < definitions.len() ==> text::ascii_lowered((#[trigger] definitions[k]).name)
                != text::ascii_lowered(kind)) ==> agent_of_kind(definitions, kind) is None,
    decreases definitions.len(),
{
    if definitions.len() > 0 {
        let rest = definitions.drop_first();
        assert forall|k: int| 0 <= k < rest.len() implies #[trigger] rest[k]
            == definitions[k + 1] by {}
        law_agent_is_found_by_name(rest, kind, i - 1);
        if 0 < i < definitions.len() {
            assert(rest[i - 1] == definitions[i]);
            if forall|k: int|
                0 <= k < i ==> text::ascii_lowered((#[trigger] definitions[k]).name)
                    != text::ascii_lowered(kind) {
                assert(text::ascii_lowered(definitions[0].name) != text::ascii_lowered(kind));
                assert forall|k: int| 0 <= k < i - 1 implies text::ascii_lowered(
                    (#[trigger] rest[k]).name,
                ) != text::ascii_lowered(kind) by {
                    assert(text::ascii_lowered(definitions[k + 1].name) != text::ascii_lowered(
                        kind,
                    ));
                }
            }
        }
        if forall|k: int|
            0 <= k < definitions.len() ==> text::ascii_lowered((#[trigger] definitions[k]).name)
                != text::ascii_lowered(kind) {
            assert(text::ascii_lowered(definitions[0].name) != text::ascii_lowered(kind));
            assert forall|k: int| 0 <= k < rest.len() implies text::ascii_lowered(
                (#[trigger] rest[k]).name,
            ) != text::ascii_lowered(kind) by {
                assert(text::ascii_lowered(definitions[k + 1].name) != text::ascii_lowered(kind));
            }
        }
    }
}

/// Of the tools of a name that of the earlier pack is taken, and of the
/// decorators of a tool that of the later pack.
pub proof fn law_which_pack_wins(packs: Seq<DomainPackView>, pack: DomainPackView, key: Seq<char>)
    requires
        packs.len() > 0,
    ensures
        collections::holds_key::<ToolHandle>(all_tools(packs), key) ==> collections::found::<
            ToolHandle,
        >(merged_packs(packs.push(pack)).tools, key) == collections::found::<ToolHandle>(
            all_tools(packs),
            key,
        ),
        collections::holds_key::<ToolDecorator>(pack.tool_decorators, key)
            && collections::unique_keys::<ToolDecorator>(pack.tool_decorators)
            ==> collections::found::<ToolDecorator>(
            merged_packs(packs.push(pack)).tool_decorators,
            key,
        ) == collections::found::<ToolDecorator>(pack.tool_decorators, key),
{
    let all = packs.push(pack);
    assert(all.drop_last() =~= packs);
    if collections::holds_key::<ToolHandle>(all_tools(packs), key) {
        collections::law_earlier_stays::<ToolHandle>(all_tools(packs), pack.tools, key);
    }
    if collections::holds_key::<ToolDecorator>(pack.tool_decorators, key)
        && collections::unique_keys::<ToolDecorator>(pack.tool_decorators) {
        law_all_tool_decorators(packs);
        collections::law_later_stands::<ToolDecorator>(
            all_tool_decorators(packs),
            pack.tool_decorators,
            key,
        );
    }
}

/// A call that any pack refuses is refused; one that any pack asks about is
/// refused or asked about; and one that runs without asking does so in every
/// pack.
pub proof fn law_strictest_pack_wins(
    packs: Seq<DomainPackView>,
    tool: Seq<char>,
    args: Seq<char>,
    i: int,
)
    requires
        0 <= i < packs.len(),
        forall|k: int|
            0 <= k < packs.len() ==> collections::distinct_keys(
                (#[trigger] packs[k]).permission_profile.permission_overrides,
            ),
    ensures
        ({
            let own = permission_profile::decision(packs[i].permission_profile, tool, args);
            let merged = permission_profile::decision(
                merged_packs(packs).permission_profile,
                tool,
                args,
            );
            &&& own is Deny ==> merged is Deny
            &&& own is RequireConfirmation ==> merged is Deny || merged is RequireConfirmation
            &&& merged is AutoApprove ==> own is AutoApprove
        }),
{
    lemma_strictest(packs, tool, args, i);
    if packs.len() == 1 {
        assert(packs[0] == packs[i]);
    }
}

proof fn lemma_strictest(packs: Seq<DomainPackView>, tool: Seq<char>, args: Seq<char>, i: int)
    requires
        0 <= i < packs.len(),
        forall|k: int|
            0 <= k < packs.len() ==> collections::distinct_keys(
                (#[trigger] packs[k]).permission_profile.permission_overrides,
            ),
    ensures
        ({
            let own = permission_profile::decision(packs[i].permission_profile, tool, args);
            let merged = permission_profile::decision(all_permissions(packs), tool, args);
            &&& own is Deny ==> merged is Deny
            &&& own is RequireConfirmation ==> merged is Deny || merged is RequireConfirmation
            &&& merged is AutoApprove ==> own is AutoApprove
        }),
    decreases packs.len(),
{
    if packs.len() > 1 {
        let front = packs.drop_last();
        assert forall|k: int| 0 <= k < front.len() implies collections::distinct_keys(
            (#[trigger] front[k]).permission_profile.permission_overrides,
        ) by {
            assert(front[k] == packs[k]);
        }
        assert(packs[packs.len() - 1] == packs.last());
        permission_profile::law_merge_is_strictest(
            all_permissions(front),
            packs.last().permission_profile,
            tool,
            args,
        );
        if i < front.len() {
            assert(front[i] == packs[i]);
            lemma_strictest(front, tool, args, i);
        }
    }
}

/// What the agents of every pack are told is part of what they are told
/// together, and so are the names of the packs.
pub proof fn law_prompts_are_kept(packs: Seq<DomainPackView>, i: int)
    requires
        0 <= i < packs.len(),
    ensures
        text::occurs(
            merged_packs(packs).system_prompt_template,
            packs[i].system_prompt_template,
        ),
        text::occurs(merged_packs(packs).name, packs[i].name),
{
    if packs.len() == 1 {
        text::lemma_occurs_inside(Seq::empty(), packs[0].system_prompt_template, Seq::empty());
        assert(Seq::<char>::empty() + packs[0].system_prompt_template + Seq::<char>::empty()
            =~= packs[0].system_prompt_template);
        text::lemma_occurs_inside(Seq::empty(), packs[0].name, Seq::empty());
        assert(Seq::<char>::empty() + packs[0].name + Seq::<char>::empty() =~= packs[0].name);
    } else {
        let prompts = pack_prompts(packs);
        text::lemma_joined_holds(prompts, "\n\n"@, i);
        let head = "## "@ + packs[i].name + " Domain\n"@;
        text::lemma_occurs_inside(head, packs[i].system_prompt_template, Seq::empty());
        assert(head + packs[i].system_prompt_template + Seq::<char>::empty() =~= prompts[i]);
        text::lemma_occurs_through(
            merged_packs(packs).system_prompt_template,
            prompts[i],
            packs[i].system_prompt_template,
        );
        text::lemma_joined_holds(pack_names(packs), "+"@, i);
    }
}

} // verus!
