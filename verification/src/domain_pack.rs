//! What an agent needs to work in a domain.

use vstd::prelude::*;
use crate::collections::Keyed;
use crate::compression_template::{CompressionTemplate, CompressionTemplateView};
use crate::context_source::{SourceHandle, SourceHandleView};
use crate::duplicate::Duplicate;
use crate::memory_profile::{self, MemoryProfile, MemoryProfileView};
use crate::paradigm_strategy::{
    ParadigmStrategy, ParadigmStrategyView, SubAgentTypeDefinition, SubAgentTypeDefinitionView,
};
use crate::permission_profile::{self, PermissionProfile, PermissionProfileView};
use crate::tool_decorator::{ToolDecorator, ToolDecoratorView};
use crate::workflow::{StateGraph, StateGraphView, WorkflowConfig, WorkflowConfigView};

verus! {

/// A tool of a domain, by its name and where it does its work.
#[derive(Debug, PartialEq)]
pub struct ToolHandle {
    pub name: String,
    /// The terminal that it works in: that of the host where there is none.
    pub backend: Option<String>,
}

/// The contents of a [`ToolHandle`].
#[verifier::ext_equal]
pub struct ToolHandleView {
    pub name: Seq<char>,
    pub backend: Option<Seq<char>>,
}

impl DeepView for ToolHandle {
    type V = ToolHandleView;

    open spec fn deep_view(&self) -> ToolHandleView {
        ToolHandleView {
            name: self.name.deep_view(),
            backend: self.backend.deep_view(),
        }
    }
}

impl Duplicate for ToolHandle {
    fn duplicate(&self) -> (copy: Self) {
        ToolHandle {
            name: self.name.duplicate(),
            backend: self.backend.duplicate(),
        }
    }
}

impl Clone for ToolHandle {
    fn clone(&self) -> (copy: Self)
        ensures
            copy.deep_view() == self.deep_view(),
    {
        self.duplicate()
    }
}

impl Keyed for ToolHandle {
    open spec fn key_of(contents: ToolHandleView) -> Seq<char> {
        contents.name
    }

    fn key(&self) -> (key: &str) {
        self.name.as_str()
    }
}

/// A tool that works on the host.
pub open spec fn host_tool(name: Seq<char>) -> ToolHandleView {
    ToolHandleView { name, backend: None }
}

/// The tools of these names, that work on the host.
pub open spec fn host_tools(names: Seq<Seq<char>>) -> Seq<ToolHandleView> {
    names.map_values(|name: Seq<char>| host_tool(name))
}

impl ToolHandle {
    /// A tool that works on the host.
    pub fn host(name: &str) -> (r: Self)
        ensures
            r.deep_view() == host_tool(name@),
    {
        ToolHandle { name: name.to_string(), backend: None }
    }

    /// The tools of these names, that work on the host.
    pub fn hosts(names: &Vec<String>) -> (r: Vec<Self>)
        ensures
            r.deep_view() == host_tools(names.deep_view()),
    {
        let mut r: Vec<ToolHandle> = Vec::new();
        let mut i: usize = 0;
        while i < names.len()
            invariant
                i <= names.len(),
                r.deep_view() == host_tools(names.deep_view().take(i as int)),
            decreases names.len() - i,
        {
            let ghost before = r.deep_view();
            let ghost name = names.deep_view()[i as int];
            assert(name == names@[i as int]@);
            r.push(ToolHandle::host(names[i].as_str()));
            assert(r.deep_view() =~= before.push(host_tool(name)));
            i = i + 1;
            assert(r.deep_view() =~= host_tools(names.deep_view().take(i as int)));
        }
        assert(names.deep_view().take(i as int) =~= names.deep_view());
        r
    }
}

/// What an agent needs to work in a domain.
#[derive(Debug, PartialEq)]
pub struct DomainPack {
    /// What it is called.
    pub name: String,
    /// What it is for.
    pub description: String,
    /// Its tools.
    pub tools: Vec<ToolHandle>,
    /// What it says of tools in place of what they say of themselves.
    pub tool_decorators: Vec<ToolDecorator>,
    /// Where its agents get what they know of their surroundings.
    pub context_sources: Vec<SourceHandle>,
    /// Which calls run, which are refused, and which the user is asked about.
    pub permission_profile: PermissionProfile,
    /// Which ways of working fit which tasks.
    pub paradigm_strategies: Vec<ParadigmStrategy>,
    /// How conversations are summarised.
    pub compression_template: CompressionTemplate,
    /// What its agents remember.
    pub memory_profile: MemoryProfile,
    /// What its agents are told.
    pub system_prompt_template: String,
    /// Tasks that are done step by step.
    pub workflows: Vec<WorkflowConfig>,
    /// Graphs of what may follow what.
    pub state_graphs: Vec<StateGraph>,
    /// Its types of sub-agents.
    pub sub_agent_definitions: Vec<SubAgentTypeDefinition>,
}

/// The contents of a [`DomainPack`].
#[verifier::ext_equal]
pub struct DomainPackView {
    pub name: Seq<char>,
    pub description: Seq<char>,
    pub tools: Seq<ToolHandleView>,
    pub tool_decorators: Seq<ToolDecoratorView>,
    pub context_sources: Seq<SourceHandleView>,
    pub permission_profile: PermissionProfileView,
    pub paradigm_strategies: Seq<ParadigmStrategyView>,
    pub compression_template: CompressionTemplateView,
    pub memory_profile: MemoryProfileView,
    pub system_prompt_template: Seq<char>,
    pub workflows: Seq<WorkflowConfigView>,
    pub state_graphs: Seq<StateGraphView>,
    pub sub_agent_definitions: Seq<SubAgentTypeDefinitionView>,
}

impl DeepView for DomainPack {
    type V = DomainPackView;

    open spec fn deep_view(&self) -> DomainPackView {
        DomainPackView {
            name: self.name.deep_view(),
            description: self.description.deep_view(),
            tools: self.tools.deep_view(),
            tool_decorators: self.tool_decorators.deep_view(),
            context_sources: self.context_sources.deep_view(),
            permission_profile: self.permission_profile.deep_view(),
            paradigm_strategies: self.paradigm_strategies.deep_view(),
            compression_template: self.compression_template.deep_view(),
            memory_profile: self.memory_profile.deep_view(),
            system_prompt_template: self.system_prompt_template.deep_view(),
            workflows: self.workflows.deep_view(),
            state_graphs: self.state_graphs.deep_view(),
            sub_agent_definitions: self.sub_agent_definitions.deep_view(),
        }
    }
}

impl Duplicate for DomainPack {
    fn duplicate(&self) -> (copy: Self) {
        DomainPack {
            name: self.name.duplicate(),
            description: self.description.duplicate(),
            tools: self.tools.duplicate(),
            tool_decorators: self.tool_decorators.duplicate(),
            context_sources: self.context_sources.duplicate(),
            permission_profile: self.permission_profile.duplicate(),
            paradigm_strategies: self.paradigm_strategies.duplicate(),
            compression_template: self.compression_template.duplicate(),
            memory_profile: self.memory_profile.duplicate(),
            system_prompt_template: self.system_prompt_template.duplicate(),
            workflows: self.workflows.duplicate(),
            state_graphs: self.state_graphs.duplicate(),
            sub_agent_definitions: self.sub_agent_definitions.duplicate(),
        }
    }
}

impl Clone for DomainPack {
    fn clone(&self) -> (copy: Self)
        ensures
            copy.deep_view() == self.deep_view(),
    {
        self.duplicate()
    }
}

/// The pack that has nothing but a name.
pub open spec fn bare_pack(name: Seq<char>) -> DomainPackView {
    DomainPackView {
        name,
        description: Seq::empty(),
        tools: Seq::empty(),
        tool_decorators: Seq::empty(),
        context_sources: Seq::empty(),
        permission_profile: permission_profile::bare_profile("default"@),
        paradigm_strategies: Seq::empty(),
        compression_template: CompressionTemplateView {
            name: "default"@,
            preserve_fields: Seq::empty(),
            template: Seq::empty(),
            truncate_rules: Seq::empty(),
            default_variables: Seq::empty(),
        },
        memory_profile: memory_profile::bare_memory("default"@),
        system_prompt_template: Seq::empty(),
        workflows: Seq::empty(),
        state_graphs: Seq::empty(),
        sub_agent_definitions: Seq::empty(),
    }
}

// ─── DomainPackBuilder ──────────────────────────────────────────────────────

/// A pack that is put together piece by piece.
#[derive(Debug, PartialEq)]
pub struct DomainPackBuilder {
    pack: DomainPack,
}

/// The contents of a [`DomainPackBuilder`].
#[verifier::ext_equal]
pub struct DomainPackBuilderView {
    pub pack: DomainPackView,
}

impl DeepView for DomainPackBuilder {
    type V = DomainPackBuilderView;

    closed spec fn deep_view(&self) -> DomainPackBuilderView {
        DomainPackBuilderView {
            pack: self.pack.deep_view(),
        }
    }
}

impl Duplicate for DomainPackBuilder {
    fn duplicate(&self) -> (copy: Self) {
        DomainPackBuilder {
            pack: self.pack.duplicate(),
        }
    }
}

impl Clone for DomainPackBuilder {
    fn clone(&self) -> (copy: Self)
        ensures
            copy.deep_view() == self.deep_view(),
    {
        self.duplicate()
    }
}

impl DomainPackBuilder {
    /// A pack that has nothing but a name.
    pub fn new(name: &str) -> (r: Self)
        ensures
            r.deep_view().pack == bare_pack(name@),
    {
        DomainPackBuilder {
            pack: DomainPack {
                name: name.to_string(),
                description: String::new(),
                tools: Vec::new(),
                tool_decorators: Vec::new(),
                context_sources: Vec::new(),
                permission_profile: PermissionProfile::default(),
                paradigm_strategies: Vec::new(),
                compression_template: CompressionTemplate::default(),
                memory_profile: MemoryProfile::default(),
                system_prompt_template: String::new(),
                workflows: Vec::new(),
                state_graphs: Vec::new(),
                sub_agent_definitions: Vec::new(),
            },
        }
    }

    /// The pack with this description.
    pub fn description(self, desc: &str) -> (r: Self)
        ensures
            r.deep_view().pack == (DomainPackView {
                description: desc@,
                ..self.deep_view().pack
            }),
    {
        DomainPackBuilder { pack: DomainPack { description: desc.to_string(), ..self.pack } }
    }

    /// The pack with a further tool.
    pub fn tool(self, tool: ToolHandle) -> (r: Self)
        ensures
            r.deep_view().pack == (DomainPackView {
                tools: self.deep_view().pack.tools.push(tool.deep_view()),
                ..self.deep_view().pack
            }),
    {
        let mut pack = self.pack;
        let ghost before = pack.tools.deep_view();
        let ghost item = tool.deep_view();
        pack.tools.push(tool);
        assert(pack.tools.deep_view() =~= before.push(item));
        DomainPackBuilder { pack }
    }

    /// The pack with further tools.
    pub fn tools(self, tools: Vec<ToolHandle>) -> (r: Self)
        ensures
            r.deep_view().pack == (DomainPackView {
                tools: self.deep_view().pack.tools + tools.deep_view(),
                ..self.deep_view().pack
            }),
    {
        let mut pack = self.pack;
        let mut more = tools;
        let ghost before = pack.tools.deep_view();
        let ghost items = more.deep_view();
        pack.tools.append(&mut more);
        assert(pack.tools.deep_view() =~= before + items);
        DomainPackBuilder { pack }
    }

    /// The pack with a further decorator.
    pub fn tool_decorator(self, decorator: ToolDecorator) -> (r: Self)
        ensures
            r.deep_view().pack == (DomainPackView {
                tool_decorators: self.deep_view().pack.tool_decorators.push(decorator.deep_view()),
                ..self.deep_view().pack
            }),
    {
        let mut pack = self.pack;
        let ghost before = pack.tool_decorators.deep_view();
        let ghost item = decorator.deep_view();
        pack.tool_decorators.push(decorator);
        assert(pack.tool_decorators.deep_view() =~= before.push(item));
        DomainPackBuilder { pack }
    }

    /// The pack with further decorators.
    pub fn tool_decorators(self, decorators: Vec<ToolDecorator>) -> (r: Self)
        ensures
            r.deep_view().pack == (DomainPackView {
                tool_decorators: self.deep_view().pack.tool_decorators + decorators.deep_view(),
                ..self.deep_view().pack
            }),
    {
        let mut pack = self.pack;
        let mut more = decorators;
        let ghost before = pack.tool_decorators.deep_view();
        let ghost items = more.deep_view();
        pack.tool_decorators.append(&mut more);
        assert(pack.tool_decorators.deep_view() =~= before + items);
        DomainPackBuilder { pack }
    }

    /// The pack with a further source.
    pub fn context_source(self, source: SourceHandle) -> (r: Self)
        ensures
            r.deep_view().pack == (DomainPackView {
                context_sources: self.deep_view().pack.context_sources.push(source.deep_view()),
                ..self.deep_view().pack
            }),
    {
        let mut pack = self.pack;
        let ghost before = pack.context_sources.deep_view();
        let ghost item = source.deep_view();
        pack.context_sources.push(source);
        assert(pack.context_sources.deep_view() =~= before.push(item));
        DomainPackBuilder { pack }
    }

    /// The pack with further sources.
    pub fn context_sources(self, sources: Vec<SourceHandle>) -> (r: Self)
        ensures
            r.deep_view().pack == (DomainPackView {
                context_sources: self.deep_view().pack.context_sources + sources.deep_view(),
                ..self.deep_view().pack
            }),
    {
        let mut pack = self.pack;
        let mut more = sources;
        let ghost before = pack.context_sources.deep_view();
        let ghost items = more.deep_view();
        pack.context_sources.append(&mut more);
        assert(pack.context_sources.deep_view() =~= before + items);
        DomainPackBuilder { pack }
    }

    /// The pack with these permissions.
    pub fn permission_profile(self, profile: PermissionProfile) -> (r: Self)
        ensures
            r.deep_view().pack == (DomainPackView {
                permission_profile: profile.deep_view(),
                ..self.deep_view().pack
            }),
    {
        DomainPackBuilder { pack: DomainPack { permission_profile: profile, ..self.pack } }
    }

    /// The pack with a further strategy.
    pub fn paradigm_strategy(self, strategy: ParadigmStrategy) -> (r: Self)
        ensures
            r.deep_view().pack == (DomainPackView {
                paradigm_strategies: self.deep_view().pack.paradigm_strategies.push(strategy.deep_view()),
                ..self.deep_view().pack
            }),
    {
        let mut pack = self.pack;
        let ghost before = pack.paradigm_strategies.deep_view();
        let ghost item = strategy.deep_view();
        pack.paradigm_strategies.push(strategy);
        assert(pack.paradigm_strategies.deep_view() =~= before.push(item));
        DomainPackBuilder { pack }
    }

    /// The pack with further strategies.
    pub fn paradigm_strategies(self, strategies: Vec<ParadigmStrategy>) -> (r: Self)
        ensures
            r.deep_view().pack == (DomainPackView {
                paradigm_strategies: self.deep_view().pack.paradigm_strategies + strategies.deep_view(),
                ..self.deep_view().pack
            }),
    {
        let mut pack = self.pack;
        let mut more = strategies;
        let ghost before = pack.paradigm_strategies.deep_view();
        let ghost items = more.deep_view();
        pack.paradigm_strategies.append(&mut more);
        assert(pack.paradigm_strategies.deep_view() =~= before + items);
        DomainPackBuilder { pack }
    }

    /// The pack with this way to summarise.
    pub fn compression_template(self, template: CompressionTemplate) -> (r: Self)
        ensures
            r.deep_view().pack == (DomainPackView {
                compression_template: template.deep_view(),
                ..self.deep_view().pack
            }),
    {
        DomainPackBuilder { pack: DomainPack { compression_template: template, ..self.pack } }
    }

    /// The pack whose agents are told this.
    pub fn system_prompt(self, prompt: &str) -> (r: Self)
        ensures
            r.deep_view().pack == (DomainPackView {
                system_prompt_template: prompt@,
                ..self.deep_view().pack
            }),
    {
        DomainPackBuilder {
            pack: DomainPack { system_prompt_template: prompt.to_string(), ..self.pack }
        }
    }

    /// The pack with a further workflow.
    pub fn workflow(self, workflow: WorkflowConfig) -> (r: Self)
        ensures
            r.deep_view().pack == (DomainPackView {
                workflows: self.deep_view().pack.workflows.push(workflow.deep_view()),
                ..self.deep_view().pack
            }),
    {
        let mut pack = self.pack;
        let ghost before = pack.workflows.deep_view();
        let ghost item = workflow.deep_view();
        pack.workflows.push(workflow);
        assert(pack.workflows.deep_view() =~= before.push(item));
        DomainPackBuilder { pack }
    }

    /// The pack with further workflows.
    pub fn workflows(self, workflows: Vec<WorkflowConfig>) -> (r: Self)
        ensures
            r.deep_view().pack == (DomainPackView {
                workflows: self.deep_view().pack.workflows + workflows.deep_view(),
                ..self.deep_view().pack
            }),
    {
        let mut pack = self.pack;
        let mut more = workflows;
        let ghost before = pack.workflows.deep_view();
        let ghost items = more.deep_view();
        pack.workflows.append(&mut more);
        assert(pack.workflows.deep_view() =~= before + items);
        DomainPackBuilder { pack }
    }

    /// The pack with a further graph.
    pub fn state_graph(self, graph: StateGraph) -> (r: Self)
        ensures
            r.deep_view().pack == (DomainPackView {
                state_graphs: self.deep_view().pack.state_graphs.push(graph.deep_view()),
                ..self.deep_view().pack
            }),
    {
        let mut pack = self.pack;
        let ghost before = pack.state_graphs.deep_view();
        let ghost item = graph.deep_view();
        pack.state_graphs.push(graph);
        assert(pack.state_graphs.deep_view() =~= before.push(item));
        DomainPackBuilder { pack }
    }

    /// The pack with further graphs.
    pub fn state_graphs(self, graphs: Vec<StateGraph>) -> (r: Self)
        ensures
            r.deep_view().pack == (DomainPackView {
                state_graphs: self.deep_view().pack.state_graphs + graphs.deep_view(),
                ..self.deep_view().pack
            }),
    {
        let mut pack = self.pack;
        let mut more = graphs;
        let ghost before = pack.state_graphs.deep_view();
        let ghost items = more.deep_view();
        pack.state_graphs.append(&mut more);
        assert(pack.state_graphs.deep_view() =~= before + items);
        DomainPackBuilder { pack }
    }

    /// The pack.
    pub fn build(self) -> (r: DomainPack)
        ensures
            r.deep_view() == self.deep_view().pack,
    {
        self.pack
    }
}

/// The tools of a list of names are as many, in the same order, each by its name and run by
/// the host.
pub proof fn law_tools_by_name(names: Seq<Seq<char>>, i: int)
    ensures
        host_tools(names).len() == names.len(),
        0 <= i < names.len() ==> host_tools(names)[i].name == names[i]
            && host_tools(names)[i].backend is None,
{
}

/// A pack of which only the name is known holds nothing else.
pub proof fn law_bare_pack_holds_nothing(name: Seq<char>)
    ensures
        ({
            let pack = bare_pack(name);
            &&& pack.name == name
            &&& pack.description.len() == 0
            &&& pack.tools.len() == 0
            &&& pack.tool_decorators.len() == 0
            &&& pack.context_sources.len() == 0
            &&& pack.permission_profile.auto_approve.len() == 0
            &&& pack.permission_profile.require_confirmation.len() == 0
            &&& pack.permission_profile.deny_by_default.len() == 0
            &&& pack.paradigm_strategies.len() == 0
            &&& pack.compression_template.template.len() == 0
            &&& pack.system_prompt_template.len() == 0
            &&& pack.workflows.len() == 0
            &&& pack.state_graphs.len() == 0
            &&& pack.sub_agent_definitions.len() == 0
        }),
{
}

} // verus!
