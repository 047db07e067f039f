//! Tasks that are done step by step, and graphs of what may follow what.

use vstd::prelude::*;
use crate::collections::{Keyed, Table};
use crate::data::{self, DataValue, DataView};
use crate::duplicate::Duplicate;

verus! {

// ─── Workflows ──────────────────────────────────────────────────────────────

/// How often a step that failed is tried again.
#[derive(Debug, Clone, Copy, PartialEq, Eq, Structural)]
pub enum RetryPolicy {
    /// As the engine that runs it does by itself.
    Usual,
}

impl DeepView for RetryPolicy {
    type V = RetryPolicy;

    open spec fn deep_view(&self) -> RetryPolicy {
        *self
    }
}

impl Duplicate for RetryPolicy {
    fn duplicate(&self) -> (copy: Self) {
        *self
    }
}

/// A step of a workflow.
#[derive(Debug, PartialEq)]
pub struct StepConfig {
    pub id: String,
    pub description: String,
    /// The steps that come before.
    pub depends_on: Vec<String>,
    /// The tool that is called, where one is.
    pub tool: Option<String>,
    /// What it is called with.
    pub tool_args: Option<DataValue>,
    /// What a model is asked, where one is.
    pub prompt: Option<String>,
    /// Whether the user is asked first.
    pub requires_approval: bool,
    /// After how many seconds it is given up.
    pub timeout_secs: Option<u64>,
    /// How often it is tried again.
    pub retry_policy: Option<RetryPolicy>,
    pub metadata: Table<DataValue>,
}

/// The contents of a [`StepConfig`].
#[verifier::ext_equal]
pub struct StepConfigView {
    pub id: Seq<char>,
    pub description: Seq<char>,
    pub depends_on: Seq<Seq<char>>,
    pub tool: Option<Seq<char>>,
    pub tool_args: Option<DataView>,
    pub prompt: Option<Seq<char>>,
    pub requires_approval: bool,
    pub timeout_secs: Option<u64>,
    pub retry_policy: Option<RetryPolicy>,
    pub metadata: Seq<(Seq<char>, DataView)>,
}

impl DeepView for StepConfig {
    type V = StepConfigView;

    open spec fn deep_view(&self) -> StepConfigView {
        StepConfigView {
            id: self.id.deep_view(),
            description: self.description.deep_view(),
            depends_on: self.depends_on.deep_view(),
            tool: self.tool.deep_view(),
            tool_args: self.tool_args.deep_view(),
            prompt: self.prompt.deep_view(),
            requires_approval: self.requires_approval,
            timeout_secs: self.timeout_secs.deep_view(),
            retry_policy: self.retry_policy.deep_view(),
            metadata: self.metadata.deep_view(),
        }
    }
}

impl Duplicate for StepConfig {
    fn duplicate(&self) -> (copy: Self) {
        StepConfig {
            id: self.id.duplicate(),
            description: self.description.duplicate(),
            depends_on: self.depends_on.duplicate(),
            tool: self.tool.duplicate(),
            tool_args: self.tool_args.duplicate(),
            prompt: self.prompt.duplicate(),
            requires_approval: self.requires_approval,
            timeout_secs: self.timeout_secs.duplicate(),
            retry_policy: self.retry_policy.duplicate(),
            metadata: self.metadata.duplicate(),
        }
    }
}

impl Clone for StepConfig {
    fn clone(&self) -> (copy: Self)
        ensures
            copy.deep_view() == self.deep_view(),
    {
        self.duplicate()
    }
}

/// A task that is done step by step.
#[derive(Debug, PartialEq)]
pub struct WorkflowConfig {
    pub name: String,
    pub description: String,
    pub version: String,
    pub steps: Vec<StepConfig>,
    pub variables: Table<DataValue>,
    /// After how many seconds it is given up.
    pub timeout_secs: Option<u64>,
    /// How often a step is tried again that says nothing of it.
    pub default_retry_policy: RetryPolicy,
    /// Whether it goes on when a step has failed.
    pub continue_on_failure: bool,
}

/// The contents of a [`WorkflowConfig`].
#[verifier::ext_equal]
pub struct WorkflowConfigView {
    pub name: Seq<char>,
    pub description: Seq<char>,
    pub version: Seq<char>,
    pub steps: Seq<StepConfigView>,
    pub variables: Seq<(Seq<char>, DataView)>,
    pub timeout_secs: Option<u64>,
    pub default_retry_policy: RetryPolicy,
    pub continue_on_failure: bool,
}

impl DeepView for WorkflowConfig {
    type V = WorkflowConfigView;

    open spec fn deep_view(&self) -> WorkflowConfigView {
        WorkflowConfigView {
            name: self.name.deep_view(),
            description: self.description.deep_view(),
            version: self.version.deep_view(),
            steps: self.steps.deep_view(),
            variables: self.variables.deep_view(),
            timeout_secs: self.timeout_secs.deep_view(),
            default_retry_policy: self.default_retry_policy,
            continue_on_failure: self.continue_on_failure,
        }
    }
}

impl Duplicate for WorkflowConfig {
    fn duplicate(&self) -> (copy: Self) {
        WorkflowConfig {
            name: self.name.duplicate(),
            description: self.description.duplicate(),
            version: self.version.duplicate(),
            steps: self.steps.duplicate(),
            variables: self.variables.duplicate(),
            timeout_secs: self.timeout_secs.duplicate(),
            default_retry_policy: self.default_retry_policy,
            continue_on_failure: self.continue_on_failure,
        }
    }
}

impl Clone for WorkflowConfig {
    fn clone(&self) -> (copy: Self)
        ensures
            copy.deep_view() == self.deep_view(),
    {
        self.duplicate()
    }
}

impl Keyed for WorkflowConfig {
    open spec fn key_of(contents: WorkflowConfigView) -> Seq<char> {
        contents.name
    }

    fn key(&self) -> (key: &str) {
        self.name.as_str()
    }
}

/// A step that calls a tool.
pub open spec fn tool_step(
    id: Seq<char>,
    description: Seq<char>,
    depends_on: Seq<Seq<char>>,
    tool: Seq<char>,
    args: DataView,
    timeout_secs: Option<u64>,
) -> StepConfigView {
    StepConfigView {
        id,
        description,
        depends_on,
        tool: Some(tool),
        tool_args: Some(args),
        prompt: None,
        requires_approval: false,
        timeout_secs,
        retry_policy: None,
        metadata: Seq::empty(),
    }
}

/// A step that asks a model.
pub open spec fn prompt_step(
    id: Seq<char>,
    description: Seq<char>,
    depends_on: Seq<Seq<char>>,
    prompt: Seq<char>,
) -> StepConfigView {
    StepConfigView {
        id,
        description,
        depends_on,
        tool: None,
        tool_args: None,
        prompt: Some(prompt),
        requires_approval: false,
        timeout_secs: None,
        retry_policy: None,
        metadata: Seq::empty(),
    }
}

/// The arguments with this one text.
pub open spec fn one_argument(key: Seq<char>, value: Seq<char>) -> DataView {
    DataView::Object(data::object_of(seq![(key, DataView::Text(value))]))
}

/// The arguments with these two texts.
pub open spec fn two_arguments(
    first: Seq<char>,
    first_value: Seq<char>,
    second: Seq<char>,
    second_value: Seq<char>,
) -> DataView {
    DataView::Object(
        data::object_of(
            seq![(first, DataView::Text(first_value)), (second, DataView::Text(second_value))],
        ),
    )
}

/// The arguments with this one text.
pub fn argument(key: &str, value: &str) -> (r: DataValue)
    ensures
        r.deep_view() == one_argument(key@, value@),
{
    let entries = vec![data::entry(key, data::text_value(value))];
    assert(entries.deep_view() =~= seq![(key@, DataView::Text(value@))]);
    data::object(entries)
}

/// The arguments with these two texts.
pub fn arguments(first: &str, first_value: &str, second: &str, second_value: &str) -> (r: DataValue)
    ensures
        r.deep_view() == two_arguments(first@, first_value@, second@, second_value@),
{
    let entries = vec![
        data::entry(first, data::text_value(first_value)),
        data::entry(second, data::text_value(second_value)),
    ];
    assert(entries.deep_view() =~= seq![
        (first@, DataView::Text(first_value@)),
        (second@, DataView::Text(second_value@)),
    ]);
    data::object(entries)
}

impl StepConfig {
    /// A step that calls a tool.
    pub fn call(
        id: &str,
        description: &str,
        depends_on: Vec<String>,
        tool: &str,
        args: DataValue,
        timeout_secs: Option<u64>,
    ) -> (r: Self)
        ensures
            r.deep_view() == tool_step(
                id@,
                description@,
                depends_on.deep_view(),
                tool@,
                args.deep_view(),
                timeout_secs,
            ),
    {
        StepConfig {
            id: id.to_string(),
            description: description.to_string(),
            depends_on,
            tool: Some(tool.to_string()),
            tool_args: Some(args),
            prompt: None,
            requires_approval: false,
            timeout_secs,
            retry_policy: None,
            metadata: Table::new(),
        }
    }

    /// A step that asks a model.
    pub fn ask(id: &str, description: &str, depends_on: Vec<String>, prompt: &str) -> (r: Self)
        ensures
            r.deep_view() == prompt_step(id@, description@, depends_on.deep_view(), prompt@),
    {
        StepConfig {
            id: id.to_string(),
            description: description.to_string(),
            depends_on,
            tool: None,
            tool_args: None,
            prompt: Some(prompt.to_string()),
            requires_approval: false,
            timeout_secs: None,
            retry_policy: None,
            metadata: Table::new(),
        }
    }

    /// The step, before which the user is asked.
    pub fn approved(self) -> (r: Self)
        ensures
            r.deep_view() == (StepConfigView { requires_approval: true, ..self.deep_view() }),
    {
        StepConfig { requires_approval: true, ..self }
    }
}

/// A workflow of the first version, that is given up after five minutes.
pub open spec fn workflow_of(
    name: Seq<char>,
    description: Seq<char>,
    steps: Seq<StepConfigView>,
    continue_on_failure: bool,
) -> WorkflowConfigView {
    WorkflowConfigView {
        name,
        description,
        version: "1.0"@,
        steps,
        variables: Seq::empty(),
        timeout_secs: Some(300),
        default_retry_policy: RetryPolicy::Usual,
        continue_on_failure,
    }
}

impl WorkflowConfig {
    /// A workflow of the first version, that is given up after five minutes.
    pub fn of_steps(
        name: &str,
        description: &str,
        steps: Vec<StepConfig>,
        continue_on_failure: bool,
    ) -> (r: Self)
        ensures
            r.deep_view() == workflow_of(
                name@,
                description@,
                steps.deep_view(),
                continue_on_failure,
            ),
    {
        WorkflowConfig {
            name: name.to_string(),
            description: description.to_string(),
            version: "1.0".to_string(),
            steps,
            variables: Table::new(),
            timeout_secs: Some(300),
            default_retry_policy: RetryPolicy::Usual,
            continue_on_failure,
        }
    }
}

/// Each step comes behind the steps that it depends on: such a workflow can be
/// done from its first step to its last.
pub open spec fn steps_in_order(steps: Seq<StepConfigView>) -> bool {
    forall|i: int, d: int|
        0 <= i < steps.len() && 0 <= d < steps[i].depends_on.len() ==> exists|j: int|
            0 <= j < i && (#[trigger] steps[j]).id == #[trigger] steps[i].depends_on[d]
}

/// Each step either calls a tool or asks a model.
pub open spec fn steps_act(steps: Seq<StepConfigView>) -> bool {
    forall|i: int|
        0 <= i < steps.len() ==> (#[trigger] steps[i]).tool is Some != steps[i].prompt is Some
}

// ─── Graphs ─────────────────────────────────────────────────────────────────

/// What is done at a node.
#[derive(Debug, PartialEq)]
pub enum NodeAction {
    /// A model is asked.
    LlmInfer {
        system_prompt_override: Option<String>,
        use_streaming: bool,
        include_tool_definitions: bool,
        tool_filter_override: Option<Vec<String>>,
        thinking_budget: Option<u32>,
        max_tokens: Option<u32>,
    },
    /// A tool is called.
    ToolCall { tool_name: String, args_template: Option<String> },
    /// The user is asked.
    HumanApproval { description: String },
    /// A sub-agent is sent.
    Delegate { agent_kind: String, task_template: String },
}

/// The contents of a [`NodeAction`].
#[verifier::ext_equal]
pub enum NodeActionView {
    LlmInfer {
        system_prompt_override: Option<Seq<char>>,
        use_streaming: bool,
        include_tool_definitions: bool,
        tool_filter_override: Option<Seq<Seq<char>>>,
        thinking_budget: Option<u32>,
        max_tokens: Option<u32>,
    },
    ToolCall { tool_name: Seq<char>, args_template: Option<Seq<char>> },
    HumanApproval { description: Seq<char> },
    Delegate { agent_kind: Seq<char>, task_template: Seq<char> },
}

impl DeepView for NodeAction {
    type V = NodeActionView;

    open spec fn deep_view(&self) -> NodeActionView {
        match self {
            NodeAction::LlmInfer { system_prompt_override, use_streaming, include_tool_definitions, tool_filter_override, thinking_budget, max_tokens } => NodeActionView::LlmInfer {
                system_prompt_override: system_prompt_override.deep_view(),
                use_streaming: *use_streaming,
                include_tool_definitions: *include_tool_definitions,
                tool_filter_override: tool_filter_override.deep_view(),
                thinking_budget: thinking_budget.deep_view(),
                max_tokens: max_tokens.deep_view(),
            },
            NodeAction::ToolCall { tool_name, args_template } => NodeActionView::ToolCall {
                tool_name: tool_name.deep_view(),
                args_template: args_template.deep_view(),
            },
            NodeAction::HumanApproval { description } => NodeActionView::HumanApproval {
                description: description.deep_view()
            },
            NodeAction::Delegate { agent_kind, task_template } => NodeActionView::Delegate {
                agent_kind: agent_kind.deep_view(),
                task_template: task_template.deep_view(),
            },
        }
    }
}

impl Duplicate for NodeAction {
    fn duplicate(&self) -> (copy: Self) {
        match self {
            NodeAction::LlmInfer { system_prompt_override, use_streaming, include_tool_definitions, tool_filter_override, thinking_budget, max_tokens } => NodeAction::LlmInfer {
                system_prompt_override: system_prompt_override.duplicate(),
                use_streaming: *use_streaming,
                include_tool_definitions: *include_tool_definitions,
                tool_filter_override: tool_filter_override.duplicate(),
                thinking_budget: thinking_budget.duplicate(),
                max_tokens: max_tokens.duplicate(),
            },
            NodeAction::ToolCall { tool_name, args_template } => NodeAction::ToolCall {
                tool_name: tool_name.duplicate(),
                args_template: args_template.duplicate(),
            },
            NodeAction::HumanApproval { description } => NodeAction::HumanApproval {
                description: description.duplicate()
            },
            NodeAction::Delegate { agent_kind, task_template } => NodeAction::Delegate {
                agent_kind: agent_kind.duplicate(),
                task_template: task_template.duplicate(),
            },
        }
    }
}

impl Clone for NodeAction {
    fn clone(&self) -> (copy: Self)
        ensures
            copy.deep_view() == self.deep_view(),
    {
        self.duplicate()
    }
}

/// A node of a graph.
#[derive(Debug, PartialEq)]
pub struct GraphNode {
    pub id: String,
    pub action: NodeAction,
    /// Whether the run stops here.
    pub interrupt: bool,
    pub metadata: Table<DataValue>,
}

/// The contents of a [`GraphNode`].
#[verifier::ext_equal]
pub struct GraphNodeView {
    pub id: Seq<char>,
    pub action: NodeActionView,
    pub interrupt: bool,
    pub metadata: Seq<(Seq<char>, DataView)>,
}

impl DeepView for GraphNode {
    type V = GraphNodeView;

    open spec fn deep_view(&self) -> GraphNodeView {
        GraphNodeView {
            id: self.id.deep_view(),
            action: self.action.deep_view(),
            interrupt: self.interrupt,
            metadata: self.metadata.deep_view(),
        }
    }
}

impl Duplicate for GraphNode {
    fn duplicate(&self) -> (copy: Self) {
        GraphNode {
            id: self.id.duplicate(),
            action: self.action.duplicate(),
            interrupt: self.interrupt,
            metadata: self.metadata.duplicate(),
        }
    }
}

impl Clone for GraphNode {
    fn clone(&self) -> (copy: Self)
        ensures
            copy.deep_view() == self.deep_view(),
    {
        self.duplicate()
    }
}

/// When an edge is taken.
#[derive(Debug, Clone, Copy, PartialEq, Eq, Structural)]
pub enum EdgeCondition {
    /// The model asked for a tool.
    HasToolCalls,
    /// The model gave its answer.
    IsFinalAnswer,
    /// Always.
    Always,
    /// The model asked for a sub-agent.
    RequestsDelegation,
}

impl DeepView for EdgeCondition {
    type V = EdgeCondition;

    open spec fn deep_view(&self) -> EdgeCondition {
        *self
    }
}

impl Duplicate for EdgeCondition {
    fn duplicate(&self) -> (copy: Self) {
        *self
    }
}

/// What may follow what.
#[derive(Debug, PartialEq)]
pub struct GraphEdge {
    pub from: String,
    pub to: String,
    pub condition: Option<EdgeCondition>,
    pub metadata: Table<DataValue>,
}

/// The contents of a [`GraphEdge`].
#[verifier::ext_equal]
pub struct GraphEdgeView {
    pub from: Seq<char>,
    pub to: Seq<char>,
    pub condition: Option<EdgeCondition>,
    pub metadata: Seq<(Seq<char>, DataView)>,
}

impl DeepView for GraphEdge {
    type V = GraphEdgeView;

    open spec fn deep_view(&self) -> GraphEdgeView {
        GraphEdgeView {
            from: self.from.deep_view(),
            to: self.to.deep_view(),
            condition: self.condition.deep_view(),
            metadata: self.metadata.deep_view(),
        }
    }
}

impl Duplicate for GraphEdge {
    fn duplicate(&self) -> (copy: Self) {
        GraphEdge {
            from: self.from.duplicate(),
            to: self.to.duplicate(),
            condition: self.condition.duplicate(),
            metadata: self.metadata.duplicate(),
        }
    }
}

impl Clone for GraphEdge {
    fn clone(&self) -> (copy: Self)
        ensures
            copy.deep_view() == self.deep_view(),
    {
        self.duplicate()
    }
}

/// A graph of what may follow what.
#[derive(Debug, PartialEq)]
pub struct StateGraph {
    pub name: String,
    /// The node where it begins.
    pub entry_point: String,
    pub nodes: Vec<GraphNode>,
    pub edges: Vec<GraphEdge>,
    /// The nodes where it ends.
    pub terminal_nodes: Vec<String>,
}

/// The contents of a [`StateGraph`].
#[verifier::ext_equal]
pub struct StateGraphView {
    pub name: Seq<char>,
    pub entry_point: Seq<char>,
    pub nodes: Seq<GraphNodeView>,
    pub edges: Seq<GraphEdgeView>,
    pub terminal_nodes: Seq<Seq<char>>,
}

impl DeepView for StateGraph {
    type V = StateGraphView;

    open spec fn deep_view(&self) -> StateGraphView {
        StateGraphView {
            name: self.name.deep_view(),
            entry_point: self.entry_point.deep_view(),
            nodes: self.nodes.deep_view(),
            edges: self.edges.deep_view(),
            terminal_nodes: self.terminal_nodes.deep_view(),
        }
    }
}

impl Duplicate for StateGraph {
    fn duplicate(&self) -> (copy: Self) {
        StateGraph {
            name: self.name.duplicate(),
            entry_point: self.entry_point.duplicate(),
            nodes: self.nodes.duplicate(),
            edges: self.edges.duplicate(),
            terminal_nodes: self.terminal_nodes.duplicate(),
        }
    }
}

impl Clone for StateGraph {
    fn clone(&self) -> (copy: Self)
        ensures
            copy.deep_view() == self.deep_view(),
    {
        self.duplicate()
    }
}

impl Keyed for StateGraph {
    open spec fn key_of(contents: StateGraphView) -> Seq<char> {
        contents.name
    }

    fn key(&self) -> (key: &str) {
        self.name.as_str()
    }
}

/// A node where a model is asked.
pub open spec fn infer_node(
    id: Seq<char>,
    prompt: Option<Seq<char>>,
    tools: bool,
    tool_filter: Option<Seq<Seq<char>>>,
) -> GraphNodeView {
    GraphNodeView {
        id,
        action: NodeActionView::LlmInfer {
            system_prompt_override: prompt,
            use_streaming: true,
            include_tool_definitions: tools,
            tool_filter_override: tool_filter,
            thinking_budget: None,
            max_tokens: None,
        },
        interrupt: false,
        metadata: Seq::empty(),
    }
}

/// A node where the tool is called that the model asked for.
pub open spec fn call_node(id: Seq<char>) -> GraphNodeView {
    GraphNodeView {
        id,
        action: NodeActionView::ToolCall {
            tool_name: "{{selected_tool}}"@,
            args_template: Some("{{tool_args}}"@),
        },
        interrupt: false,
        metadata: Seq::empty(),
    }
}

/// A node where the user is asked, at which the run stops.
pub open spec fn approval_node(id: Seq<char>, description: Seq<char>) -> GraphNodeView {
    GraphNodeView {
        id,
        action: NodeActionView::HumanApproval { description },
        interrupt: true,
        metadata: Seq::empty(),
    }
}

/// A node where a sub-agent is sent to do the task.
pub open spec fn delegate_node(id: Seq<char>, kind: Seq<char>) -> GraphNodeView {
    GraphNodeView {
        id,
        action: NodeActionView::Delegate { agent_kind: kind, task_template: "{{task}}"@ },
        interrupt: false,
        metadata: Seq::empty(),
    }
}

/// What may follow what, and when.
pub open spec fn edge(from: Seq<char>, to: Seq<char>, condition: EdgeCondition) -> GraphEdgeView {
    GraphEdgeView { from, to, condition: Some(condition), metadata: Seq::empty() }
}

impl GraphNode {
    /// A node where a model is asked.
    pub fn infer(
        id: &str,
        prompt: Option<&str>,
        tools: bool,
        tool_filter: Option<Vec<String>>,
    ) -> (r: Self)
        ensures
            r.deep_view() == infer_node(
                id@,
                match prompt {
                    Some(prompt) => Some(prompt@),
                    None => None,
                },
                tools,
                tool_filter.deep_view(),
            ),
    {
        let system_prompt_override = match prompt {
            Some(prompt) => Some(prompt.to_string()),
            None => None,
        };
        GraphNode {
            id: id.to_string(),
            action: NodeAction::LlmInfer {
                system_prompt_override,
                use_streaming: true,
                include_tool_definitions: tools,
                tool_filter_override: tool_filter,
                thinking_budget: None,
                max_tokens: None,
            },
            interrupt: false,
            metadata: Table::new(),
        }
    }

    /// A node where the tool is called that the model asked for.
    pub fn call(id: &str) -> (r: Self)
        ensures
            r.deep_view() == call_node(id@),
    {
        GraphNode {
            id: id.to_string(),
            action: NodeAction::ToolCall {
                tool_name: "{{selected_tool}}".to_string(),
                args_template: Some("{{tool_args}}".to_string()),
            },
            interrupt: false,
            metadata: Table::new(),
        }
    }

    /// A node where the user is asked, at which the run stops.
    pub fn approval(id: &str, description: &str) -> (r: Self)
        ensures
            r.deep_view() == approval_node(id@, description@),
    {
        GraphNode {
            id: id.to_string(),
            action: NodeAction::HumanApproval { description: description.to_string() },
            interrupt: true,
            metadata: Table::new(),
        }
    }

    /// A node where a sub-agent is sent to do the task.
    pub fn delegate(id: &str, kind: &str) -> (r: Self)
        ensures
            r.deep_view() == delegate_node(id@, kind@),
    {
        GraphNode {
            id: id.to_string(),
            action: NodeAction::Delegate {
                agent_kind: kind.to_string(),
                task_template: "{{task}}".to_string(),
            },
            interrupt: false,
            metadata: Table::new(),
        }
    }
}

impl GraphEdge {
    /// What may follow what, and when.
    pub fn when(from: &str, to: &str, condition: EdgeCondition) -> (r: Self)
        ensures
            r.deep_view() == edge(from@, to@, condition),
    {
        GraphEdge {
            from: from.to_string(),
            to: to.to_string(),
            condition: Some(condition),
            metadata: Table::new(),
        }
    }
}

impl StateGraph {
    /// A graph without nodes.
    pub fn new(name: &str, entry_point: &str) -> (r: Self)
        ensures
            r.deep_view() == (StateGraphView {
                name: name@,
                entry_point: entry_point@,
                nodes: Seq::empty(),
                edges: Seq::empty(),
                terminal_nodes: Seq::empty(),
            }),
    {
        StateGraph {
            name: name.to_string(),
            entry_point: entry_point.to_string(),
            nodes: Vec::new(),
            edges: Vec::new(),
            terminal_nodes: Vec::new(),
        }
    }

    /// Adds a node.
    pub fn add_node(&mut self, node: GraphNode)
        ensures
            final(self).deep_view() == (StateGraphView {
                nodes: old(self).deep_view().nodes.push(node.deep_view()),
                ..old(self).deep_view()
            }),
    {
        let ghost before = self.nodes.deep_view();
        let ghost n = node.deep_view();
        self.nodes.push(node);
        assert(self.nodes.deep_view() =~= before.push(n));
    }

    /// Adds an edge.
    pub fn add_edge(&mut self, edge: GraphEdge)
        ensures
            final(self).deep_view() == (StateGraphView {
                edges: old(self).deep_view().edges.push(edge.deep_view()),
                ..old(self).deep_view()
            }),
    {
        let ghost before = self.edges.deep_view();
        let ghost e = edge.deep_view();
        self.edges.push(edge);
        assert(self.edges.deep_view() =~= before.push(e));
    }

    /// Makes a node one where the graph ends.
    pub fn add_terminal(&mut self, id: String)
        ensures
            final(self).deep_view() == (StateGraphView {
                terminal_nodes: old(self).deep_view().terminal_nodes.push(id@),
                ..old(self).deep_view()
            }),
    {
        let ghost before = self.terminal_nodes.deep_view();
        let ghost i = id@;
        self.terminal_nodes.push(id);
        assert(self.terminal_nodes.deep_view() =~= before.push(i));
    }

    /// The number of nodes.
    pub fn node_count(&self) -> (n: usize)
        ensures
            n == self.deep_view().nodes.len(),
    {
        self.nodes.len()
    }
}

/// The graph has a node of this name.
pub open spec fn has_node(graph: StateGraphView, id: Seq<char>) -> bool {
    exists|i: int| 0 <= i < graph.nodes.len() && (#[trigger] graph.nodes[i]).id == id
}

/// One node may follow the other.
pub open spec fn follows(graph: StateGraphView, from: Seq<char>, to: Seq<char>) -> bool {
    exists|i: int|
        0 <= i < graph.edges.len() && (#[trigger] graph.edges[i]).from == from && graph.edges[i].to
            == to
}

/// One node can be reached from the other within `steps` edges.
pub open spec fn reaches(graph: StateGraphView, from: Seq<char>, to: Seq<char>, steps: nat) -> bool
    decreases steps,
{
    from == to || (steps > 0 && exists|via: Seq<char>| #[trigger]
        follows(graph, from, via) && reaches(graph, via, to, (steps - 1) as nat))
}

/// The graph begins and ends at nodes of its own, its edges join nodes of its
/// own, and an end can be reached from each of them.
pub open spec fn sound_graph(graph: StateGraphView) -> bool {
    &&& has_node(graph, graph.entry_point)
    &&& graph.terminal_nodes.len() > 0
    &&& forall|i: int|
        0 <= i < graph.terminal_nodes.len() ==> has_node(graph, #[trigger] graph.terminal_nodes[i])
    &&& forall|i: int|
        0 <= i < graph.edges.len() ==> has_node(graph, (#[trigger] graph.edges[i]).from)
            && has_node(graph, graph.edges[i].to)
    &&& forall|i: int|
        0 <= i < graph.nodes.len() ==> reaches(
            graph,
            (#[trigger] graph.nodes[i]).id,
            graph.terminal_nodes[0],
            graph.nodes.len(),
        )
}

// ─── Laws ───────────────────────────────────────────────────────────────────

/// A step that calls a tool asks no model, and one that asks a model calls no tool; both
/// come behind the steps that they are given, and neither asks the user.
pub proof fn law_steps_hold_what_was_given(
    id: Seq<char>,
    description: Seq<char>,
    depends_on: Seq<Seq<char>>,
    word: Seq<char>,
    args: DataView,
    timeout_secs: Option<u64>,
)
    ensures
        ({
            let call = tool_step(id, description, depends_on, word, args, timeout_secs);
            let ask = prompt_step(id, description, depends_on, word);
            &&& call.id == id && ask.id == id
            &&& call.description == description && ask.description == description
            &&& call.depends_on == depends_on && ask.depends_on == depends_on
            &&& call.tool == Some(word) && call.tool_args == Some(args) && call.prompt is None
            &&& ask.prompt == Some(word) && ask.tool is None && ask.tool_args is None
            &&& call.timeout_secs == timeout_secs && ask.timeout_secs is None
            &&& !call.requires_approval && !ask.requires_approval
            &&& call.retry_policy is None && ask.retry_policy is None
            &&& call.metadata.len() == 0 && ask.metadata.len() == 0
        }),
{
}

/// Arguments hold each text under its key, and nothing else.
pub proof fn law_arguments_are_held(
    first: Seq<char>,
    first_value: Seq<char>,
    second: Seq<char>,
    second_value: Seq<char>,
    other: Seq<char>,
)
    requires
        first != second,
        other != first,
        other != second,
    ensures
        one_argument(first, first_value).field(first) == Some(DataView::Text(first_value)),
        one_argument(first, first_value).field(other) is None,
        two_arguments(first, first_value, second, second_value).field(first) == Some(
            DataView::Text(first_value),
        ),
        two_arguments(first, first_value, second, second_value).field(second) == Some(
            DataView::Text(second_value),
        ),
        two_arguments(first, first_value, second, second_value).field(other) is None,
{
    let none = Seq::<(Seq<char>, DataView)>::empty();
    let one = seq![(first, DataView::Text(first_value))];
    let two = seq![(first, DataView::Text(first_value)), (second, DataView::Text(second_value))];
    assert(one.drop_last() =~= none);
    assert(two.drop_last() =~= one);
    assert(data::object_of(none) =~= none);
    let single = data::with_entry(none, first, DataView::Text(first_value));
    assert(data::object_of(one) == single);
    data::law_insert_keeps_order(none, first, DataView::Text(first_value));
    data::law_entry_after_insert(none, first, DataView::Text(first_value), other);
    data::law_entry_after_insert(single, second, DataView::Text(second_value), other);
    data::law_entry_after_insert(single, second, DataView::Text(second_value), first);
}

/// A workflow holds the steps that it is given, in their order.
pub proof fn law_workflow_holds_its_steps(
    name: Seq<char>,
    description: Seq<char>,
    steps: Seq<StepConfigView>,
    go_on: bool,
)
    ensures
        ({
            let workflow = workflow_of(name, description, steps, go_on);
            &&& workflow.name == name
            &&& workflow.description == description
            &&& workflow.steps == steps
            &&& workflow.version == "1.0"@
            &&& workflow.timeout_secs == Some(300u64)
            &&& workflow.continue_on_failure == go_on
            &&& workflow.variables.len() == 0
        }),
{
}

/// The run stops at the nodes where the user is asked, and at no others; each node does
/// what it was made for.
pub proof fn law_nodes_do_what_they_are_for(
    id: Seq<char>,
    prompt: Option<Seq<char>>,
    tools: bool,
    filter: Option<Seq<Seq<char>>>,
    word: Seq<char>,
)
    ensures
        infer_node(id, prompt, tools, filter).id == id,
        call_node(id).id == id,
        approval_node(id, word).id == id,
        delegate_node(id, word).id == id,
        approval_node(id, word).interrupt,
        !infer_node(id, prompt, tools, filter).interrupt,
        !call_node(id).interrupt,
        !delegate_node(id, word).interrupt,
        infer_node(id, prompt, tools, filter).action matches NodeActionView::LlmInfer {
            system_prompt_override,
            use_streaming,
            include_tool_definitions,
            tool_filter_override,
            thinking_budget,
            max_tokens,
        } && system_prompt_override == prompt && use_streaming && include_tool_definitions == tools
            && tool_filter_override == filter && thinking_budget is None && max_tokens is None,
        call_node(id).action matches NodeActionView::ToolCall { tool_name, args_template }
            && tool_name == "{{selected_tool}}"@ && args_template == Some("{{tool_args}}"@),
        approval_node(id, word).action matches NodeActionView::HumanApproval { description }
            && description == word,
        delegate_node(id, word).action matches NodeActionView::Delegate { agent_kind, task_template }
            && agent_kind == word && task_template == "{{task}}"@,
{
}

/// An edge leads from the one node to the other, when its condition holds; a graph that has
/// it lets the one follow the other.
pub proof fn law_edge_lets_follow(
    graph: StateGraphView,
    from: Seq<char>,
    to: Seq<char>,
    condition: EdgeCondition,
)
    ensures
        edge(from, to, condition).from == from,
        edge(from, to, condition).to == to,
        edge(from, to, condition).condition == Some(condition),
        graph.edges.contains(edge(from, to, condition)) ==> follows(graph, from, to) && reaches(
            graph,
            from,
            to,
            1,
        ),
        reaches(graph, from, from, 0),
{
    if graph.edges.contains(edge(from, to, condition)) {
        let i = choose|i: int|
            0 <= i < graph.edges.len() && graph.edges[i] == edge(from, to, condition);
        assert(graph.edges[i].from == from && graph.edges[i].to == to);
        assert(follows(graph, from, to));
        assert(reaches(graph, to, to, 0));
    }
}

/// What can be reached can be reached with further steps, and over a node in between.
pub proof fn law_reaching_goes_on(
    graph: StateGraphView,
    from: Seq<char>,
    via: Seq<char>,
    to: Seq<char>,
    first: nat,
    second: nat,
)
    requires
        reaches(graph, from, via, first),
        reaches(graph, via, to, second),
    ensures
        reaches(graph, from, to, first + second),
    decreases first,
{
    if from == via {
        lemma_more_steps(graph, via, to, second, first);
    } else {
        let next = choose|next: Seq<char>| #[trigger]
            follows(graph, from, next) && reaches(graph, next, via, (first - 1) as nat);
        law_reaching_goes_on(graph, next, via, to, (first - 1) as nat, second);
        assert(((first + second) - 1) as nat == ((first - 1) as nat) + second);
    }
}

proof fn lemma_more_steps(
    graph: StateGraphView,
    from: Seq<char>,
    to: Seq<char>,
    steps: nat,
    more: nat,
)
    requires
        reaches(graph, from, to, steps),
    ensures
        reaches(graph, from, to, more + steps),
    decreases steps,
{
    if from != to {
        let next = choose|next: Seq<char>| #[trigger]
            follows(graph, from, next) && reaches(graph, next, to, (steps - 1) as nat);
        lemma_more_steps(graph, next, to, (steps - 1) as nat, more);
        assert(((more + steps) - 1) as nat == more + ((steps - 1) as nat));
    }
}

} // verus!
