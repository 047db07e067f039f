//! Which ways of working fit which tasks.

use vstd::prelude::*;
use crate::collections::Keyed;
use crate::duplicate::Duplicate;
use crate::patterns;
use crate::text;
use crate::types::{PermissionLevel, StructuredOutputConfig, StructuredOutputConfigView};

verus! {

// ─── DomainParadigmKind ─────────────────────────────────────────────────────

/// A way of working.
#[derive(Debug, Clone, Copy, PartialEq, Eq, Structural)]
pub enum DomainParadigmKind {
    Plan,
    ReAct,
    Reflect,
    Explore,
}

impl DeepView for DomainParadigmKind {
    type V = DomainParadigmKind;

    open spec fn deep_view(&self) -> DomainParadigmKind {
        *self
    }
}

impl Duplicate for DomainParadigmKind {
    fn duplicate(&self) -> (copy: Self) {
        *self
    }
}

/// The way of working with this name: `ReAct` where there is none.
pub open spec fn paradigm_named(name: Seq<char>) -> DomainParadigmKind {
    if name == "plan"@ {
        DomainParadigmKind::Plan
    } else if name == "reflect"@ {
        DomainParadigmKind::Reflect
    } else if name == "explore"@ {
        DomainParadigmKind::Explore
    } else {
        DomainParadigmKind::ReAct
    }
}

impl DomainParadigmKind {
    /// The name of this way of working.
    pub open spec fn spec_name(self) -> Seq<char> {
        match self {
            DomainParadigmKind::Plan => "plan"@,
            DomainParadigmKind::ReAct => "react"@,
            DomainParadigmKind::Reflect => "reflect"@,
            DomainParadigmKind::Explore => "explore"@,
        }
    }

    /// The name of this way of working.
    pub fn to_agent_paradigm(&self) -> (r: String)
        ensures
            r@ == self.spec_name(),
    {
        match self {
            DomainParadigmKind::Plan => "plan".to_string(),
            DomainParadigmKind::ReAct => "react".to_string(),
            DomainParadigmKind::Reflect => "reflect".to_string(),
            DomainParadigmKind::Explore => "explore".to_string(),
        }
    }

    /// The way of working with this name in lower case.
    pub fn from_lowercase(name: &str) -> (r: Self)
        ensures
            r == paradigm_named(name@),
    {
        if text::same(name, "plan") {
            DomainParadigmKind::Plan
        } else if text::same(name, "reflect") {
            DomainParadigmKind::Reflect
        } else if text::same(name, "explore") {
            DomainParadigmKind::Explore
        } else {
            DomainParadigmKind::ReAct
        }
    }

    /// The way of working with this name, in any case: `ReAct` where there is
    /// none.
    pub fn from_str(s: &str) -> (r: Self)
        ensures
            r == paradigm_named(text::in_lower_case(s@)),
            vstd::utf8::is_ascii_chars(s@) ==> r == paradigm_named(text::ascii_lowered(s@)),
    {
        let lower = text::lower(s);
        DomainParadigmKind::from_lowercase(lower.as_str())
    }
}

/// The name of a way of working leads back to it.
pub proof fn law_paradigm_name_round_trip(kind: DomainParadigmKind)
    ensures
        paradigm_named(kind.spec_name()) == kind,
        vstd::utf8::is_ascii_chars(kind.spec_name()),
        text::ascii_lowered(kind.spec_name()) == kind.spec_name(),
{
    reveal_strlit("plan");
    reveal_strlit("react");
    reveal_strlit("reflect");
    reveal_strlit("explore");
    assert("plan"@[0] == 'p' && "react"@[2] == 'a' && "reflect"@[2] == 'f' && "explore"@[0]
        == 'e');
    assert("react"@[0] == 'r' && "reflect"@[0] == 'r');
    assert(text::ascii_lowered("plan"@) =~= "plan"@);
    assert(text::ascii_lowered("react"@) =~= "react"@);
    assert(text::ascii_lowered("reflect"@) =~= "reflect"@);
    assert(text::ascii_lowered("explore"@) =~= "explore"@);
}

// ─── SubAgentTypeDefinition ─────────────────────────────────────────────────

/// How the work of a sub-agent comes back to the main branch.
#[derive(Debug, Clone, Copy, PartialEq, Eq, Structural)]
pub enum SubAgentMergeStrategy {
    /// Its branch is merged.
    Merge,
    /// Its branch is rebased, then fast-forwarded.
    Rebase,
    /// Some of its commits are picked.
    CherryPick,
    /// Its branch is kept, to be looked at by hand.
    PreserveOnly,
}

impl DeepView for SubAgentMergeStrategy {
    type V = SubAgentMergeStrategy;

    open spec fn deep_view(&self) -> SubAgentMergeStrategy {
        *self
    }
}

impl Duplicate for SubAgentMergeStrategy {
    fn duplicate(&self) -> (copy: Self) {
        *self
    }
}

/// A type of sub-agent.
#[derive(Debug, PartialEq)]
pub struct SubAgentTypeDefinition {
    /// The name of the type.
    pub name: String,
    /// What the main agent is told of it.
    pub description: String,
    /// What it is told itself.
    pub system_prompt: String,
    /// The tools it may use.
    pub available_tools: Vec<String>,
    /// Up to which level its tools run without asking.
    pub permission_threshold: PermissionLevel,
    /// How many tokens it may use: 0 for the usual number.
    pub budget: u32,
    /// Whether it changes files.
    pub modifies_files: bool,
    /// How its work comes back, where it changes files.
    pub merge_strategy: SubAgentMergeStrategy,
    /// The form that its answer must have, where there is one.
    pub structured_output: Option<StructuredOutputConfig>,
}

/// The contents of a [`SubAgentTypeDefinition`].
#[verifier::ext_equal]
pub struct SubAgentTypeDefinitionView {
    pub name: Seq<char>,
    pub description: Seq<char>,
    pub system_prompt: Seq<char>,
    pub available_tools: Seq<Seq<char>>,
    pub permission_threshold: PermissionLevel,
    pub budget: u32,
    pub modifies_files: bool,
    pub merge_strategy: SubAgentMergeStrategy,
    pub structured_output: Option<StructuredOutputConfigView>,
}

impl DeepView for SubAgentTypeDefinition {
    type V = SubAgentTypeDefinitionView;

    open spec fn deep_view(&self) -> SubAgentTypeDefinitionView {
        SubAgentTypeDefinitionView {
            name: self.name.deep_view(),
            description: self.description.deep_view(),
            system_prompt: self.system_prompt.deep_view(),
            available_tools: self.available_tools.deep_view(),
            permission_threshold: self.permission_threshold,
            budget: self.budget,
            modifies_files: self.modifies_files,
            merge_strategy: self.merge_strategy,
            structured_output: self.structured_output.deep_view(),
        }
    }
}

impl Duplicate for SubAgentTypeDefinition {
    fn duplicate(&self) -> (copy: Self) {
        SubAgentTypeDefinition {
            name: self.name.duplicate(),
            description: self.description.duplicate(),
            system_prompt: self.system_prompt.duplicate(),
            available_tools: self.available_tools.duplicate(),
            permission_threshold: self.permission_threshold,
            budget: self.budget,
            modifies_files: self.modifies_files,
            merge_strategy: self.merge_strategy,
            structured_output: self.structured_output.duplicate(),
        }
    }
}

impl Clone for SubAgentTypeDefinition {
    fn clone(&self) -> (copy: Self)
        ensures
            copy.deep_view() == self.deep_view(),
    {
        self.duplicate()
    }
}

impl Keyed for SubAgentTypeDefinition {
    open spec fn key_of(contents: SubAgentTypeDefinitionView) -> Seq<char> {
        contents.name
    }

    fn key(&self) -> (key: &str) {
        self.name.as_str()
    }
}

/// A sub-agent that looks and changes nothing.
pub open spec fn reading_agent(
    name: Seq<char>,
    description: Seq<char>,
    system_prompt: Seq<char>,
    tools: Seq<Seq<char>>,
    budget: u32,
) -> SubAgentTypeDefinitionView {
    custom_agent(name, description, system_prompt, tools, budget, false)
}

/// A sub-agent of the given kind: where it changes files, its tools run up to
/// the standard level and its branch is merged.
pub open spec fn custom_agent(
    name: Seq<char>,
    description: Seq<char>,
    system_prompt: Seq<char>,
    tools: Seq<Seq<char>>,
    budget: u32,
    modifies_files: bool,
) -> SubAgentTypeDefinitionView {
    SubAgentTypeDefinitionView {
        name,
        description,
        system_prompt,
        available_tools: tools,
        permission_threshold: if modifies_files {
            PermissionLevel::Standard
        } else {
            PermissionLevel::Read
        },
        budget,
        modifies_files,
        merge_strategy: if modifies_files {
            SubAgentMergeStrategy::Merge
        } else {
            SubAgentMergeStrategy::PreserveOnly
        },
        structured_output: None,
    }
}

/// What the planning agent is told.
pub const PLAN_PROMPT: &'static str = "You are a planning agent. Decompose the given task into ordered steps with dependencies. Return a structured plan as a numbered list.";

/// What the exploring agent is told.
pub const EXPLORE_PROMPT: &'static str = "You are an exploration agent. Search and understand the codebase using available tools. Return a comprehensive summary of your findings.";

/// What the coding agent is told.
pub const CODE_PROMPT: &'static str = "You are a code implementation agent. Write and modify code based on the given specification. Return a summary of all changes you made.";

/// What the reviewing agent is told.
pub const REVIEW_PROMPT: &'static str = "You are a code review agent. Review code for correctness bugs, style issues, and potential improvements. Return a structured review.";

/// The planning agent.
pub open spec fn plan_agent() -> SubAgentTypeDefinitionView {
    reading_agent(
        "plan"@,
        "Task decomposition agent — creates structured plans"@,
        PLAN_PROMPT@,
        seq!["read_file"@, "grep"@, "glob"@],
        30_000,
    )
}

/// The exploring agent.
pub open spec fn explore_agent() -> SubAgentTypeDefinitionView {
    reading_agent(
        "explore"@,
        "Exploration agent — searches and understands the codebase"@,
        EXPLORE_PROMPT@,
        seq!["read_file"@, "grep"@, "glob"@, "list_directory"@],
        40_000,
    )
}

/// The coding agent.
pub open spec fn code_agent() -> SubAgentTypeDefinitionView {
    custom_agent(
        "code"@,
        "Code implementation agent — writes and modifies code"@,
        CODE_PROMPT@,
        seq!["read_file"@, "edit_file"@, "shell"@, "grep"@, "glob"@],
        80_000,
        true,
    )
}

/// The reviewing agent.
pub open spec fn review_agent() -> SubAgentTypeDefinitionView {
    reading_agent(
        "review"@,
        "Review agent — reviews and audits existing work"@,
        REVIEW_PROMPT@,
        seq!["read_file"@, "grep"@, "glob"@, "list_directory"@],
        30_000,
    )
}

/// How the work of a sub-agent comes back where nothing is said of it.
pub fn default_merge_strategy() -> (r: SubAgentMergeStrategy)
    ensures
        r == SubAgentMergeStrategy::PreserveOnly,
{
    SubAgentMergeStrategy::PreserveOnly
}

impl SubAgentTypeDefinition {
    /// The planning agent.
    pub fn plan() -> (r: Self)
        ensures
            r.deep_view() == plan_agent(),
    {
        SubAgentTypeDefinition::custom(
            "plan",
            "Task decomposition agent — creates structured plans",
            PLAN_PROMPT,
            text::texts(["read_file", "grep", "glob"]),
            30_000,
            false,
        )
    }

    /// The exploring agent.
    pub fn explore() -> (r: Self)
        ensures
            r.deep_view() == explore_agent(),
    {
        SubAgentTypeDefinition::custom(
            "explore",
            "Exploration agent — searches and understands the codebase",
            EXPLORE_PROMPT,
            text::texts(["read_file", "grep", "glob", "list_directory"]),
            40_000,
            false,
        )
    }

    /// The coding agent.
    pub fn code() -> (r: Self)
        ensures
            r.deep_view() == code_agent(),
    {
        SubAgentTypeDefinition::custom(
            "code",
            "Code implementation agent — writes and modifies code",
            CODE_PROMPT,
            text::texts(["read_file", "edit_file", "shell", "grep", "glob"]),
            80_000,
            true,
        )
    }

    /// The reviewing agent.
    pub fn review() -> (r: Self)
        ensures
            r.deep_view() == review_agent(),
    {
        SubAgentTypeDefinition::custom(
            "review",
            "Review agent — reviews and audits existing work",
            REVIEW_PROMPT,
            text::texts(["read_file", "grep", "glob", "list_directory"]),
            30_000,
            false,
        )
    }

    /// A sub-agent of the given kind.
    pub fn custom(
        name: &str,
        description: &str,
        system_prompt: &str,
        tools: Vec<String>,
        budget: u32,
        modifies_files: bool,
    ) -> (r: Self)
        ensures
            r.deep_view() == custom_agent(
                name@,
                description@,
                system_prompt@,
                tools.deep_view(),
                budget,
                modifies_files,
            ),
    {
        SubAgentTypeDefinition {
            name: name.to_string(),
            description: description.to_string(),
            system_prompt: system_prompt.to_string(),
            available_tools: tools,
            permission_threshold: if modifies_files {
                PermissionLevel::Standard
            } else {
                PermissionLevel::Read
            },
            budget,
            modifies_files,
            merge_strategy: if modifies_files {
                SubAgentMergeStrategy::Merge
            } else {
                SubAgentMergeStrategy::PreserveOnly
            },
            structured_output: None,
        }
    }

    /// The four usual sub-agents.
    pub fn defaults() -> (r: Vec<Self>)
        ensures
            r.deep_view() == seq![plan_agent(), explore_agent(), code_agent(), review_agent()],
    {
        vec![
            SubAgentTypeDefinition::plan(),
            SubAgentTypeDefinition::explore(),
            SubAgentTypeDefinition::code(),
            SubAgentTypeDefinition::review(),
        ]
    }
}

/// Of the usual sub-agents those that change files are merged back and run
/// tools up to the standard level; the others only look.
pub proof fn law_usual_agents(agent: SubAgentTypeDefinitionView)
    requires
        seq![plan_agent(), explore_agent(), code_agent(), review_agent()].contains(agent),
    ensures
        agent.modifies_files <==> agent.merge_strategy == SubAgentMergeStrategy::Merge,
        agent.modifies_files <==> agent.permission_threshold == PermissionLevel::Standard,
        !agent.modifies_files ==> agent.permission_threshold == PermissionLevel::Read,
        agent.budget > 0,
{
}

// ─── ParadigmStrategy ───────────────────────────────────────────────────────

/// The ways of working for the tasks of one kind.
#[derive(Debug, PartialEq)]
pub struct ParadigmStrategy {
    /// A regular expression that is found in such a task, whatever the case of its
    /// letters.
    pub trigger_pattern: String,
    /// The ways of working, in order.
    pub paradigm_sequence: Vec<DomainParadigmKind>,
    /// The sub-agents that may be called.
    pub sub_agent_types: Vec<SubAgentTypeDefinition>,
    /// When this applies.
    pub description: String,
}

/// The contents of a [`ParadigmStrategy`].
#[verifier::ext_equal]
pub struct ParadigmStrategyView {
    pub trigger_pattern: Seq<char>,
    pub paradigm_sequence: Seq<DomainParadigmKind>,
    pub sub_agent_types: Seq<SubAgentTypeDefinitionView>,
    pub description: Seq<char>,
}

impl DeepView for ParadigmStrategy {
    type V = ParadigmStrategyView;

    open spec fn deep_view(&self) -> ParadigmStrategyView {
        ParadigmStrategyView {
            trigger_pattern: self.trigger_pattern.deep_view(),
            paradigm_sequence: self.paradigm_sequence.deep_view(),
            sub_agent_types: self.sub_agent_types.deep_view(),
            description: self.description.deep_view(),
        }
    }
}

impl Duplicate for ParadigmStrategy {
    fn duplicate(&self) -> (copy: Self) {
        ParadigmStrategy {
            trigger_pattern: self.trigger_pattern.duplicate(),
            paradigm_sequence: self.paradigm_sequence.duplicate(),
            sub_agent_types: self.sub_agent_types.duplicate(),
            description: self.description.duplicate(),
        }
    }
}

impl Clone for ParadigmStrategy {
    fn clone(&self) -> (copy: Self)
        ensures
            copy.deep_view() == self.deep_view(),
    {
        self.duplicate()
    }
}

impl Keyed for ParadigmStrategy {
    open spec fn key_of(contents: ParadigmStrategyView) -> Seq<char> {
        contents.trigger_pattern
    }

    fn key(&self) -> (key: &str) {
        self.trigger_pattern.as_str()
    }
}

/// The strategy fits the task.
pub open spec fn fits(strategy: ParadigmStrategyView, task: Seq<char>) -> bool {
    patterns::pattern_found_any_case(strategy.trigger_pattern, task) == Some(true)
}

impl ParadigmStrategy {
    /// Whether this strategy is for the task.
    pub fn matches(&self, task: &str) -> (r: bool)
        ensures
            r == fits(self.deep_view(), task@),
    {
        match patterns::search_any_case(self.trigger_pattern.as_str(), task) {
            Some(found) => found,
            None => false,
        }
    }
}

/// The position of the first `true`: the length where there is none.
pub open spec fn first_true(flags: Seq<bool>) -> nat
    decreases flags.len(),
{
    if flags.len() == 0 || flags[0] {
        0
    } else {
        1 + first_true(flags.drop_first())
    }
}

/// Of each strategy, whether it is for the task.
pub open spec fn fitting(strategies: Seq<ParadigmStrategyView>, task: Seq<char>) -> Seq<bool> {
    Seq::new(strategies.len(), |i: int| fits(strategies[i], task))
}

/// The first strategy that is marked.
pub open spec fn first_marked(strategies: Seq<ParadigmStrategyView>, marks: Seq<bool>) -> Option<
    ParadigmStrategyView,
> {
    if first_true(marks) < strategies.len() {
        Some(strategies[first_true(marks) as int])
    } else {
        None
    }
}

/// The first strategy that is for the task.
pub open spec fn first_fitting(strategies: Seq<ParadigmStrategyView>, task: Seq<char>) -> Option<
    ParadigmStrategyView,
> {
    first_marked(strategies, fitting(strategies, task))
}

/// The first strategy that is marked.
pub fn pick_marked<'a>(strategies: &'a Vec<ParadigmStrategy>, marks: &Vec<bool>) -> (r: Option<
    &'a ParadigmStrategy,
>)
    requires
        marks@.len() == strategies@.len(),
    ensures
        match r {
            Some(strategy) => first_marked(strategies.deep_view(), marks@) == Some(
                strategy.deep_view(),
            ),
            None => first_marked(strategies.deep_view(), marks@) is None,
        },
{
    let mut i: usize = 0;
    assert(marks@.skip(0) =~= marks@);
    while i < strategies.len()
        invariant
            i <= strategies.len() == marks.len(),
            first_true(marks@) == i + first_true(marks@.skip(i as int)),
        decreases strategies.len() - i,
    {
        assert(marks@.skip(i as int)[0] == marks@[i as int]);
        if marks[i] {
            assert(strategies.deep_view()[i as int] == strategies@[i as int].deep_view());
            return Some(&strategies[i]);
        }
        assert(marks@.skip(i as int).drop_first() =~= marks@.skip(i + 1));
        i = i + 1;
    }
    None
}

/// The first strategy that is for the task.
pub fn find_strategy<'a>(strategies: &'a Vec<ParadigmStrategy>, task: &str) -> (r: Option<
    &'a ParadigmStrategy,
>)
    ensures
        match r {
            Some(strategy) => first_fitting(strategies.deep_view(), task@) == Some(
                strategy.deep_view(),
            ),
            None => first_fitting(strategies.deep_view(), task@) is None,
        },
{
    let ghost expected = fitting(strategies.deep_view(), task@);
    let mut marks: Vec<bool> = Vec::new();
    let mut i: usize = 0;
    while i < strategies.len()
        invariant
            i <= strategies.len(),
            expected == fitting(strategies.deep_view(), task@),
            marks@ == expected.take(i as int),
        decreases strategies.len() - i,
    {
        let mark = strategies[i].matches(task);
        marks.push(mark);
        i = i + 1;
        assert(marks@ =~= expected.take(i as int));
    }
    assert(expected.take(i as int) =~= expected);
    pick_marked(strategies, &marks)
}

/// The strategies of a domain, in the order in which they are tried.
#[derive(Debug)]
pub struct ParadigmStrategyRegistry {
    strategies: Vec<ParadigmStrategy>,
}

/// The contents of a [`ParadigmStrategyRegistry`].
#[verifier::ext_equal]
pub struct ParadigmStrategyRegistryView {
    pub strategies: Seq<ParadigmStrategyView>,
}

impl DeepView for ParadigmStrategyRegistry {
    type V = ParadigmStrategyRegistryView;

    closed spec fn deep_view(&self) -> ParadigmStrategyRegistryView {
        ParadigmStrategyRegistryView {
            strategies: self.strategies.deep_view(),
        }
    }
}

impl Duplicate for ParadigmStrategyRegistry {
    fn duplicate(&self) -> (copy: Self) {
        ParadigmStrategyRegistry {
            strategies: self.strategies.duplicate(),
        }
    }
}

impl Clone for ParadigmStrategyRegistry {
    fn clone(&self) -> (copy: Self)
        ensures
            copy.deep_view() == self.deep_view(),
    {
        self.duplicate()
    }
}

impl ParadigmStrategyRegistry {
    /// No strategies.
    pub fn new() -> (r: Self)
        ensures
            r.deep_view().strategies == Seq::<ParadigmStrategyView>::empty(),
    {
        let r = ParadigmStrategyRegistry { strategies: Vec::new() };
        assert(r.deep_view().strategies =~= Seq::<ParadigmStrategyView>::empty());
        r
    }

    /// These strategies.
    pub fn from_strategies(strategies: Vec<ParadigmStrategy>) -> (r: Self)
        ensures
            r.deep_view().strategies == strategies.deep_view(),
    {
        ParadigmStrategyRegistry { strategies }
    }

    /// The first strategy that is marked.
    pub fn find_marked(&self, marks: &Vec<bool>) -> (r: Option<&ParadigmStrategy>)
        requires
            marks@.len() == self.deep_view().strategies.len(),
        ensures
            match r {
                Some(strategy) => first_marked(self.deep_view().strategies, marks@) == Some(
                    strategy.deep_view(),
                ),
                None => first_marked(self.deep_view().strategies, marks@) is None,
            },
    {
        pick_marked(&self.strategies, marks)
    }

    /// The first strategy that is for the task.
    pub fn find_matching(&self, task: &str) -> (r: Option<&ParadigmStrategy>)
        ensures
            match r {
                Some(strategy) => first_fitting(self.deep_view().strategies, task@) == Some(
                    strategy.deep_view(),
                ),
                None => first_fitting(self.deep_view().strategies, task@) is None,
            },
    {
        find_strategy(&self.strategies, task)
    }

    /// The strategies.
    pub fn all_strategies(&self) -> (r: &Vec<ParadigmStrategy>)
        ensures
            r.deep_view() == self.deep_view().strategies,
    {
        &self.strategies
    }
}

impl Default for ParadigmStrategyRegistry {
    fn default() -> (r: Self)
        ensures
            r.deep_view().strategies == Seq::<ParadigmStrategyView>::empty(),
    {
        ParadigmStrategyRegistry::new()
    }
}

/// The strategy that is found is for the task, and none before it is; where
/// none is found, none is for the task.
pub proof fn law_first_strategy_wins(strategies: Seq<ParadigmStrategyView>, task: Seq<char>)
    ensures
        ({
            let n = first_true(fitting(strategies, task)) as int;
            &&& forall|i: int| 0 <= i < n ==> !#[trigger] fits(strategies[i], task)
            &&& match first_marked(strategies, fitting(strategies, task)) {
                Some(strategy) => n < strategies.len() && strategy == strategies[n] && fits(
                    strategy,
                    task,
                ),
                None => n == strategies.len(),
            }
        }),
{
    let marks = fitting(strategies, task);
    lemma_first_true(marks);
    assert forall|i: int| 0 <= i < first_true(marks) implies !#[trigger] fits(
        strategies[i],
        task,
    ) by {
        assert(!marks[i]);
    }
}

proof fn lemma_first_true(flags: Seq<bool>)
    ensures
        first_true(flags) <= flags.len(),
        forall|i: int| 0 <= i < first_true(flags) ==> !#[trigger] flags[i],
        first_true(flags) < flags.len() ==> flags[first_true(flags) as int],
    decreases flags.len(),
{
    if flags.len() > 0 && !flags[0] {
        let rest = flags.drop_first();
        lemma_first_true(rest);
        assert forall|i: int| 0 <= i < first_true(flags) implies !#[trigger] flags[i] by {
            if i > 0 {
                assert(!rest[i - 1]);
            }
        }
    }
}

/// The strategy that a task gets is the first whose expression is found in it, and it gets
/// none where none is found.
pub proof fn law_task_gets_the_first_strategy(
    strategies: Seq<ParadigmStrategyView>,
    task: Seq<char>,
    i: int,
)
    ensures
        0 <= i < strategies.len() && patterns::pattern_found_any_case(
            strategies[i].trigger_pattern,
            task,
        ) == Some(true) && (forall|k: int|
            0 <= k < i ==> patterns::pattern_found_any_case(
                (#[trigger] strategies[k]).trigger_pattern,
                task,
            ) != Some(true)) ==> first_fitting(strategies, task) == Some(strategies[i]),
        (forall|k: int|
            0 <= k < strategies.len() ==> patterns::pattern_found_any_case(
                (#[trigger] strategies[k]).trigger_pattern,
                task,
            ) != Some(true)) ==> first_fitting(strategies, task) is None,
{
    let marks = fitting(strategies, task);
    lemma_first_true(marks);
    let n = first_true(marks) as int;
    if n < marks.len() {
        assert(fits(strategies[n], task));
    }
    if 0 <= i < strategies.len() && fits(strategies[i], task) {
        assert(marks[i]);
    }
}

/// Of marked strategies the first is taken.
pub proof fn law_first_mark_counts(
    strategies: Seq<ParadigmStrategyView>,
    marks: Seq<bool>,
    i: int,
)
    requires
        strategies.len() == marks.len(),
    ensures
        0 <= i < marks.len() && marks[i] && (forall|k: int| 0 <= k < i ==> !#[trigger] marks[k])
            ==> first_marked(strategies, marks) == Some(strategies[i]),
        !marks.contains(true) ==> first_marked(strategies, marks) is None,
{
    lemma_first_true(marks);
    let n = first_true(marks) as int;
    if n < marks.len() {
        assert(marks.contains(marks[n]));
    }
}

/// An agent is what it was made for: one that changes files may do what is usual and its
/// work is merged; one that only reads may only read, and its work is kept aside.
pub proof fn law_agents_by_what_they_may_change(
    name: Seq<char>,
    description: Seq<char>,
    prompt: Seq<char>,
    tools: Seq<Seq<char>>,
    budget: u32,
    changes: bool,
)
    ensures
        ({
            let agent = custom_agent(name, description, prompt, tools, budget, changes);
            &&& agent.name == name
            &&& agent.description == description
            &&& agent.system_prompt == prompt
            &&& agent.available_tools == tools
            &&& agent.budget == budget
            &&& agent.modifies_files == changes
            &&& changes ==> agent.permission_threshold == PermissionLevel::Standard
                && agent.merge_strategy == SubAgentMergeStrategy::Merge
            &&& !changes ==> agent.permission_threshold == PermissionLevel::Read
                && agent.merge_strategy == SubAgentMergeStrategy::PreserveOnly
            &&& reading_agent(name, description, prompt, tools, budget) == custom_agent(
                name,
                description,
                prompt,
                tools,
                budget,
                false,
            )
        }),
{
}

} // verus!
