//! Whether a configuration of a pack can be built as it is meant.
//!
//! A configuration is held to the shape that its schema gives, to the names that
//! are known, and to the bounds among its numbers.

use vstd::prelude::*;
use crate::collections::Table;
use crate::config_parser::{
    self, DomainPackConfig, DomainPackConfigView, MemoryProfileConfig, MemoryProfileConfigView,
    ParadigmStrategyConfig, ParadigmStrategyConfigView, SubAgentConfig, SubAgentConfigView,
};
use crate::domain_pack;
use crate::domain_spec::{self, DomainPackSpec};
use crate::duplicate::Duplicate;
use crate::text;

verus! {

// ─── Issues ─────────────────────────────────────────────────────────────────

/// How much an issue weighs.
#[derive(Debug, Clone, Copy, PartialEq, Eq, Structural)]
pub enum Severity {
    /// The configuration must not be built.
    Error,
    /// The configuration may be built.
    Warning,
}

impl DeepView for Severity {
    type V = Severity;

    open spec fn deep_view(&self) -> Severity {
        *self
    }
}

impl Duplicate for Severity {
    fn duplicate(&self) -> (copy: Self) {
        *self
    }
}

/// Something that is amiss with a configuration.
#[derive(Debug, PartialEq)]
pub struct ValidationIssue {
    /// How much it weighs.
    pub severity: Severity,
    /// The field that it is about.
    pub field: String,
    /// What is said of it.
    pub message: String,
}

/// The contents of a [`ValidationIssue`].
#[verifier::ext_equal]
pub struct ValidationIssueView {
    pub severity: Severity,
    pub field: Seq<char>,
    pub message: Seq<char>,
}

impl DeepView for ValidationIssue {
    type V = ValidationIssueView;

    open spec fn deep_view(&self) -> ValidationIssueView {
        ValidationIssueView {
            severity: self.severity,
            field: self.field.deep_view(),
            message: self.message.deep_view(),
        }
    }
}

impl Duplicate for ValidationIssue {
    fn duplicate(&self) -> (copy: Self) {
        ValidationIssue {
            severity: self.severity,
            field: self.field.duplicate(),
            message: self.message.duplicate(),
        }
    }
}

impl Clone for ValidationIssue {
    fn clone(&self) -> (copy: Self)
        ensures
            copy.deep_view() == self.deep_view(),
    {
        self.duplicate()
    }
}

/// What was found amiss with a configuration.
#[derive(Debug, PartialEq)]
pub struct ValidationResult {
    /// The issues, in the order of the fields.
    pub issues: Vec<ValidationIssue>,
}

/// The contents of a [`ValidationResult`].
#[verifier::ext_equal]
pub struct ValidationResultView {
    pub issues: Seq<ValidationIssueView>,
}

impl DeepView for ValidationResult {
    type V = ValidationResultView;

    open spec fn deep_view(&self) -> ValidationResultView {
        ValidationResultView {
            issues: self.issues.deep_view(),
        }
    }
}

impl Duplicate for ValidationResult {
    fn duplicate(&self) -> (copy: Self) {
        ValidationResult {
            issues: self.issues.duplicate(),
        }
    }
}

impl Clone for ValidationResult {
    fn clone(&self) -> (copy: Self)
        ensures
            copy.deep_view() == self.deep_view(),
    {
        self.duplicate()
    }
}

impl ValidationResultView {
    /// No issue is an error.
    pub open spec fn valid(self) -> bool {
        forall|i: int|
            0 <= i < self.issues.len() ==> (#[trigger] self.issues[i]).severity != Severity::Error
    }
}

impl ValidationResult {
    /// Whether no issue is an error.
    pub fn is_valid(&self) -> (r: bool)
        ensures
            r == self.deep_view().valid(),
    {
        let ghost all = self.deep_view().issues;
        let mut i: usize = 0;
        while i < self.issues.len()
            invariant
                i <= self.issues.len(),
                all == self.deep_view().issues,
                forall|k: int| 0 <= k < i ==> (#[trigger] all[k]).severity != Severity::Error,
            decreases self.issues.len() - i,
        {
            assert(all[i as int] == self.issues@[i as int].deep_view());
            match self.issues[i].severity {
                Severity::Error => {
                    return false;
                },
                Severity::Warning => {},
            }
            i = i + 1;
        }
        true
    }

    /// The issues.
    pub fn issues(&self) -> (r: &Vec<ValidationIssue>)
        ensures
            r.deep_view() == self.deep_view().issues,
    {
        &self.issues
    }
}

/// What is said of an issue: `field: message`.
pub open spec fn issue_line(issue: ValidationIssueView) -> Seq<char> {
    issue.field + ": "@ + issue.message
}

impl ValidationIssue {
    /// What is said of the issue: `field: message`.
    pub fn line(&self) -> (r: String)
        ensures
            r@ == issue_line(self.deep_view()),
    {
        let mut r = self.field.clone();
        r.push_str(": ");
        r.push_str(self.message.as_str());
        r
    }
}

/// An issue that is an error.
pub open spec fn error_in(field: Seq<char>, message: Seq<char>) -> ValidationIssueView {
    ValidationIssueView { severity: Severity::Error, field, message }
}

/// The issue where the condition holds, and none where it does not.
pub open spec fn error_if(condition: bool, field: Seq<char>, message: Seq<char>) -> Seq<
    ValidationIssueView,
> {
    if condition {
        seq![error_in(field, message)]
    } else {
        Seq::empty()
    }
}

/// Adds the issue where the condition holds.
fn add_if(issues: &mut Vec<ValidationIssue>, condition: bool, field: &str, message: &str)
    ensures
        final(issues).deep_view() == old(issues).deep_view() + error_if(
            condition,
            field@,
            message@,
        ),
{
    let ghost before = issues.deep_view();
    if condition {
        issues.push(
            ValidationIssue {
                severity: Severity::Error,
                field: field.to_string(),
                message: message.to_string(),
            },
        );
        assert(issues.deep_view() =~= before + seq![error_in(field@, message@)]);
    } else {
        assert(issues.deep_view() =~= before + Seq::empty());
    }
}

// ─── Names ──────────────────────────────────────────────────────────────────

/// A letter from `a` to `z`.
pub open spec fn small_letter(c: char) -> bool {
    'a' <= c && c <= 'z'
}

/// A character that a name of a pack may hold behind its first.
pub open spec fn name_character(c: char) -> bool {
    small_letter(c) || ('0' <= c && c <= '9') || c == '_' || c == '-'
}

/// A name of a pack: at most 64 characters, the first of them a letter.
pub open spec fn well_named(name: Seq<char>) -> bool {
    &&& 0 < name.len() <= 64
    &&& small_letter(name[0])
    &&& forall|i: int| 0 <= i < name.len() ==> name_character(#[trigger] name[i])
}

/// Whether this is a name of a pack.
pub fn is_well_named(name: &str) -> (r: bool)
    ensures
        r == well_named(name@),
{
    let v = text::chars(name);
    if v.len() == 0 || v.len() > 64 || !('a' <= v[0] && v[0] <= 'z') {
        return false;
    }
    let mut i: usize = 0;
    while i < v.len()
        invariant
            i <= v.len(),
            v@ == name@,
            forall|k: int| 0 <= k < i ==> name_character(#[trigger] name@[k]),
        decreases v.len() - i,
    {
        let c = v[i];
        if !(('a' <= c && c <= 'z') || ('0' <= c && c <= '9') || c == '_' || c == '-') {
            assert(!name_character(name@[i as int]));
            return false;
        }
        i = i + 1;
    }
    true
}

/// What is amiss with a list of names: one that is not known, and one that
/// stands there twice.
pub open spec fn name_issues(names: Seq<Seq<char>>, known: Seq<Seq<char>>, field: Seq<char>) -> Seq<
    ValidationIssueView,
>
    decreases names.len(),
{
    if names.len() == 0 {
        Seq::empty()
    } else {
        let front = names.drop_last();
        name_issues(front, known, field) + error_if(
            !known.contains(names.last()),
            field,
            "unknown name '"@ + names.last() + "'"@,
        ) + error_if(
            front.contains(names.last()),
            field,
            "name '"@ + names.last() + "' stands twice"@,
        )
    }
}

/// The text between two others.
fn enclosed(before: &str, inner: &str, after: &str) -> (r: String)
    ensures
        r@ == before@ + inner@ + after@,
{
    let mut r = before.to_string();
    r.push_str(inner);
    r.push_str(after);
    r
}

/// Whether one of the first `n` names is `name`.
fn stands_before(names: &Vec<String>, n: usize, name: &str) -> (r: bool)
    requires
        n <= names.len(),
    ensures
        r == names.deep_view().take(n as int).contains(name@),
{
    let ghost all = names.deep_view();
    let mut i: usize = 0;
    while i < n
        invariant
            i <= n <= names.len(),
            all == names.deep_view(),
            forall|k: int| 0 <= k < i ==> all[k] != name@,
        decreases n - i,
    {
        if text::same(names[i].as_str(), name) {
            assert(all.take(n as int)[i as int] == name@);
            return true;
        }
        i = i + 1;
    }
    false
}

/// Adds what is amiss with a list of names.
fn add_name_issues(
    issues: &mut Vec<ValidationIssue>,
    names: &Vec<String>,
    known: &Vec<String>,
    field: &str,
)
    ensures
        final(issues).deep_view() == old(issues).deep_view() + name_issues(
            names.deep_view(),
            known.deep_view(),
            field@,
        ),
{
    let ghost before = issues.deep_view();
    let ghost all = names.deep_view();
    let mut i: usize = 0;
    assert(before + name_issues(all.take(0), known.deep_view(), field@) =~= before);
    while i < names.len()
        invariant
            i <= names.len(),
            all == names.deep_view(),
            issues.deep_view() == before + name_issues(
                all.take(i as int),
                known.deep_view(),
                field@,
            ),
        decreases names.len() - i,
    {
        let ghost so_far = issues.deep_view();
        assert(all.take(i + 1).drop_last() =~= all.take(i as int));
        assert(all[i as int] == names@[i as int]@);
        let unknown = !text::list_contains(known, names[i].as_str());
        let twice = stands_before(names, i, names[i].as_str());
        let unknown_message = enclosed("unknown name '", names[i].as_str(), "'");
        let twice_message = enclosed("name '", names[i].as_str(), "' stands twice");
        add_if(issues, unknown, field, unknown_message.as_str());
        add_if(issues, twice, field, twice_message.as_str());
        proof {
            lemma_add_two(
                before,
                name_issues(all.take(i as int), known.deep_view(), field@),
                error_if(unknown, field@, unknown_message@),
                error_if(twice, field@, twice_message@),
            );
        }
        i = i + 1;
    }
    assert(all.take(i as int) =~= all);
}

proof fn lemma_add_two<A>(a: Seq<A>, b: Seq<A>, c: Seq<A>, d: Seq<A>)
    ensures
        a + b + c + d == a + (b + c + d),
{
    assert(a + b + c + d =~= a + (b + c + d));
}

// ─── What is said of tools ──────────────────────────────────────────────────

/// What is amiss with what is said of tools: a text that is empty.
pub open spec fn decorator_issues(entries: Seq<(Seq<char>, Seq<char>)>) -> Seq<
    ValidationIssueView,
>
    decreases entries.len(),
{
    if entries.len() == 0 {
        Seq::empty()
    } else {
        decorator_issues(entries.drop_last()) + error_if(
            entries.last().1.len() == 0,
            "tool_decorators"@,
            "nothing is said of '"@ + entries.last().0 + "'"@,
        )
    }
}

/// Adds what is amiss with what is said of tools.
fn add_decorator_issues(issues: &mut Vec<ValidationIssue>, entries: &Table<String>)
    ensures
        final(issues).deep_view() == old(issues).deep_view() + decorator_issues(
            entries.deep_view(),
        ),
{
    let ghost before = issues.deep_view();
    let ghost all = entries.deep_view();
    let mut i: usize = 0;
    assert(before + decorator_issues(all.take(0)) =~= before);
    while i < entries.len()
        invariant
            i <= all.len(),
            all == entries.deep_view(),
            issues.deep_view() == before + decorator_issues(all.take(i as int)),
        decreases all.len() - i,
    {
        assert(all.take(i + 1).drop_last() =~= all.take(i as int));
        let empty = text::chars(entries.value_at(i).as_str()).len() == 0;
        let message = enclosed("nothing is said of '", entries.key_at(i), "'");
        add_if(issues, empty, "tool_decorators", message.as_str());
        proof {
            let more = error_if(empty, "tool_decorators"@, message@);
            assert(before + decorator_issues(all.take(i as int)) + more =~= before + (
            decorator_issues(all.take(i as int)) + more));
        }
        i = i + 1;
    }
    assert(all.take(i as int) =~= all);
}

// ─── Ways of working ────────────────────────────────────────────────────────

/// The names of the ways of working.
pub open spec fn known_ways() -> Seq<Seq<char>> {
    seq!["Plan"@, "ReAct"@, "Reflect"@, "Explore"@]
}

/// The names of the permission levels.
pub open spec fn known_levels() -> Seq<Seq<char>> {
    seq!["read"@, "standard"@, "admin"@]
}

/// What is amiss with the names of ways: one that is not known.
pub open spec fn way_issues(names: Seq<Seq<char>>) -> Seq<ValidationIssueView>
    decreases names.len(),
{
    if names.len() == 0 {
        Seq::empty()
    } else {
        way_issues(names.drop_last()) + error_if(
            !known_ways().contains(names.last()),
            "paradigm_strategies"@,
            "unknown paradigm '"@ + names.last() + "'"@,
        )
    }
}

/// What is amiss with a helping agent.
pub open spec fn agent_issues(agent: SubAgentConfigView) -> Seq<ValidationIssueView> {
    error_if(agent.name.len() == 0, "sub_agents"@, "a sub-agent has no name"@) + error_if(
        agent.system_prompt.len() == 0,
        "sub_agents"@,
        "sub-agent '"@ + agent.name + "' has no system prompt"@,
    ) + error_if(
        agent.available_tools.len() == 0,
        "sub_agents"@,
        "sub-agent '"@ + agent.name + "' has no tools"@,
    ) + error_if(
        !known_levels().contains(agent.permission_threshold),
        "sub_agents"@,
        "unknown permission threshold '"@ + agent.permission_threshold + "'"@,
    )
}

/// What is amiss with helping agents.
pub open spec fn agents_issues(agents: Seq<SubAgentConfigView>) -> Seq<ValidationIssueView>
    decreases agents.len(),
{
    if agents.len() == 0 {
        Seq::empty()
    } else {
        agents_issues(agents.drop_last()) + agent_issues(agents.last())
    }
}

/// What is amiss with a way of working.
pub open spec fn strategy_issues(strategy: ParadigmStrategyConfigView) -> Seq<ValidationIssueView> {
    error_if(
        strategy.trigger.len() == 0,
        "paradigm_strategies"@,
        "a strategy has no trigger"@,
    ) + error_if(
        strategy.sequence.len() == 0,
        "paradigm_strategies"@,
        "strategy '"@ + strategy.trigger + "' has no paradigms"@,
    ) + way_issues(strategy.sequence) + agents_issues(strategy.sub_agents)
}

/// What is amiss with the ways of working.
pub open spec fn strategies_issues(strategies: Seq<ParadigmStrategyConfigView>) -> Seq<
    ValidationIssueView,
>
    decreases strategies.len(),
{
    if strategies.len() == 0 {
        Seq::empty()
    } else {
        strategies_issues(strategies.drop_last()) + strategy_issues(strategies.last())
    }
}

/// Adds what is amiss with the names of ways.
fn add_way_issues(issues: &mut Vec<ValidationIssue>, names: &Vec<String>)
    ensures
        final(issues).deep_view() == old(issues).deep_view() + way_issues(names.deep_view()),
{
    let known = text::texts(["Plan", "ReAct", "Reflect", "Explore"]);
    assert(known.deep_view() =~= known_ways());
    let ghost before = issues.deep_view();
    let ghost all = names.deep_view();
    let mut i: usize = 0;
    assert(before + way_issues(all.take(0)) =~= before);
    while i < names.len()
        invariant
            i <= names.len(),
            all == names.deep_view(),
            known.deep_view() == known_ways(),
            issues.deep_view() == before + way_issues(all.take(i as int)),
        decreases names.len() - i,
    {
        assert(all.take(i + 1).drop_last() =~= all.take(i as int));
        assert(all[i as int] == names@[i as int]@);
        let unknown = !text::list_contains(&known, names[i].as_str());
        let message = enclosed("unknown paradigm '", names[i].as_str(), "'");
        add_if(issues, unknown, "paradigm_strategies", message.as_str());
        proof {
            let more = error_if(unknown, "paradigm_strategies"@, message@);
            assert(before + way_issues(all.take(i as int)) + more =~= before + (way_issues(
                all.take(i as int),
            ) + more));
        }
        i = i + 1;
    }
    assert(all.take(i as int) =~= all);
}

/// Adds what is amiss with a helping agent.
fn add_agent_issues(issues: &mut Vec<ValidationIssue>, agent: &SubAgentConfig)
    ensures
        final(issues).deep_view() == old(issues).deep_view() + agent_issues(agent.deep_view()),
{
    let ghost before = issues.deep_view();
    let levels = text::texts(["read", "standard", "admin"]);
    assert(levels.deep_view() =~= known_levels());
    let no_name = text::chars(agent.name.as_str()).len() == 0;
    let no_prompt = text::chars(agent.system_prompt.as_str()).len() == 0;
    let no_tools = agent.available_tools.len() == 0;
    let no_level = !text::list_contains(&levels, agent.permission_threshold.as_str());
    let prompt_message = enclosed("sub-agent '", agent.name.as_str(), "' has no system prompt");
    let tools_message = enclosed("sub-agent '", agent.name.as_str(), "' has no tools");
    let level_message = enclosed(
        "unknown permission threshold '",
        agent.permission_threshold.as_str(),
        "'",
    );
    add_if(issues, no_name, "sub_agents", "a sub-agent has no name");
    add_if(issues, no_prompt, "sub_agents", prompt_message.as_str());
    add_if(issues, no_tools, "sub_agents", tools_message.as_str());
    add_if(issues, no_level, "sub_agents", level_message.as_str());
    proof {
        let a = error_if(no_name, "sub_agents"@, "a sub-agent has no name"@);
        let b = error_if(no_prompt, "sub_agents"@, prompt_message@);
        let c = error_if(no_tools, "sub_agents"@, tools_message@);
        let d = error_if(no_level, "sub_agents"@, level_message@);
        assert(agent_issues(agent.deep_view()) == a + b + c + d);
        assert(before + a + b + c + d =~= before + (a + b + c + d));
    }
}

/// Adds what is amiss with a way of working.
fn add_strategy_issues(issues: &mut Vec<ValidationIssue>, strategy: &ParadigmStrategyConfig)
    ensures
        final(issues).deep_view() == old(issues).deep_view() + strategy_issues(
            strategy.deep_view(),
        ),
{
    let ghost before = issues.deep_view();
    let no_trigger = text::chars(strategy.trigger.as_str()).len() == 0;
    let no_ways = strategy.sequence.len() == 0;
    let ways_message = enclosed("strategy '", strategy.trigger.as_str(), "' has no paradigms");
    add_if(issues, no_trigger, "paradigm_strategies", "a strategy has no trigger");
    add_if(issues, no_ways, "paradigm_strategies", ways_message.as_str());
    add_way_issues(issues, &strategy.sequence);
    let ghost agents = strategy.sub_agents.deep_view();
    let ghost so_far = issues.deep_view();
    let mut i: usize = 0;
    assert(so_far + agents_issues(agents.take(0)) =~= so_far);
    while i < strategy.sub_agents.len()
        invariant
            i <= strategy.sub_agents.len(),
            agents == strategy.sub_agents.deep_view(),
            issues.deep_view() == so_far + agents_issues(agents.take(i as int)),
        decreases strategy.sub_agents.len() - i,
    {
        assert(agents.take(i + 1).drop_last() =~= agents.take(i as int));
        assert(agents[i as int] == strategy.sub_agents@[i as int].deep_view());
        add_agent_issues(issues, &strategy.sub_agents[i]);
        proof {
            let more = agent_issues(agents[i as int]);
            assert(so_far + agents_issues(agents.take(i as int)) + more =~= so_far + (
            agents_issues(agents.take(i as int)) + more));
        }
        i = i + 1;
    }
    proof {
        assert(agents.take(i as int) =~= agents);
        let a = error_if(no_trigger, "paradigm_strategies"@, "a strategy has no trigger"@);
        let b = error_if(no_ways, "paradigm_strategies"@, ways_message@);
        let c = way_issues(strategy.sequence.deep_view());
        let d = agents_issues(agents);
        assert(strategy_issues(strategy.deep_view()) == a + b + c + d);
        assert(before + a + b + c + d =~= before + (a + b + c + d));
    }
}

/// Adds what is amiss with the ways of working.
fn add_strategies_issues(
    issues: &mut Vec<ValidationIssue>,
    strategies: &Vec<ParadigmStrategyConfig>,
)
    ensures
        final(issues).deep_view() == old(issues).deep_view() + strategies_issues(
            strategies.deep_view(),
        ),
{
    let ghost before = issues.deep_view();
    let ghost all = strategies.deep_view();
    let mut i: usize = 0;
    assert(before + strategies_issues(all.take(0)) =~= before);
    while i < strategies.len()
        invariant
            i <= strategies.len(),
            all == strategies.deep_view(),
            issues.deep_view() == before + strategies_issues(all.take(i as int)),
        decreases strategies.len() - i,
    {
        assert(all.take(i + 1).drop_last() =~= all.take(i as int));
        assert(all[i as int] == strategies@[i as int].deep_view());
        add_strategy_issues(issues, &strategies[i]);
        proof {
            let more = strategy_issues(all[i as int]);
            assert(before + strategies_issues(all.take(i as int)) + more =~= before + (
            strategies_issues(all.take(i as int)) + more));
        }
        i = i + 1;
    }
    assert(all.take(i as int) =~= all);
}

// ─── Bounds ─────────────────────────────────────────────────────────────────

/// What is amiss with the bounds of memory: as many events stay as there are, or
/// skills are put away before they are stale.
pub open spec fn memory_issues(memory: MemoryProfileConfigView) -> Seq<ValidationIssueView> {
    error_if(
        memory.working_state.compaction_keep_recent
            >= memory.working_state.compaction_event_threshold,
        "working_state"@,
        "compaction_keep_recent must be less than compaction_event_threshold"@,
    ) + error_if(
        memory.skill_lifecycle.stale_after_secs >= memory.skill_lifecycle.archive_after_secs,
        "skill_lifecycle"@,
        "stale_after_secs must be less than archive_after_secs"@,
    )
}

/// Adds what is amiss with the bounds of memory.
fn add_memory_issues(issues: &mut Vec<ValidationIssue>, memory: &MemoryProfileConfig)
    ensures
        final(issues).deep_view() == old(issues).deep_view() + memory_issues(memory.deep_view()),
{
    let ghost before = issues.deep_view();
    let events = memory.working_state.compaction_keep_recent
        >= memory.working_state.compaction_event_threshold;
    let skills = memory.skill_lifecycle.stale_after_secs
        >= memory.skill_lifecycle.archive_after_secs;
    add_if(
        issues,
        events,
        "working_state",
        "compaction_keep_recent must be less than compaction_event_threshold",
    );
    add_if(
        issues,
        skills,
        "skill_lifecycle",
        "stale_after_secs must be less than archive_after_secs",
    );
    proof {
        let a = error_if(
            events,
            "working_state"@,
            "compaction_keep_recent must be less than compaction_event_threshold"@,
        );
        let b = error_if(
            skills,
            "skill_lifecycle"@,
            "stale_after_secs must be less than archive_after_secs"@,
        );
        assert(before + a + b =~= before + (a + b));
    }
}

// ─── Configurations ─────────────────────────────────────────────────────────

/// What is amiss with the name of a pack.
pub open spec fn pack_name_issues(name: Seq<char>) -> Seq<ValidationIssueView> {
    error_if(
        !well_named(name),
        "name"@,
        "must be 1 to 64 characters: a lower-case letter, then lower-case letters, digits, '_' or '-'"@,
    )
}

/// What is amiss with a configuration, field by field.
pub open spec fn issues_of(config: DomainPackConfigView) -> Seq<ValidationIssueView> {
    pack_name_issues(config.name) + name_issues(
        config.tools,
        domain_spec::known_tools(),
        "tools"@,
    ) + decorator_issues(config.tool_decorators) + name_issues(
        config.context_sources,
        domain_spec::known_sources(),
        "context_sources"@,
    ) + strategies_issues(config.paradigm_strategies) + memory_issues(config.memory_profile)
}

/// Holds configurations to their rules.
pub struct DomainPackValidator;

impl DomainPackValidator {
    /// What is amiss with a configuration.
    pub fn validate(config: &DomainPackConfig) -> (r: ValidationResult)
        ensures
            r.deep_view().issues == issues_of(config.deep_view()),
    {
        let mut issues: Vec<ValidationIssue> = Vec::new();
        let known_tools = DomainPackSpec::known_tool_names();
        let known_sources = DomainPackSpec::known_context_source_names();
        let ghost start = issues.deep_view();
        let badly_named = !is_well_named(config.name.as_str());
        add_if(
            &mut issues,
            badly_named,
            "name",
            "must be 1 to 64 characters: a lower-case letter, then lower-case letters, digits, '_' or '-'",
        );
        add_name_issues(&mut issues, &config.tools, &known_tools, "tools");
        add_decorator_issues(&mut issues, &config.tool_decorators);
        add_name_issues(&mut issues, &config.context_sources, &known_sources, "context_sources");
        add_strategies_issues(&mut issues, &config.paradigm_strategies);
        add_memory_issues(&mut issues, &config.memory_profile);
        assert(start + pack_name_issues(config.name@) =~= pack_name_issues(config.name@));
        ValidationResult { issues }
    }
}

// ─── Laws ───────────────────────────────────────────────────────────────────

proof fn lemma_no_name_issues(names: Seq<Seq<char>>, known: Seq<Seq<char>>, field: Seq<char>)
    requires
        name_issues(names, known, field).len() == 0,
    ensures
        forall|i: int| 0 <= i < names.len() ==> known.contains(#[trigger] names[i]),
        forall|i: int, j: int| 0 <= i < j < names.len() ==> names[i] != names[j],
    decreases names.len(),
{
    if names.len() > 0 {
        let front = names.drop_last();
        lemma_no_name_issues(front, known, field);
        assert forall|i: int| 0 <= i < names.len() implies known.contains(#[trigger] names[i]) by {
            if i < front.len() {
                assert(front[i] == names[i]);
            }
        }
        assert forall|i: int, j: int| 0 <= i < j < names.len() implies names[i] != names[j] by {
            assert(front[i] == names[i]);
            if j < front.len() {
                assert(front[j] == names[j]);
            }
        }
    }
}

/// Each of the issues is an error.
pub open spec fn all_errors(issues: Seq<ValidationIssueView>) -> bool {
    forall|i: int| 0 <= i < issues.len() ==> (#[trigger] issues[i]).severity == Severity::Error
}

proof fn lemma_name_errors(names: Seq<Seq<char>>, known: Seq<Seq<char>>, field: Seq<char>)
    ensures
        all_errors(name_issues(names, known, field)),
    decreases names.len(),
{
    if names.len() > 0 {
        lemma_name_errors(names.drop_last(), known, field);
    }
}

proof fn lemma_decorator_errors(entries: Seq<(Seq<char>, Seq<char>)>)
    ensures
        all_errors(decorator_issues(entries)),
    decreases entries.len(),
{
    if entries.len() > 0 {
        lemma_decorator_errors(entries.drop_last());
    }
}

proof fn lemma_way_errors(names: Seq<Seq<char>>)
    ensures
        all_errors(way_issues(names)),
    decreases names.len(),
{
    if names.len() > 0 {
        lemma_way_errors(names.drop_last());
    }
}

proof fn lemma_agents_errors(agents: Seq<SubAgentConfigView>)
    ensures
        all_errors(agents_issues(agents)),
    decreases agents.len(),
{
    if agents.len() > 0 {
        lemma_agents_errors(agents.drop_last());
        assert(all_errors(agent_issues(agents.last())));
    }
}

proof fn lemma_strategies_errors(strategies: Seq<ParadigmStrategyConfigView>)
    ensures
        all_errors(strategies_issues(strategies)),
    decreases strategies.len(),
{
    if strategies.len() > 0 {
        let last = strategies.last();
        lemma_strategies_errors(strategies.drop_last());
        lemma_way_errors(last.sequence);
        lemma_agents_errors(last.sub_agents);
        assert(all_errors(strategy_issues(last)));
    }
}

/// A configuration is valid where nothing is amiss with it: all that is found
/// amiss is an error.
pub proof fn law_valid_without_issues(config: DomainPackConfigView)
    ensures
        (ValidationResultView { issues: issues_of(config) }).valid() == (issues_of(config).len()
            == 0),
{
    lemma_name_errors(config.tools, domain_spec::known_tools(), "tools"@);
    lemma_decorator_errors(config.tool_decorators);
    lemma_name_errors(config.context_sources, domain_spec::known_sources(), "context_sources"@);
    lemma_strategies_errors(config.paradigm_strategies);
    let issues = issues_of(config);
    assert(all_errors(issues));
    if issues.len() > 0 {
        assert(issues[0].severity == Severity::Error);
    }
}

/// The pack of a valid configuration has every tool and every source that the
/// configuration names, and the bounds of its memory hold.
pub proof fn law_valid_config_is_built_whole(config: DomainPackConfigView, project_dir: Seq<char>)
    requires
        (ValidationResultView { issues: issues_of(config) }).valid(),
    ensures
        ({
            let pack = config_parser::resolved(config, project_dir);
            &&& pack.tools == domain_pack::host_tools(config.tools)
            &&& pack.context_sources.len() == config.context_sources.len()
            &&& pack.memory_profile.working_state.compaction.keep_recent
                < pack.memory_profile.working_state.compaction.event_threshold
            &&& pack.memory_profile.skill_lifecycle.stale_after
                < pack.memory_profile.skill_lifecycle.archive_after
        }),
{
    law_valid_without_issues(config);
    let tools = name_issues(config.tools, domain_spec::known_tools(), "tools"@);
    let sources = name_issues(
        config.context_sources,
        domain_spec::known_sources(),
        "context_sources"@,
    );
    assert(tools.len() == 0 && sources.len() == 0 && memory_issues(config.memory_profile).len()
        == 0);
    lemma_no_name_issues(config.tools, domain_spec::known_tools(), "tools"@);
    lemma_no_name_issues(config.context_sources, domain_spec::known_sources(), "context_sources"@);
    config_parser::law_known_tools_all_stay(config, project_dir);
    lemma_sources_all_stay(config.context_sources, project_dir);
}

proof fn lemma_sources_all_stay(names: Seq<Seq<char>>, project_dir: Seq<char>)
    requires
        forall|i: int|
            0 <= i < names.len() ==> domain_spec::known_sources().contains(#[trigger] names[i]),
    ensures
        config_parser::sources_named(names, project_dir).len() == names.len(),
    decreases names.len(),
{
    if names.len() > 0 {
        let front = names.drop_last();
        assert forall|i: int| 0 <= i < front.len() implies domain_spec::known_sources().contains(
            #[trigger] front[i],
        ) by {
            assert(front[i] == names[i]);
        }
        lemma_sources_all_stay(front, project_dir);
        assert(domain_spec::known_sources().contains(names[names.len() - 1]));
        config_parser::law_known_sources_resolve(names.last(), project_dir);
    }
}

/// A pack without a name is never valid.
pub proof fn law_nameless_pack_is_not_valid(config: DomainPackConfigView)
    requires
        config.name.len() == 0,
    ensures
        !(ValidationResultView { issues: issues_of(config) }).valid(),
{
    law_valid_without_issues(config);
}

/// A helping agent with which nothing is amiss.
pub open spec fn sound_agent(agent: SubAgentConfigView) -> bool {
    &&& agent.name.len() > 0
    &&& agent.system_prompt.len() > 0
    &&& agent.available_tools.len() > 0
    &&& agent.permission_threshold == "read"@ || agent.permission_threshold == "standard"@
        || agent.permission_threshold == "admin"@
}

/// The name of a way of working.
pub open spec fn names_a_way(name: Seq<char>) -> bool {
    name == "Plan"@ || name == "ReAct"@ || name == "Reflect"@ || name == "Explore"@
}

/// A way of working with which nothing is amiss.
pub open spec fn sound_strategy(strategy: ParadigmStrategyConfigView) -> bool {
    &&& strategy.trigger.len() > 0
    &&& strategy.sequence.len() > 0
    &&& forall|i: int| 0 <= i < strategy.sequence.len() ==> names_a_way(
        #[trigger] strategy.sequence[i]
    )
    &&& forall|i: int| 0 <= i < strategy.sub_agents.len() ==> sound_agent(
        #[trigger] strategy.sub_agents[i]
    )
}

/// The names are all known, and none stands twice.
pub open spec fn known_and_distinct(names: Seq<Seq<char>>, known: Seq<Seq<char>>) -> bool {
    &&& forall|i: int| 0 <= i < names.len() ==> known.contains(#[trigger] names[i])
    &&& forall|i: int, j: int| 0 <= i < j < names.len() ==> names[i] != names[j]
}

/// A configuration is valid exactly where its name has the form of one, its tools and
/// sources are known and stand there once, something is said of each tool of which it says
/// anything, its ways of working and their agents are complete, and the bounds of its
/// memory agree.
pub proof fn law_valid_exactly_when(config: DomainPackConfigView)
    ensures
        (ValidationResultView { issues: issues_of(config) }).valid() <==> {
            &&& 0 < config.name.len() <= 64
            &&& 'a' <= config.name[0] && config.name[0] <= 'z'
            &&& forall|i: int|
                0 <= i < config.name.len() ==> ({
                    let c = #[trigger] config.name[i];
                    'a' <= c && c <= 'z' || '0' <= c && c <= '9' || c == '_' || c == '-'
                })
            &&& known_and_distinct(config.tools, domain_spec::known_tools())
            &&& forall|i: int|
                0 <= i < config.tool_decorators.len() ==> (
                    #[trigger] config.tool_decorators[i]
                ).1.len()
                    > 0
            &&& known_and_distinct(config.context_sources, domain_spec::known_sources())
            &&& forall|i: int|
                0 <= i < config.paradigm_strategies.len() ==> sound_strategy(
                    #[trigger] config.paradigm_strategies[i],
                )
            &&& config.memory_profile.working_state.compaction_keep_recent
                < config.memory_profile.working_state.compaction_event_threshold
            &&& config.memory_profile.skill_lifecycle.stale_after_secs
                < config.memory_profile.skill_lifecycle.archive_after_secs
        },
{
    law_valid_without_issues(config);
    let tools = name_issues(config.tools, domain_spec::known_tools(), "tools"@);
    let decorators = decorator_issues(config.tool_decorators);
    let sources = name_issues(
        config.context_sources,
        domain_spec::known_sources(),
        "context_sources"@,
    );
    let strategies = strategies_issues(config.paradigm_strategies);
    lemma_name_issues_tell(config.tools, domain_spec::known_tools(), "tools"@);
    lemma_decorator_issues_tell(config.tool_decorators);
    lemma_name_issues_tell(
        config.context_sources,
        domain_spec::known_sources(),
        "context_sources"@,
    );
    lemma_strategies_issues_tell(config.paradigm_strategies);
    assert(issues_of(config).len() == pack_name_issues(config.name).len() + tools.len()
        + decorators.len() + sources.len() + strategies.len() + memory_issues(
        config.memory_profile,
    ).len());
    if well_named(config.name) {
        assert forall|i: int| 0 <= i < config.name.len() implies ({
            let c = #[trigger] config.name[i];
            'a' <= c && c <= 'z' || '0' <= c && c <= '9' || c == '_' || c == '-'
        }) by {
            assert(name_character(config.name[i]));
        }
    }
}

/// What is amiss with a list of names is said of each name that is not known, and of each
/// that stands there for the second time.
pub proof fn law_each_bad_name_is_told(
    names: Seq<Seq<char>>,
    known: Seq<Seq<char>>,
    field: Seq<char>,
    i: int,
)
    requires
        0 <= i < names.len(),
    ensures
        !known.contains(names[i]) ==> name_issues(names, known, field).contains(
            error_in(field, "unknown name '"@ + names[i] + "'"@),
        ),
        names.take(i).contains(names[i]) ==> name_issues(names, known, field).contains(
            error_in(field, "name '"@ + names[i] + "' stands twice"@),
        ),
    decreases names.len(),
{
    let front = names.drop_last();
    let before = name_issues(front, known, field);
    let now = name_issues(names, known, field);
    assert(before.is_prefix_of(now)) by {
        assert(now.take(before.len() as int) =~= before);
    }
    if i < front.len() {
        law_each_bad_name_is_told(front, known, field, i);
        assert(front[i] == names[i]);
        assert(front.take(i) =~= names.take(i));
        let one = error_in(field, "unknown name '"@ + names[i] + "'"@);
        let two = error_in(field, "name '"@ + names[i] + "' stands twice"@);
        if before.contains(one) {
            let k = choose|k: int| 0 <= k < before.len() && before[k] == one;
            assert(now[k] == one);
        }
        if before.contains(two) {
            let k = choose|k: int| 0 <= k < before.len() && before[k] == two;
            assert(now[k] == two);
        }
    } else {
        assert(names.take(i) =~= front);
        if !known.contains(names[i]) {
            assert(now[before.len() as int] == error_in(
                field,
                "unknown name '"@ + names[i] + "'"@,
            ));
        }
        if front.contains(names[i]) {
            assert(now[now.len() - 1] == error_in(
                field,
                "name '"@ + names[i] + "' stands twice"@,
            ));
        }
    }
}

/// What is said of an issue names the field and what is amiss with it.
pub proof fn law_issue_is_told(issue: ValidationIssueView)
    ensures
        text::in_order(issue_line(issue), seq![issue.field, issue.message]),
        issue.field.is_prefix_of(issue_line(issue)),
{
    let none = Seq::<char>::empty();
    let line = issue_line(issue);
    assert(line.take(issue.field.len() as int) =~= issue.field);
    assert(text::in_order(none, Seq::empty()));
    text::lemma_in_order_piece(none, Seq::empty(), issue.field);
    let one = Seq::<Seq<char>>::empty().push(issue.field);
    text::lemma_in_order_before(none + issue.field, one, ": "@);
    text::lemma_in_order_piece(none + issue.field + ": "@, one, issue.message);
    assert(none + issue.field + ": "@ + issue.message =~= line);
    assert(one.push(issue.message) =~= seq![issue.field, issue.message]);
}

proof fn lemma_name_issues_tell(names: Seq<Seq<char>>, known: Seq<Seq<char>>, field: Seq<char>)
    ensures
        name_issues(names, known, field).len() == 0 <==> known_and_distinct(names, known),
    decreases names.len(),
{
    if name_issues(names, known, field).len() == 0 {
        lemma_no_name_issues(names, known, field);
    }
    if names.len() > 0 && known_and_distinct(names, known) {
        let front = names.drop_last();
        assert(known_and_distinct(front, known)) by {
            assert forall|i: int| 0 <= i < front.len() implies known.contains(
                #[trigger] front[i],
            ) by {
                assert(front[i] == names[i]);
            }
        }
        lemma_name_issues_tell(front, known, field);
        assert(known.contains(names[names.len() - 1]));
        if front.contains(names.last()) {
            let i = choose|i: int| 0 <= i < front.len() && front[i] == names.last();
            assert(names[i] == names[names.len() - 1]);
        }
    }
}

proof fn lemma_decorator_issues_tell(entries: Seq<(Seq<char>, Seq<char>)>)
    ensures
        decorator_issues(entries).len() == 0 <==> forall|i: int|
            0 <= i < entries.len() ==> (#[trigger] entries[i]).1.len() > 0,
    decreases entries.len(),
{
    if entries.len() > 0 {
        let front = entries.drop_last();
        lemma_decorator_issues_tell(front);
        assert forall|i: int| 0 <= i < front.len() implies #[trigger] front[i] == entries[i] by {}
        assert(entries[entries.len() - 1] == entries.last());
        if decorator_issues(entries).len() == 0 {
            assert forall|i: int| 0 <= i < entries.len() implies (#[trigger] entries[i]).1.len()
                > 0 by {
                if i < front.len() {
                    assert(front[i] == entries[i]);
                }
            }
        }
    }
}

proof fn lemma_way_issues_tell(names: Seq<Seq<char>>)
    ensures
        way_issues(names).len() == 0 <==> forall|i: int|
            0 <= i < names.len() ==> names_a_way(#[trigger] names[i]),
    decreases names.len(),
{
    if names.len() > 0 {
        let front = names.drop_last();
        lemma_way_issues_tell(front);
        let ways = known_ways();
        assert(ways[0] == "Plan"@ && ways[1] == "ReAct"@ && ways[2] == "Reflect"@ && ways[3]
            == "Explore"@);
        assert(ways.contains(names.last()) <==> names_a_way(names.last()));
        assert forall|i: int| 0 <= i < front.len() implies #[trigger] front[i] == names[i] by {}
        assert(names[names.len() - 1] == names.last());
        if way_issues(names).len() == 0 {
            assert forall|i: int| 0 <= i < names.len() implies names_a_way(#[trigger] names[i]) by {
                if i < front.len() {
                    assert(front[i] == names[i]);
                }
            }
        }
    }
}

proof fn lemma_agents_issues_tell(agents: Seq<SubAgentConfigView>)
    ensures
        agents_issues(agents).len() == 0 <==> forall|i: int|
            0 <= i < agents.len() ==> sound_agent(#[trigger] agents[i]),
    decreases agents.len(),
{
    if agents.len() > 0 {
        let front = agents.drop_last();
        let last = agents.last();
        lemma_agents_issues_tell(front);
        let levels = known_levels();
        assert(levels[0] == "read"@ && levels[1] == "standard"@ && levels[2] == "admin"@);
        assert(levels.contains(last.permission_threshold) <==> last.permission_threshold
            == "read"@ || last.permission_threshold == "standard"@ || last.permission_threshold
            == "admin"@);
        assert(agent_issues(last).len() == 0 <==> sound_agent(last));
        assert forall|i: int| 0 <= i < front.len() implies #[trigger] front[i] == agents[i] by {}
        assert(agents[agents.len() - 1] == last);
        if agents_issues(agents).len() == 0 {
            assert forall|i: int| 0 <= i < agents.len() implies sound_agent(
                #[trigger] agents[i],
            ) by {
                if i < front.len() {
                    assert(front[i] == agents[i]);
                }
            }
        }
    }
}

proof fn lemma_strategies_issues_tell(strategies: Seq<ParadigmStrategyConfigView>)
    ensures
        strategies_issues(strategies).len() == 0 <==> forall|i: int|
            0 <= i < strategies.len() ==> sound_strategy(#[trigger] strategies[i]),
    decreases strategies.len(),
{
    if strategies.len() > 0 {
        let front = strategies.drop_last();
        let last = strategies.last();
        lemma_strategies_issues_tell(front);
        lemma_way_issues_tell(last.sequence);
        lemma_agents_issues_tell(last.sub_agents);
        assert(strategy_issues(last).len() == 0 <==> sound_strategy(last));
        assert forall|i: int| 0 <= i < front.len() implies #[trigger] front[i]
            == strategies[i] by {}
        assert(strategies[strategies.len() - 1] == last);
        if strategies_issues(strategies).len() == 0 {
            assert forall|i: int| 0 <= i < strategies.len() implies sound_strategy(
                #[trigger] strategies[i],
            ) by {
                if i < front.len() {
                    assert(front[i] == strategies[i]);
                }
            }
        }
    }
}

} // verus!
