//! Which tool calls run, which are refused, and which the user is asked about.
//!
//! A profile decides in this order: a deny pattern refuses the call; a name in
//! `auto_approve` runs; a name in `require_confirmation` is asked about; an
//! override or else the default threshold gives the level to go by.
//!
//! Profiles are merged by the rule that the strictest wins.

use vstd::prelude::*;
use crate::collections::{self, NameSet, Table};
use crate::data;
use crate::duplicate::Duplicate;
use crate::patterns;
use crate::text;
use crate::types::{ApprovalPolicy, PermissionAction, PermissionActionView, PermissionLevel};

verus! {

// ─── DenyPattern ────────────────────────────────────────────────────────────

/// A pattern of tool calls that are always refused.
#[derive(Debug, PartialEq)]
pub struct DenyPattern {
    /// The name of the tool, or a regular expression that is found in it.
    pub tool_pattern: String,
    /// A regular expression that must be found in the arguments, where there is
    /// one.
    pub arg_pattern: Option<String>,
    /// What the user and the model are told.
    pub reason: String,
}

/// The contents of a [`DenyPattern`].
#[verifier::ext_equal]
pub struct DenyPatternView {
    pub tool_pattern: Seq<char>,
    pub arg_pattern: Option<Seq<char>>,
    pub reason: Seq<char>,
}

impl DeepView for DenyPattern {
    type V = DenyPatternView;

    open spec fn deep_view(&self) -> DenyPatternView {
        DenyPatternView {
            tool_pattern: self.tool_pattern.deep_view(),
            arg_pattern: self.arg_pattern.deep_view(),
            reason: self.reason.deep_view(),
        }
    }
}

impl Duplicate for DenyPattern {
    fn duplicate(&self) -> (copy: Self) {
        DenyPattern {
            tool_pattern: self.tool_pattern.duplicate(),
            arg_pattern: self.arg_pattern.duplicate(),
            reason: self.reason.duplicate(),
        }
    }
}

impl Clone for DenyPattern {
    fn clone(&self) -> (copy: Self)
        ensures
            copy.deep_view() == self.deep_view(),
    {
        self.duplicate()
    }
}

/// The pattern refuses a call of `tool`, where `name_found` says whether its
/// tool pattern is found in the name and `args_found` whether its argument
/// pattern is found in the arguments.
pub open spec fn refuses(
    pattern: DenyPatternView,
    tool: Seq<char>,
    name_found: Option<bool>,
    args_found: Option<bool>,
) -> bool {
    &&& pattern.tool_pattern == tool || name_found == Some(true)
    &&& pattern.arg_pattern is None || args_found == Some(true)
}

/// The pattern refuses a call of `tool` with arguments of this JSON text.
pub open spec fn refuses_call(pattern: DenyPatternView, tool: Seq<char>, args: Seq<char>) -> bool {
    refuses(
        pattern,
        tool,
        patterns::pattern_found(pattern.tool_pattern, tool),
        match pattern.arg_pattern {
            Some(expression) => patterns::pattern_found(expression, args),
            None => None,
        },
    )
}

impl DenyPattern {
    /// Refuses every call of a tool.
    pub fn deny_tool(tool_name: &str, reason: &str) -> (r: Self)
        ensures
            r.deep_view() == (DenyPatternView {
                tool_pattern: tool_name@,
                arg_pattern: None,
                reason: reason@,
            }),
    {
        DenyPattern {
            tool_pattern: tool_name.to_string(),
            arg_pattern: None,
            reason: reason.to_string(),
        }
    }

    /// Refuses the calls of a tool with certain arguments.
    pub fn deny_tool_args(tool_name: &str, arg_pattern: &str, reason: &str) -> (r: Self)
        ensures
            r.deep_view() == (DenyPatternView {
                tool_pattern: tool_name@,
                arg_pattern: Some(arg_pattern@),
                reason: reason@,
            }),
    {
        DenyPattern {
            tool_pattern: tool_name.to_string(),
            arg_pattern: Some(arg_pattern.to_string()),
            reason: reason.to_string(),
        }
    }

    /// Whether this pattern refuses a call of `tool_name`, given whether its
    /// expressions were found.
    pub fn matches_found(
        &self,
        tool_name: &str,
        name_found: Option<bool>,
        args_found: Option<bool>,
    ) -> (r: bool)
        ensures
            r == refuses(self.deep_view(), tool_name@, name_found, args_found),
    {
        let tool_matches = text::same(self.tool_pattern.as_str(), tool_name) || match name_found {
            Some(found) => found,
            None => false,
        };
        let args_match = match self.arg_pattern {
            Some(_) => match args_found {
                Some(found) => found,
                None => false,
            },
            None => true,
        };
        tool_matches && args_match
    }

    /// Whether this pattern refuses a call of `tool_name` with these arguments.
    pub fn matches(&self, tool_name: &str, args: &serde_json::Value) -> (r: bool)
        ensures
            r == refuses_call(self.deep_view(), tool_name@, data::written(*args)),
    {
        let name_found = patterns::search(self.tool_pattern.as_str(), tool_name);
        let args_found = match &self.arg_pattern {
            Some(expression) => {
                let args_text = data::value_text(args);
                patterns::search(expression.as_str(), args_text.as_str())
            },
            None => None,
        };
        self.matches_found(tool_name, name_found, args_found)
    }
}

// ─── ExecPolicy ─────────────────────────────────────────────────────────────

/// What a rule decides about a command.
#[derive(Debug, Clone, Copy, PartialEq, Eq, Structural)]
pub enum ExecDecision {
    Allow,
    Deny,
}

impl DeepView for ExecDecision {
    type V = ExecDecision;

    open spec fn deep_view(&self) -> ExecDecision {
        *self
    }
}

impl Duplicate for ExecDecision {
    fn duplicate(&self) -> (copy: Self) {
        *self
    }
}

/// A token of the pattern of a rule.
#[derive(Debug, PartialEq)]
pub enum PatternToken {
    /// This token.
    Single(String),
}

/// The contents of a [`PatternToken`].
#[verifier::ext_equal]
pub enum PatternTokenView {
    Single(Seq<char>),
}

impl DeepView for PatternToken {
    type V = PatternTokenView;

    open spec fn deep_view(&self) -> PatternTokenView {
        match self {
            PatternToken::Single(value) => PatternTokenView::Single(value.deep_view()),
        }
    }
}

impl Duplicate for PatternToken {
    fn duplicate(&self) -> (copy: Self) {
        match self {
            PatternToken::Single(value) => PatternToken::Single(value.duplicate()),
        }
    }
}

impl Clone for PatternToken {
    fn clone(&self) -> (copy: Self)
        ensures
            copy.deep_view() == self.deep_view(),
    {
        self.duplicate()
    }
}

/// A rule about the commands that begin with certain tokens.
#[derive(Debug, PartialEq)]
pub struct ExecRule {
    /// The tokens that a command must begin with.
    pub pattern: Vec<PatternToken>,
    /// What is decided about it.
    pub decision: ExecDecision,
    /// Why.
    pub justification: Option<String>,
    /// Commands that the rule is about.
    pub match_examples: Vec<String>,
    /// Commands that it is not about.
    pub not_match_examples: Vec<String>,
}

/// The contents of a [`ExecRule`].
#[verifier::ext_equal]
pub struct ExecRuleView {
    pub pattern: Seq<PatternTokenView>,
    pub decision: ExecDecision,
    pub justification: Option<Seq<char>>,
    pub match_examples: Seq<Seq<char>>,
    pub not_match_examples: Seq<Seq<char>>,
}

impl DeepView for ExecRule {
    type V = ExecRuleView;

    open spec fn deep_view(&self) -> ExecRuleView {
        ExecRuleView {
            pattern: self.pattern.deep_view(),
            decision: self.decision,
            justification: self.justification.deep_view(),
            match_examples: self.match_examples.deep_view(),
            not_match_examples: self.not_match_examples.deep_view(),
        }
    }
}

impl Duplicate for ExecRule {
    fn duplicate(&self) -> (copy: Self) {
        ExecRule {
            pattern: self.pattern.duplicate(),
            decision: self.decision,
            justification: self.justification.duplicate(),
            match_examples: self.match_examples.duplicate(),
            not_match_examples: self.not_match_examples.duplicate(),
        }
    }
}

impl Clone for ExecRule {
    fn clone(&self) -> (copy: Self)
        ensures
            copy.deep_view() == self.deep_view(),
    {
        self.duplicate()
    }
}

/// Rules about commands.
#[derive(Debug, PartialEq)]
pub struct ExecPolicy {
    rules: Vec<ExecRule>,
}

/// The contents of a [`ExecPolicy`].
#[verifier::ext_equal]
pub struct ExecPolicyView {
    pub rules: Seq<ExecRuleView>,
}

impl DeepView for ExecPolicy {
    type V = ExecPolicyView;

    closed spec fn deep_view(&self) -> ExecPolicyView {
        ExecPolicyView {
            rules: self.rules.deep_view(),
        }
    }
}

impl Duplicate for ExecPolicy {
    fn duplicate(&self) -> (copy: Self) {
        ExecPolicy {
            rules: self.rules.duplicate(),
        }
    }
}

impl Clone for ExecPolicy {
    fn clone(&self) -> (copy: Self)
        ensures
            copy.deep_view() == self.deep_view(),
    {
        self.duplicate()
    }
}

/// What is decided about a command.
#[derive(Debug, PartialEq)]
pub enum Verdict {
    /// It may run.
    Allow { reason: Option<String> },
    /// It may not run.
    Deny { reason: Option<String> },
}

/// The contents of a [`Verdict`].
#[verifier::ext_equal]
pub enum VerdictView {
    Allow { reason: Option<Seq<char>> },
    Deny { reason: Option<Seq<char>> },
}

impl DeepView for Verdict {
    type V = VerdictView;

    open spec fn deep_view(&self) -> VerdictView {
        match self {
            Verdict::Allow { reason } => VerdictView::Allow { reason: reason.deep_view() },
            Verdict::Deny { reason } => VerdictView::Deny { reason: reason.deep_view() },
        }
    }
}

impl Duplicate for Verdict {
    fn duplicate(&self) -> (copy: Self) {
        match self {
            Verdict::Allow { reason } => Verdict::Allow { reason: reason.duplicate() },
            Verdict::Deny { reason } => Verdict::Deny { reason: reason.duplicate() },
        }
    }
}

impl Clone for Verdict {
    fn clone(&self) -> (copy: Self)
        ensures
            copy.deep_view() == self.deep_view(),
    {
        self.duplicate()
    }
}

/// The command begins with the tokens of the rule.
pub open spec fn rule_applies(rule: ExecRuleView, tokens: Seq<Seq<char>>) -> bool {
    &&& rule.pattern.len() <= tokens.len()
    &&& forall|i: int|
        0 <= i < rule.pattern.len() ==> (#[trigger] rule.pattern[i])
            == PatternTokenView::Single(tokens[i])
}

/// What a rule decides.
pub open spec fn rule_verdict(rule: ExecRuleView) -> VerdictView {
    match rule.decision {
        ExecDecision::Allow => VerdictView::Allow { reason: rule.justification },
        ExecDecision::Deny => VerdictView::Deny { reason: rule.justification },
    }
}

/// What the rules decide about a command: the first of those that apply and
/// deny, or else the first that applies.
pub open spec fn verdict_of(rules: Seq<ExecRuleView>, tokens: Seq<Seq<char>>) -> Option<VerdictView>
    decreases rules.len(),
{
    if rules.len() == 0 {
        None
    } else {
        let before = verdict_of(rules.drop_last(), tokens);
        let rule = rules.last();
        if !rule_applies(rule, tokens) {
            before
        } else {
            match before {
                None => Some(rule_verdict(rule)),
                Some(VerdictView::Deny { .. }) => before,
                Some(VerdictView::Allow { .. }) => if rule.decision == ExecDecision::Deny {
                    Some(rule_verdict(rule))
                } else {
                    before
                },
            }
        }
    }
}

impl ExecRule {
    /// Whether the command begins with the tokens of this rule.
    pub fn applies(&self, tokens: &Vec<String>) -> (r: bool)
        ensures
            r == rule_applies(self.deep_view(), tokens.deep_view()),
    {
        if self.pattern.len() > tokens.len() {
            return false;
        }
        let mut i: usize = 0;
        while i < self.pattern.len()
            invariant
                i <= self.pattern.len() <= tokens.len(),
                forall|k: int|
                    0 <= k < i ==> (#[trigger] self.deep_view().pattern[k])
                        == PatternTokenView::Single(tokens.deep_view()[k]),
            decreases self.pattern.len() - i,
        {
            match &self.pattern[i] {
                PatternToken::Single(token) => {
                    assert(self.deep_view().pattern[i as int] == PatternTokenView::Single(token@));
                    if *token != tokens[i] {
                        return false;
                    }
                },
            }
            i = i + 1;
        }
        true
    }
}

impl ExecPolicy {
    /// The rules.
    pub closed spec fn spec_rules(&self) -> Seq<ExecRuleView> {
        self.rules.deep_view()
    }

    /// The policy with these rules.
    pub fn from_rules(rules: Vec<ExecRule>) -> (r: Self)
        ensures
            r.spec_rules() == rules.deep_view(),
            r.deep_view() == (ExecPolicyView { rules: rules.deep_view() }),
    {
        ExecPolicy { rules }
    }

    /// The rules.
    pub fn rules(&self) -> (r: &Vec<ExecRule>)
        ensures
            r.deep_view() == self.spec_rules(),
            self.deep_view() == (ExecPolicyView { rules: r.deep_view() }),
    {
        &self.rules
    }

    /// The number of rules.
    pub fn rule_count(&self) -> (n: usize)
        ensures
            n == self.spec_rules().len(),
    {
        self.rules.len()
    }

    /// What the rules decide about a command: nothing where none applies.
    pub fn evaluate(&self, tokens: &Vec<String>) -> (r: Option<Verdict>)
        ensures
            r.deep_view() == verdict_of(self.spec_rules(), tokens.deep_view()),
    {
        let ghost all = self.rules.deep_view();
        let mut verdict: Option<Verdict> = None;
        let mut i: usize = 0;
        while i < self.rules.len()
            invariant
                i <= self.rules.len(),
                all == self.rules.deep_view(),
                verdict.deep_view() == verdict_of(all.take(i as int), tokens.deep_view()),
            decreases self.rules.len() - i,
        {
            assert(all.take(i + 1).drop_last() =~= all.take(i as int));
            assert(all[i as int] == self.rules@[i as int].deep_view());
            if self.rules[i].applies(tokens) {
                let reason = self.rules[i].justification.duplicate();
                let denies = match self.rules[i].decision {
                    ExecDecision::Deny => true,
                    ExecDecision::Allow => false,
                };
                let replace = match &verdict {
                    None => true,
                    Some(Verdict::Deny { .. }) => false,
                    Some(Verdict::Allow { .. }) => denies,
                };
                if replace {
                    verdict =
                    if denies {
                        Some(Verdict::Deny { reason })
                    } else {
                        Some(Verdict::Allow { reason })
                    };
                }
            }
            i = i + 1;
        }
        assert(all.take(i as int) =~= all);
        verdict
    }
}

// ─── PermissionProfile ──────────────────────────────────────────────────────

/// The permissions of a domain.
#[derive(Debug, PartialEq)]
pub struct PermissionProfile {
    /// What users call it.
    pub name: String,
    /// Tools that run without asking.
    pub auto_approve: NameSet,
    /// Tools that the user is asked about.
    pub require_confirmation: NameSet,
    /// Calls that are always refused.
    pub deny_by_default: Vec<DenyPattern>,
    /// Levels of tools that differ from their own.
    pub permission_overrides: Table<PermissionLevel>,
    /// The level of all other tools.
    pub default_threshold: PermissionLevel,
    /// When the user is asked about a command.
    pub approval_policy: ApprovalPolicy,
    /// Directories in which commands are trusted.
    pub trusted_dirs: Vec<String>,
    /// Rules about commands, where there are any.
    pub exec_policy: Option<ExecPolicy>,
}

/// The contents of a [`PermissionProfile`].
#[verifier::ext_equal]
pub struct PermissionProfileView {
    pub name: Seq<char>,
    pub auto_approve: Seq<Seq<char>>,
    pub require_confirmation: Seq<Seq<char>>,
    pub deny_by_default: Seq<DenyPatternView>,
    pub permission_overrides: Seq<(Seq<char>, PermissionLevel)>,
    pub default_threshold: PermissionLevel,
    pub approval_policy: ApprovalPolicy,
    pub trusted_dirs: Seq<Seq<char>>,
    pub exec_policy: Option<ExecPolicyView>,
}

impl DeepView for PermissionProfile {
    type V = PermissionProfileView;

    open spec fn deep_view(&self) -> PermissionProfileView {
        PermissionProfileView {
            name: self.name.deep_view(),
            auto_approve: self.auto_approve.deep_view(),
            require_confirmation: self.require_confirmation.deep_view(),
            deny_by_default: self.deny_by_default.deep_view(),
            permission_overrides: self.permission_overrides.deep_view(),
            default_threshold: self.default_threshold,
            approval_policy: self.approval_policy,
            trusted_dirs: self.trusted_dirs.deep_view(),
            exec_policy: self.exec_policy.deep_view(),
        }
    }
}

impl Duplicate for PermissionProfile {
    fn duplicate(&self) -> (copy: Self) {
        PermissionProfile {
            name: self.name.duplicate(),
            auto_approve: self.auto_approve.duplicate(),
            require_confirmation: self.require_confirmation.duplicate(),
            deny_by_default: self.deny_by_default.duplicate(),
            permission_overrides: self.permission_overrides.duplicate(),
            default_threshold: self.default_threshold,
            approval_policy: self.approval_policy,
            trusted_dirs: self.trusted_dirs.duplicate(),
            exec_policy: self.exec_policy.duplicate(),
        }
    }
}

impl Clone for PermissionProfile {
    fn clone(&self) -> (copy: Self)
        ensures
            copy.deep_view() == self.deep_view(),
    {
        self.duplicate()
    }
}

/// The profile without rules.
pub open spec fn bare_profile(name: Seq<char>) -> PermissionProfileView {
    PermissionProfileView {
        name,
        auto_approve: Seq::empty(),
        require_confirmation: Seq::empty(),
        deny_by_default: Seq::empty(),
        permission_overrides: Seq::empty(),
        default_threshold: PermissionLevel::Standard,
        approval_policy: ApprovalPolicy::OnFailure,
        trusted_dirs: Seq::empty(),
        exec_policy: None,
    }
}

/// The reason of the first pattern that refuses the call, where `refused` says
/// of each pattern whether it does.
pub open spec fn first_reason(patterns: Seq<DenyPatternView>, refused: Seq<bool>) -> Option<
    Seq<char>,
>
    decreases patterns.len(),
{
    if patterns.len() == 0 {
        None
    } else if refused[0] {
        Some(patterns[0].reason)
    } else {
        first_reason(patterns.drop_first(), refused.drop_first())
    }
}

/// What the profile says of a call of `tool`, where `refused` says of each deny
/// pattern whether it refuses the call.
pub open spec fn decision_with(
    profile: PermissionProfileView,
    tool: Seq<char>,
    refused: Seq<bool>,
) -> PermissionActionView {
    match first_reason(profile.deny_by_default, refused) {
        Some(reason) => PermissionActionView::Deny { reason },
        None => if profile.auto_approve.contains(tool) {
            PermissionActionView::AutoApprove
        } else if profile.require_confirmation.contains(tool) {
            PermissionActionView::RequireConfirmation
        } else {
            match collections::lookup(profile.permission_overrides, tool) {
                Some(level) => PermissionActionView::UseDefaultPermission { level },
                None => PermissionActionView::UseDefaultPermission {
                    level: profile.default_threshold,
                },
            }
        },
    }
}

/// Of each pattern, whether it refuses the call.
pub open spec fn refusals(
    patterns: Seq<DenyPatternView>,
    tool: Seq<char>,
    args: Seq<char>,
) -> Seq<bool> {
    Seq::new(patterns.len(), |i: int| refuses_call(patterns[i], tool, args))
}

/// What the profile says of a call of `tool` with arguments of this JSON text.
pub open spec fn decision(
    profile: PermissionProfileView,
    tool: Seq<char>,
    args: Seq<char>,
) -> PermissionActionView {
    decision_with(profile, tool, refusals(profile.deny_by_default, tool, args))
}

impl PermissionProfile {
    /// A profile without rules.
    pub fn new(name: String) -> (r: Self)
        ensures
            r.deep_view() == bare_profile(name@),
    {
        PermissionProfile {
            name,
            auto_approve: NameSet::new(),
            require_confirmation: NameSet::new(),
            deny_by_default: Vec::new(),
            permission_overrides: Table::new(),
            default_threshold: PermissionLevel::Standard,
            approval_policy: ApprovalPolicy::OnFailure,
            trusted_dirs: Vec::new(),
            exec_policy: None,
        }
    }

    /// What this profile says of a call of `tool_name`, given for each deny
    /// pattern whether it refuses the call.
    pub fn resolve_refused(&self, tool_name: &str, refused: &Vec<bool>) -> (r: PermissionAction)
        requires
            refused@.len() == self.deny_by_default@.len(),
        ensures
            r.deep_view() == decision_with(self.deep_view(), tool_name@, refused@),
    {
        let ghost all = self.deny_by_default.deep_view();
        let mut i: usize = 0;
        proof {
            assert(all.skip(0) =~= all);
            assert(refused@.skip(0) =~= refused@);
        }
        while i < self.deny_by_default.len()
            invariant
                i <= self.deny_by_default.len() == refused.len(),
                all == self.deny_by_default.deep_view(),
                first_reason(all, refused@) == first_reason(
                    all.skip(i as int),
                    refused@.skip(i as int),
                ),
            decreases self.deny_by_default.len() - i,
        {
            assert(all.skip(i as int)[0] == all[i as int]);
            assert(all[i as int] == self.deny_by_default@[i as int].deep_view());
            assert(refused@.skip(i as int)[0] == refused@[i as int]);
            if refused[i] {
                return PermissionAction::Deny { reason: self.deny_by_default[i].reason.clone() };
            }
            assert(all.skip(i as int).drop_first() =~= all.skip(i + 1));
            assert(refused@.skip(i as int).drop_first() =~= refused@.skip(i + 1));
            i = i + 1;
        }
        if self.auto_approve.contains(tool_name) {
            return PermissionAction::AutoApprove;
        }
        if self.require_confirmation.contains(tool_name) {
            return PermissionAction::RequireConfirmation;
        }
        match self.permission_overrides.get(tool_name) {
            Some(level) => PermissionAction::UseDefaultPermission { level: *level },
            None => PermissionAction::UseDefaultPermission { level: self.default_threshold },
        }
    }

    /// What this profile says of a call of `tool_name` with these arguments.
    pub fn resolve(&self, tool_name: &str, args: &serde_json::Value) -> (r: PermissionAction)
        ensures
            r.deep_view() == decision(self.deep_view(), tool_name@, data::written(*args)),
    {
        let mut refused: Vec<bool> = Vec::new();
        let ghost expected = refusals(
            self.deny_by_default.deep_view(),
            tool_name@,
            data::written(*args),
        );
        let mut i: usize = 0;
        while i < self.deny_by_default.len()
            invariant
                i <= self.deny_by_default.len(),
                expected == refusals(
                    self.deny_by_default.deep_view(),
                    tool_name@,
                    data::written(*args),
                ),
                refused@ == expected.take(i as int),
            decreases self.deny_by_default.len() - i,
        {
            let refuses = self.deny_by_default[i].matches(tool_name, args);
            refused.push(refuses);
            i = i + 1;
            assert(refused@ =~= expected.take(i as int));
        }
        assert(expected.take(i as int) =~= expected);
        self.resolve_refused(tool_name, &refused)
    }
}

impl Default for PermissionProfile {
    fn default() -> (r: Self)
        ensures
            r.deep_view() == bare_profile("default"@),
    {
        PermissionProfile::new("default".to_string())
    }
}

// ─── Merging ────────────────────────────────────────────────────────────────

/// The higher of two levels.
pub open spec fn stricter(a: PermissionLevel, b: PermissionLevel) -> PermissionLevel {
    if a.rank() < b.rank() {
        b
    } else {
        a
    }
}

/// How often a policy asks, relative to the others.
pub open spec fn policy_rank(policy: ApprovalPolicy) -> int {
    match policy {
        ApprovalPolicy::OnRequest => 3,
        ApprovalPolicy::OnUntrustedDir => 2,
        ApprovalPolicy::OnFailure => 1,
        ApprovalPolicy::Never => 0,
    }
}

/// The policy that asks more often.
pub open spec fn stricter_of_policies(a: ApprovalPolicy, b: ApprovalPolicy) -> ApprovalPolicy {
    if policy_rank(b) > policy_rank(a) {
        b
    } else {
        a
    }
}

/// The overrides of both profiles: where both have one for a tool, the stricter.
pub open spec fn merged_overrides(
    a: Seq<(Seq<char>, PermissionLevel)>,
    b: Seq<(Seq<char>, PermissionLevel)>,
) -> Seq<(Seq<char>, PermissionLevel)>
    decreases b.len(),
{
    if b.len() == 0 {
        a
    } else {
        let before = merged_overrides(a, b.drop_last());
        let (tool, level) = b.last();
        collections::entered(
            before,
            tool,
            match collections::lookup(before, tool) {
                Some(other) => stricter(other, level),
                None => level,
            },
        )
    }
}

/// The rules of both policies.
pub open spec fn merged_policies(a: Option<ExecPolicyView>, b: Option<ExecPolicyView>) -> Option<
    ExecPolicyView,
> {
    match (a, b) {
        (None, None) => None,
        (Some(policy), None) => Some(policy),
        (None, Some(policy)) => Some(policy),
        (Some(a), Some(b)) => Some(ExecPolicyView { rules: a.rules + b.rules }),
    }
}

/// The directories of `a` that are also in `b`, by their components.
pub open spec fn common_paths(a: Seq<Seq<char>>, b: Seq<Seq<char>>) -> Seq<Seq<char>> {
    a.filter(|path: Seq<char>| text::holds_path(b, path))
}

/// The profile of two domains together.
pub open spec fn merged_profile(
    a: PermissionProfileView,
    b: PermissionProfileView,
) -> PermissionProfileView {
    PermissionProfileView {
        name: a.name + "_"@ + b.name + "_merged"@,
        auto_approve: collections::common_names(a.auto_approve, b.auto_approve),
        require_confirmation: collections::all_names(
            a.require_confirmation,
            b.require_confirmation,
        ),
        deny_by_default: a.deny_by_default + b.deny_by_default,
        permission_overrides: merged_overrides(a.permission_overrides, b.permission_overrides),
        default_threshold: stricter(a.default_threshold, b.default_threshold),
        approval_policy: stricter_of_policies(a.approval_policy, b.approval_policy),
        trusted_dirs: common_paths(a.trusted_dirs, b.trusted_dirs),
        exec_policy: merged_policies(a.exec_policy, b.exec_policy),
    }
}

/// The higher of two levels.
pub fn stricter_level(a: PermissionLevel, b: PermissionLevel) -> (r: PermissionLevel)
    ensures
        r == stricter(a, b),
{
    match (a, b) {
        (PermissionLevel::Full, _) => PermissionLevel::Full,
        (_, PermissionLevel::Full) => PermissionLevel::Full,
        (PermissionLevel::Standard, _) => PermissionLevel::Standard,
        (_, PermissionLevel::Standard) => PermissionLevel::Standard,
        (PermissionLevel::Read, PermissionLevel::Read) => PermissionLevel::Read,
    }
}

/// How often a policy asks, relative to the others.
fn rank_of_policy(policy: ApprovalPolicy) -> (r: u8)
    ensures
        r == policy_rank(policy),
{
    match policy {
        ApprovalPolicy::OnRequest => 3,
        ApprovalPolicy::OnUntrustedDir => 2,
        ApprovalPolicy::OnFailure => 1,
        ApprovalPolicy::Never => 0,
    }
}

/// The policy that asks more often.
pub fn stricter_policy(a: ApprovalPolicy, b: ApprovalPolicy) -> (r: ApprovalPolicy)
    ensures
        r == stricter_of_policies(a, b),
{
    if rank_of_policy(b) > rank_of_policy(a) {
        b
    } else {
        a
    }
}

/// The overrides of both tables: where both have one for a tool, the stricter.
fn merge_overrides(a: &Table<PermissionLevel>, b: &Table<PermissionLevel>) -> (r: Table<
    PermissionLevel,
>)
    ensures
        r.deep_view() == merged_overrides(a.deep_view(), b.deep_view()),
{
    let ghost all = b.deep_view();
    let mut r = a.duplicate();
    let mut i: usize = 0;
    while i < b.len()
        invariant
            i <= all.len(),
            all == b.deep_view(),
            r.deep_view() == merged_overrides(a.deep_view(), all.take(i as int)),
        decreases all.len() - i,
    {
        assert(all.take(i + 1).drop_last() =~= all.take(i as int));
        let tool = b.key_at(i);
        let level = *b.value_at(i);
        let merged = match r.get(tool) {
            Some(other) => stricter_level(*other, level),
            None => level,
        };
        r.insert(tool.to_string(), merged);
        i = i + 1;
    }
    assert(all.take(i as int) =~= all);
    r
}

/// The directories of `a` that are also in `b`, by their components.
fn common_dirs(a: &Vec<String>, b: &Vec<String>) -> (r: Vec<String>)
    ensures
        r.deep_view() == common_paths(a.deep_view(), b.deep_view()),
{
    let ghost all = a.deep_view();
    let ghost keep = |path: Seq<char>| text::holds_path(b.deep_view(), path);
    let mut r: Vec<String> = Vec::new();
    let mut i: usize = 0;
    proof {
        reveal(Seq::filter);
        assert(all.take(0).filter(keep) =~= r.deep_view());
    }
    while i < a.len()
        invariant
            i <= a.len(),
            all == a.deep_view(),
            keep == (|path: Seq<char>| text::holds_path(b.deep_view(), path)),
            r.deep_view() == all.take(i as int).filter(keep),
        decreases a.len() - i,
    {
        let ghost before = r.deep_view();
        proof {
            reveal(Seq::filter);
            assert(all.take(i + 1).drop_last() =~= all.take(i as int));
        }
        if text::list_holds_path(b, a[i].as_str()) {
            r.push(a[i].clone());
            assert(r.deep_view() =~= before.push(all[i as int]));
        }
        i = i + 1;
    }
    assert(all.take(i as int) =~= all);
    r
}

/// The items of `a`, followed by those of `b`.
fn appended<T: Duplicate>(a: &Vec<T>, b: &Vec<T>) -> (r: Vec<T>)
    ensures
        r.deep_view() == a.deep_view() + b.deep_view(),
{
    let mut r = a.duplicate();
    let mut rest = b.duplicate();
    let ghost front = r.deep_view();
    let ghost back = rest.deep_view();
    r.append(&mut rest);
    assert(r.deep_view() =~= front + back);
    r
}

impl PermissionProfile {
    /// The profile of two domains together, in which the strictest wins.
    ///
    /// A tool runs without asking where both say so, and is asked about where
    /// either does; the calls that either refuses are refused; of two levels
    /// for a tool the higher is taken; a directory is trusted where both trust
    /// it; and the rules about commands are those of both.
    pub fn merge_strictest(a: &Self, b: &Self) -> (r: Self)
        ensures
            r.deep_view() == merged_profile(a.deep_view(), b.deep_view()),
    {
        let mut name = a.name.clone();
        name.push_str("_");
        name.push_str(b.name.as_str());
        name.push_str("_merged");
        let exec_policy = match (&a.exec_policy, &b.exec_policy) {
            (None, None) => None,
            (Some(policy), None) => Some(policy.duplicate()),
            (None, Some(policy)) => Some(policy.duplicate()),
            (Some(a_policy), Some(b_policy)) => {
                Some(ExecPolicy::from_rules(appended(a_policy.rules(), b_policy.rules())))
            },
        };
        PermissionProfile {
            name,
            auto_approve: a.auto_approve.intersection(&b.auto_approve),
            require_confirmation: a.require_confirmation.union(&b.require_confirmation),
            deny_by_default: appended(&a.deny_by_default, &b.deny_by_default),
            permission_overrides: merge_overrides(
                &a.permission_overrides,
                &b.permission_overrides,
            ),
            default_threshold: stricter_level(a.default_threshold, b.default_threshold),
            approval_policy: stricter_policy(a.approval_policy, b.approval_policy),
            trusted_dirs: common_dirs(&a.trusted_dirs, &b.trusted_dirs),
            exec_policy,
        }
    }
}

// ─── Laws ───────────────────────────────────────────────────────────────────

/// There is a reason where some pattern refuses.
proof fn lemma_some_reason(patterns: Seq<DenyPatternView>, refused: Seq<bool>)
    requires
        patterns.len() == refused.len(),
    ensures
        first_reason(patterns, refused) is Some <==> refused.contains(true),
    decreases patterns.len(),
{
    if patterns.len() > 0 {
        lemma_some_reason(patterns.drop_first(), refused.drop_first());
        if refused.contains(true) && !refused[0] {
            let i = choose|i: int| 0 <= i < refused.len() && refused[i];
            assert(refused.drop_first()[i - 1]);
        }
        if refused.drop_first().contains(true) {
            let i = choose|i: int| 0 <= i < refused.len() - 1 && refused.drop_first()[i];
            assert(refused[i + 1]);
        }
    }
}

/// A call is refused where a deny pattern matches it, whatever else the profile says,
/// and only there.
pub proof fn law_deny_patterns_win(
    profile: PermissionProfileView,
    tool: Seq<char>,
    args: Seq<char>,
)
    ensures
        decision(profile, tool, args) is Deny <==> exists|i: int|
            0 <= i < profile.deny_by_default.len() && refuses_call(
                #[trigger] profile.deny_by_default[i],
                tool,
                args,
            ),
{
    let refused = refusals(profile.deny_by_default, tool, args);
    lemma_some_reason(profile.deny_by_default, refused);
    if exists|i: int|
        0 <= i < profile.deny_by_default.len() && refuses_call(
            #[trigger] profile.deny_by_default[i],
            tool,
            args,
        ) {
        let i = choose|i: int|
            0 <= i < profile.deny_by_default.len() && refuses_call(
                #[trigger] profile.deny_by_default[i],
                tool,
                args,
            );
        assert(refused[i]);
    }
    if refused.contains(true) {
        let i = choose|i: int| 0 <= i < refused.len() && refused[i];
        assert(refuses_call(profile.deny_by_default[i], tool, args));
    }
}

/// Of two lists of patterns the first that holds a pattern that refuses gives
/// the reason.
proof fn lemma_first_reason_add(
    a: Seq<DenyPatternView>,
    b: Seq<DenyPatternView>,
    refused_a: Seq<bool>,
    refused_b: Seq<bool>,
)
    requires
        a.len() == refused_a.len(),
        b.len() == refused_b.len(),
    ensures
        first_reason(a + b, refused_a + refused_b) == (match first_reason(a, refused_a) {
            Some(reason) => Some(reason),
            None => first_reason(b, refused_b),
        }),
    decreases a.len(),
{
    if a.len() == 0 {
        assert(a + b =~= b);
        assert(refused_a + refused_b =~= refused_b);
    } else {
        assert((a + b)[0] == a[0]);
        assert((refused_a + refused_b)[0] == refused_a[0]);
        assert((a + b).drop_first() =~= a.drop_first() + b);
        assert((refused_a + refused_b).drop_first() =~= refused_a.drop_first() + refused_b);
        lemma_first_reason_add(a.drop_first(), b, refused_a.drop_first(), refused_b);
    }
}

/// A deny pattern is found in a merged profile as in the two it was made of.
proof fn lemma_merged_refusals(
    a: PermissionProfileView,
    b: PermissionProfileView,
    tool: Seq<char>,
    args: Seq<char>,
)
    ensures
        first_reason(
            merged_profile(a, b).deny_by_default,
            refusals(merged_profile(a, b).deny_by_default, tool, args),
        ) == (match first_reason(a.deny_by_default, refusals(a.deny_by_default, tool, args)) {
            Some(reason) => Some(reason),
            None => first_reason(b.deny_by_default, refusals(b.deny_by_default, tool, args)),
        }),
{
    let refused_a = refusals(a.deny_by_default, tool, args);
    let refused_b = refusals(b.deny_by_default, tool, args);
    assert(refusals(a.deny_by_default + b.deny_by_default, tool, args) =~= refused_a + refused_b);
    lemma_first_reason_add(a.deny_by_default, b.deny_by_default, refused_a, refused_b);
}

/// The value found under a key, when the last entry is looked at first.
proof fn lemma_lookup_last<V>(entries: Seq<(Seq<char>, V)>, key: Seq<char>)
    requires
        entries.len() > 0,
        collections::distinct_keys(entries),
    ensures
        collections::distinct_keys(entries.drop_last()),
        collections::lookup(entries, key) == (if entries.last().0 == key {
            Some(entries.last().1)
        } else {
            collections::lookup(entries.drop_last(), key)
        }),
    decreases entries.len(),
{
    let front = entries.drop_last();
    assert forall|i: int, j: int| 0 <= i < j < front.len() implies #[trigger] front[i].0
        != #[trigger] front[j].0 by {
        assert(entries[i].0 != entries[j].0);
    }
    if entries.len() > 1 {
        let rest = entries.drop_first();
        assert forall|i: int, j: int| 0 <= i < j < rest.len() implies #[trigger] rest[i].0
            != #[trigger] rest[j].0 by {
            assert(entries[i + 1].0 != entries[j + 1].0);
        }
        lemma_lookup_last(rest, key);
        assert(rest.drop_last() =~= front.drop_first());
        assert(entries[0].0 != entries[entries.len() - 1].0);
    } else {
        assert(entries.drop_first() =~= Seq::<(Seq<char>, V)>::empty());
        assert(front =~= Seq::<(Seq<char>, V)>::empty());
    }
}

/// Where both profiles override the level of a tool, the stricter override
/// holds in the merged profile; where one does, that one holds.
pub proof fn law_merged_override(
    a: Seq<(Seq<char>, PermissionLevel)>,
    b: Seq<(Seq<char>, PermissionLevel)>,
    tool: Seq<char>,
)
    requires
        collections::distinct_keys(b),
    ensures
        collections::lookup(merged_overrides(a, b), tool) == (match (
            collections::lookup(a, tool),
            collections::lookup(b, tool),
        ) {
            (Some(of_a), Some(of_b)) => Some(stricter(of_a, of_b)),
            (Some(of_a), None) => Some(of_a),
            (None, of_b) => of_b,
        }),
    decreases b.len(),
{
    if b.len() > 0 {
        let front = b.drop_last();
        lemma_lookup_last(b, tool);
        lemma_lookup_last(b, b.last().0);
        law_merged_override(a, front, tool);
        law_merged_override(a, front, b.last().0);
        let before = merged_overrides(a, front);
        let level = match collections::lookup(before, b.last().0) {
            Some(other) => stricter(other, b.last().1),
            None => b.last().1,
        };
        collections::law_lookup_after_insert(before, b.last().0, level, tool);
        lemma_absent(front, b.last().0, b);
    }
}

/// The last key stands nowhere before.
proof fn lemma_absent<V>(front: Seq<(Seq<char>, V)>, key: Seq<char>, all: Seq<(Seq<char>, V)>)
    requires
        collections::distinct_keys(all),
        all.len() > 0,
        front == all.drop_last(),
        key == all.last().0,
    ensures
        collections::lookup(front, key) is None,
{
    assert forall|i: int| 0 <= i < front.len() implies (#[trigger] front[i]).0 != key by {
        assert(all[i].0 != all[all.len() - 1].0);
    }
    lemma_no_key(front, key);
}

proof fn lemma_no_key<V>(entries: Seq<(Seq<char>, V)>, key: Seq<char>)
    requires
        forall|i: int| 0 <= i < entries.len() ==> (#[trigger] entries[i]).0 != key,
    ensures
        collections::lookup(entries, key) is None,
    decreases entries.len(),
{
    if entries.len() > 0 {
        let rest = entries.drop_first();
        assert forall|i: int| 0 <= i < rest.len() implies (#[trigger] rest[i]).0 != key by {
            assert(rest[i] == entries[i + 1]);
        }
        lemma_no_key(rest, key);
    }
}

/// A merged profile is as strict as the stricter of the two it was made of.
///
/// What either refuses is refused. What either asks about is refused or asked
/// about. What runs without asking does so in both. And where both leave a tool
/// to its level, by an override of each or of neither, it gets the higher one.
pub proof fn law_merge_is_strictest(
    a: PermissionProfileView,
    b: PermissionProfileView,
    tool: Seq<char>,
    args: Seq<char>,
)
    requires
        collections::distinct_keys(b.permission_overrides),
    ensures
        ({
            let of_a = decision(a, tool, args);
            let of_b = decision(b, tool, args);
            let merged = decision(merged_profile(a, b), tool, args);
            &&& merged is Deny <==> of_a is Deny || of_b is Deny
            &&& of_a is RequireConfirmation || of_b is RequireConfirmation ==> merged is Deny
                || merged is RequireConfirmation
            &&& merged is AutoApprove ==> of_a is AutoApprove && of_b is AutoApprove
            &&& collections::lookup(a.permission_overrides, tool) is Some
                == collections::lookup(b.permission_overrides, tool) is Some ==> (of_a matches
                PermissionActionView::UseDefaultPermission { level: of_a_level } ==> (of_b matches
                PermissionActionView::UseDefaultPermission { level: of_b_level } ==> merged
                == (PermissionActionView::UseDefaultPermission {
                level: stricter(of_a_level, of_b_level),
            })))
        }),
{
    lemma_merged_refusals(a, b, tool, args);
    law_merged_override(a.permission_overrides, b.permission_overrides, tool);
    collections::lemma_common_names(a.auto_approve, b.auto_approve, tool);
    collections::lemma_all_names(a.require_confirmation, b.require_confirmation, tool);
}

/// It does not matter in which order two profiles are merged, but for the
/// reason that a refusal gives.
pub proof fn law_merge_order(
    a: PermissionProfileView,
    b: PermissionProfileView,
    tool: Seq<char>,
    args: Seq<char>,
)
    requires
        collections::distinct_keys(a.permission_overrides),
        collections::distinct_keys(b.permission_overrides),
    ensures
        ({
            let one = decision(merged_profile(a, b), tool, args);
            let other = decision(merged_profile(b, a), tool, args);
            &&& one is Deny == other is Deny
            &&& one !is Deny ==> one == other
        }),
{
    lemma_merged_refusals(a, b, tool, args);
    lemma_merged_refusals(b, a, tool, args);
    law_merged_override(a.permission_overrides, b.permission_overrides, tool);
    law_merged_override(b.permission_overrides, a.permission_overrides, tool);
    collections::lemma_common_names(a.auto_approve, b.auto_approve, tool);
    collections::lemma_common_names(b.auto_approve, a.auto_approve, tool);
    collections::lemma_all_names(a.require_confirmation, b.require_confirmation, tool);
    collections::lemma_all_names(b.require_confirmation, a.require_confirmation, tool);
}

/// A profile merged with itself decides as it did alone.
pub proof fn law_merge_with_itself(a: PermissionProfileView, tool: Seq<char>, args: Seq<char>)
    requires
        collections::distinct_keys(a.permission_overrides),
    ensures
        decision(merged_profile(a, a), tool, args) == decision(a, tool, args),
{
    lemma_merged_refusals(a, a, tool, args);
    law_merged_override(a.permission_overrides, a.permission_overrides, tool);
    collections::lemma_common_names(a.auto_approve, a.auto_approve, tool);
    collections::lemma_all_names(a.require_confirmation, a.require_confirmation, tool);
}

/// A rule that denies wins over every rule that allows.
pub proof fn law_deny_wins(rules: Seq<ExecRuleView>, tokens: Seq<Seq<char>>)
    ensures
        verdict_of(rules, tokens) is Some <==> exists|i: int|
            0 <= i < rules.len() && rule_applies(#[trigger] rules[i], tokens),
        verdict_of(rules, tokens) matches Some(VerdictView::Deny { .. }) <==> exists|i: int|
            0 <= i < rules.len() && rule_applies(#[trigger] rules[i], tokens) && rules[i].decision
                == ExecDecision::Deny,
    decreases rules.len(),
{
    if rules.len() > 0 {
        let front = rules.drop_last();
        law_deny_wins(front, tokens);
        assert forall|i: int| 0 <= i < front.len() implies #[trigger] front[i] == rules[i] by {}
        if exists|i: int| 0 <= i < rules.len() && rule_applies(#[trigger] rules[i], tokens) {
            let i = choose|i: int|
                0 <= i < rules.len() && rule_applies(#[trigger] rules[i], tokens);
            if i < front.len() {
                assert(rule_applies(front[i], tokens));
            }
        }
        if exists|i: int|
            0 <= i < rules.len() && rule_applies(#[trigger] rules[i], tokens) && rules[i].decision
                == ExecDecision::Deny {
            let i = choose|i: int|
                0 <= i < rules.len() && rule_applies(#[trigger] rules[i], tokens)
                    && rules[i].decision == ExecDecision::Deny;
            if i < front.len() {
                assert(rule_applies(front[i], tokens) && front[i].decision == ExecDecision::Deny);
            }
        }
        if exists|i: int| 0 <= i < front.len() && rule_applies(#[trigger] front[i], tokens) {
            let i = choose|i: int|
                0 <= i < front.len() && rule_applies(#[trigger] front[i], tokens);
            assert(rule_applies(rules[i], tokens));
        }
        if exists|i: int|
            0 <= i < front.len() && rule_applies(#[trigger] front[i], tokens) && front[i].decision
                == ExecDecision::Deny {
            let i = choose|i: int|
                0 <= i < front.len() && rule_applies(#[trigger] front[i], tokens)
                    && front[i].decision == ExecDecision::Deny;
            assert(rule_applies(rules[i], tokens) && rules[i].decision == ExecDecision::Deny);
        }
        let last = rules[rules.len() - 1];
        assert(last == rules.last());
    }
}

/// A command that the rules of either policy deny is denied by the rules of
/// both.
pub proof fn law_merged_policies_deny(
    a: Seq<ExecRuleView>,
    b: Seq<ExecRuleView>,
    tokens: Seq<Seq<char>>,
)
    ensures
        verdict_of(a + b, tokens) matches Some(VerdictView::Deny { .. }) <==> verdict_of(
            a,
            tokens,
        ) matches Some(VerdictView::Deny { .. }) || verdict_of(b, tokens) matches Some(
            VerdictView::Deny { .. },
        ),
{
    law_deny_wins(a, tokens);
    law_deny_wins(b, tokens);
    law_deny_wins(a + b, tokens);
    let both = a + b;
    assert forall|i: int| 0 <= i < a.len() implies #[trigger] a[i] == both[i] by {}
    assert forall|i: int| 0 <= i < b.len() implies #[trigger] b[i] == both[a.len() + i] by {}
    assert forall|i: int| a.len() <= i < both.len() implies #[trigger] both[i] == b[i
        - a.len()] by {}
}

/// A directory is trusted after a merge exactly where both profiles trust it.
pub proof fn law_merge_trusts_what_both_trust(
    a: PermissionProfileView,
    b: PermissionProfileView,
    path: Seq<char>,
)
    ensures
        text::holds_path(merged_profile(a, b).trusted_dirs, path) == (text::holds_path(
            a.trusted_dirs,
            path,
        ) && text::holds_path(b.trusted_dirs, path)),
{
    let keep = |path: Seq<char>| text::holds_path(b.trusted_dirs, path);
    let merged = merged_profile(a, b).trusted_dirs;
    let wanted = text::path_components(path);
    if text::holds_path(merged, path) {
        let i = choose|i: int|
            0 <= i < merged.len() && text::path_components(#[trigger] merged[i]) == wanted;
        assert(merged.contains(merged[i]));
        collections::lemma_filter_item(a.trusted_dirs, keep, merged[i]);
        let k = choose|k: int| 0 <= k < a.trusted_dirs.len() && a.trusted_dirs[k] == merged[i];
        assert(text::path_components(a.trusted_dirs[k]) == wanted);
    }
    if text::holds_path(a.trusted_dirs, path) && text::holds_path(b.trusted_dirs, path) {
        let i = choose|i: int|
            0 <= i < a.trusted_dirs.len() && text::path_components(#[trigger] a.trusted_dirs[i])
                == wanted;
        collections::lemma_filter_item(a.trusted_dirs, keep, a.trusted_dirs[i]);
        assert(merged.contains(a.trusted_dirs[i]));
        let k = choose|k: int| 0 <= k < merged.len() && merged[k] == a.trusted_dirs[i];
        assert(text::path_components(merged[k]) == wanted);
    }
}

/// A pattern refuses the calls of the tools that it names or whose names hold its
/// expression: all of them, or those whose arguments hold the expression for these.
pub proof fn law_what_a_pattern_refuses(
    pattern: DenyPatternView,
    tool: Seq<char>,
    args: Seq<char>,
)
    ensures
        pattern.tool_pattern == tool && pattern.arg_pattern is None ==> refuses_call(
            pattern,
            tool,
            args,
        ),
        patterns::pattern_found(pattern.tool_pattern, tool) == Some(true)
            && pattern.arg_pattern is None ==> refuses_call(pattern, tool, args),
        pattern.arg_pattern matches Some(expression) ==> (refuses_call(pattern, tool, args)
            ==> patterns::pattern_found(expression, args) == Some(true)),
        pattern.arg_pattern matches Some(expression) ==> (patterns::pattern_found(
            expression,
            args,
        ) == Some(true) && pattern.tool_pattern == tool ==> refuses_call(pattern, tool, args)),
        pattern.arg_pattern matches Some(expression) ==> (patterns::pattern_found(
            expression,
            args,
        ) == Some(true) && patterns::pattern_found(pattern.tool_pattern, tool) == Some(true)
            ==> refuses_call(pattern, tool, args)),
        refuses_call(pattern, tool, args) ==> pattern.tool_pattern == tool
            || patterns::pattern_found(pattern.tool_pattern, tool) == Some(true),
{
}

proof fn lemma_first_reason_at(patterns: Seq<DenyPatternView>, refused: Seq<bool>, i: int)
    requires
        patterns.len() == refused.len(),
        0 <= i < refused.len(),
        refused[i],
        forall|k: int| 0 <= k < i ==> !#[trigger] refused[k],
    ensures
        first_reason(patterns, refused) == Some(patterns[i].reason),
    decreases patterns.len(),
{
    if i > 0 {
        let rest = refused.drop_first();
        assert(!refused[0]);
        assert forall|k: int| 0 <= k < i - 1 implies !#[trigger] rest[k] by {
            assert(!refused[k + 1]);
        }
        lemma_first_reason_at(patterns.drop_first(), rest, i - 1);
    }
}

/// What is decided of a call, given for each deny pattern whether it refuses the call:
/// the first pattern that does gives the reason; where none does, a tool on the list
/// of those that run without asking runs, one on the other list is asked about, and
/// any other goes by the level of its override, or else by that of the profile.
pub proof fn law_decision_goes_by_the_profile(
    profile: PermissionProfileView,
    tool: Seq<char>,
    refused: Seq<bool>,
    i: int,
)
    requires
        refused.len() == profile.deny_by_default.len(),
    ensures
        0 <= i < refused.len() && refused[i] && (forall|k: int|
            0 <= k < i ==> !#[trigger] refused[k]) ==> decision_with(profile, tool, refused)
            == (PermissionActionView::Deny { reason: profile.deny_by_default[i].reason }),
        !refused.contains(true) ==> {
            let decided = decision_with(profile, tool, refused);
            let listed = profile.auto_approve.contains(tool);
            let asked = profile.require_confirmation.contains(tool);
            &&& listed <==> decided is AutoApprove
            &&& !listed && asked <==> decided is RequireConfirmation
            &&& !listed && !asked <==> decided is UseDefaultPermission
            &&& !listed && !asked ==> (collections::lookup(
                profile.permission_overrides,
                tool,
            ) matches Some(own) ==> decided == (PermissionActionView::UseDefaultPermission {
                level: own,
            }))
            &&& !listed && !asked && collections::lookup(profile.permission_overrides, tool) is None
                ==> decided == (PermissionActionView::UseDefaultPermission {
                level: profile.default_threshold,
            })
        },
{
    lemma_some_reason(profile.deny_by_default, refused);
    if 0 <= i < refused.len() && refused[i] && (forall|k: int|
        0 <= k < i ==> !#[trigger] refused[k]) {
        lemma_first_reason_at(profile.deny_by_default, refused, i);
    }
}

/// What is decided of a call with arguments of this JSON text: the first pattern that
/// refuses it gives the reason; where none does, a tool on the list of those that run
/// without asking runs, one on the other list is asked about, and any other goes by
/// the level of its override, or else by that of the profile.
pub proof fn law_call_goes_by_the_profile(
    profile: PermissionProfileView,
    tool: Seq<char>,
    args: Seq<char>,
)
    ensures
        forall|i: int|
            0 <= i < profile.deny_by_default.len() && refuses_call(
                #[trigger] profile.deny_by_default[i],
                tool,
                args,
            ) && (forall|k: int|
                0 <= k < i ==> !refuses_call(#[trigger] profile.deny_by_default[k], tool, args))
                ==> decision(profile, tool, args) == (PermissionActionView::Deny {
                reason: profile.deny_by_default[i].reason,
            }),
        (forall|i: int|
            0 <= i < profile.deny_by_default.len() ==> !refuses_call(
                #[trigger] profile.deny_by_default[i],
                tool,
                args,
            )) ==> {
            let decided = decision(profile, tool, args);
            let listed = profile.auto_approve.contains(tool);
            let asked = profile.require_confirmation.contains(tool);
            &&& listed <==> decided is AutoApprove
            &&& !listed && asked <==> decided is RequireConfirmation
            &&& !listed && !asked <==> decided is UseDefaultPermission
            &&& !listed && !asked ==> (collections::lookup(
                profile.permission_overrides,
                tool,
            ) matches Some(own) ==> decided == (PermissionActionView::UseDefaultPermission {
                level: own,
            }))
            &&& !listed && !asked && collections::lookup(profile.permission_overrides, tool) is None
                ==> decided == (PermissionActionView::UseDefaultPermission {
                level: profile.default_threshold,
            })
        },
{
    let patterns = profile.deny_by_default;
    let refused = refusals(patterns, tool, args);
    law_decision_goes_by_the_profile(profile, tool, refused, 0);
    assert forall|i: int|
        0 <= i < patterns.len() && refuses_call(#[trigger] patterns[i], tool, args) && (forall|
            k: int,
        |
            0 <= k < i ==> !refuses_call(#[trigger] patterns[k], tool, args)) implies decision(
        profile,
        tool,
        args,
    ) == (PermissionActionView::Deny { reason: patterns[i].reason }) by {
        assert(refused[i]);
        assert forall|k: int| 0 <= k < i implies !#[trigger] refused[k] by {
            assert(!refuses_call(patterns[k], tool, args));
        }
        law_decision_goes_by_the_profile(profile, tool, refused, i);
    }
    if forall|i: int|
        0 <= i < patterns.len() ==> !refuses_call(#[trigger] patterns[i], tool, args) {
        assert(!refused.contains(true)) by {
            if refused.contains(true) {
                let i = choose|i: int| 0 <= i < refused.len() && refused[i];
                assert(refuses_call(patterns[i], tool, args));
            }
        }
    }
}

/// Of two levels the stricter is one of them and at least as high as both; and a level
/// is higher than another where it lets more run.
pub proof fn law_stricter_level(a: PermissionLevel, b: PermissionLevel)
    ensures
        stricter(a, b) == a || stricter(a, b) == b,
        a.auto_approved(stricter(a, b)) && b.auto_approved(stricter(a, b)),
        stricter(a, PermissionLevel::Full) == PermissionLevel::Full,
        stricter(PermissionLevel::Full, a) == PermissionLevel::Full,
        stricter(PermissionLevel::Standard, PermissionLevel::Read) == PermissionLevel::Standard,
        stricter(PermissionLevel::Read, PermissionLevel::Standard) == PermissionLevel::Standard,
        stricter(a, a) == a,
{
}

/// Of two policies the one that asks more often is taken: on request before in a
/// directory that is not trusted, that before on failure, and never last.
pub proof fn law_stricter_policy(a: ApprovalPolicy, b: ApprovalPolicy)
    ensures
        stricter_of_policies(a, b) == a || stricter_of_policies(a, b) == b,
        stricter_of_policies(a, b) == stricter_of_policies(b, a),
        a == ApprovalPolicy::OnRequest ==> stricter_of_policies(a, b) == ApprovalPolicy::OnRequest,
        a == ApprovalPolicy::OnUntrustedDir && b != ApprovalPolicy::OnRequest
            ==> stricter_of_policies(a, b) == ApprovalPolicy::OnUntrustedDir,
        a == ApprovalPolicy::OnFailure && b == ApprovalPolicy::Never ==> stricter_of_policies(a, b)
            == ApprovalPolicy::OnFailure,
        stricter_of_policies(a, a) == a,
{
}

/// What a merged profile takes from the two: a tool runs without asking where both say
/// so and is asked about where either does; every deny pattern stays, those of the
/// first before those of the second; the level and the policy are the stricter ones; and
/// the rules about commands are those of the first, followed by those of the second.
pub proof fn law_merged_profile_takes(
    a: PermissionProfileView,
    b: PermissionProfileView,
    tool: Seq<char>,
)
    ensures
        ({
            let merged = merged_profile(a, b);
            &&& merged.auto_approve.contains(tool) == (a.auto_approve.contains(tool)
                && b.auto_approve.contains(tool))
            &&& merged.require_confirmation.contains(tool) == (a.require_confirmation.contains(tool)
                || b.require_confirmation.contains(tool))
            &&& a.deny_by_default.is_prefix_of(merged.deny_by_default)
            &&& b.deny_by_default.is_suffix_of(merged.deny_by_default)
            &&& merged.deny_by_default.len() == a.deny_by_default.len() + b.deny_by_default.len()
            &&& a.default_threshold.auto_approved(merged.default_threshold)
            &&& b.default_threshold.auto_approved(merged.default_threshold)
            &&& merged.default_threshold == a.default_threshold || merged.default_threshold
                == b.default_threshold
            &&& merged.approval_policy == stricter_of_policies(a.approval_policy, b.approval_policy)
            &&& text::occurs(merged.name, a.name)
            &&& text::occurs(merged.name, b.name)
            &&& merged.exec_policy is None <==> a.exec_policy is None && b.exec_policy is None
            &&& a.exec_policy is None ==> merged.exec_policy == b.exec_policy
            &&& b.exec_policy is None ==> merged.exec_policy == a.exec_policy
            &&& a.exec_policy matches Some(of_a) ==> (b.exec_policy matches Some(of_b) ==> {
                let rules = merged.exec_policy->Some_0.rules;
                &&& of_a.rules.is_prefix_of(rules)
                &&& of_b.rules.is_suffix_of(rules)
                &&& rules.len() == of_a.rules.len() + of_b.rules.len()
            })
        }),
{
    let merged = merged_profile(a, b);
    collections::lemma_common_names(a.auto_approve, b.auto_approve, tool);
    collections::lemma_all_names(a.require_confirmation, b.require_confirmation, tool);
    let deny = merged.deny_by_default;
    assert(deny.take(a.deny_by_default.len() as int) =~= a.deny_by_default);
    assert(deny.skip(a.deny_by_default.len() as int) =~= b.deny_by_default);
    text::lemma_occurs_inside(Seq::empty(), a.name, "_"@ + b.name + "_merged"@);
    assert(Seq::<char>::empty() + a.name + ("_"@ + b.name + "_merged"@) =~= merged.name);
    text::lemma_occurs_inside(a.name + "_"@, b.name, "_merged"@);
    if let (Some(of_a), Some(of_b)) = (a.exec_policy, b.exec_policy) {
        let rules = merged.exec_policy->Some_0.rules;
        assert(rules.take(of_a.rules.len() as int) =~= of_a.rules);
        assert(rules.skip(of_a.rules.len() as int) =~= of_b.rules);
    }
}

/// A merged profile overrides the level of a tool where either does: by the stricter
/// level where both do.
pub proof fn law_merged_profile_overrides(
    a: PermissionProfileView,
    b: PermissionProfileView,
    tool: Seq<char>,
)
    requires
        collections::distinct_keys(b.permission_overrides),
    ensures
        ({
            let of_a = collections::lookup(a.permission_overrides, tool);
            let of_b = collections::lookup(b.permission_overrides, tool);
            let merged = collections::lookup(merged_profile(a, b).permission_overrides, tool);
            &&& of_a is None ==> merged == of_b
            &&& of_b is None ==> merged == of_a
            &&& of_a matches Some(one) ==> (of_b matches Some(other) ==> merged == Some(
                stricter(one, other),
            ))
        }),
{
    law_merged_override(a.permission_overrides, b.permission_overrides, tool);
}

/// A rule is about the commands that begin with its tokens: with each token in its
/// place, and whatever follows.
pub proof fn law_rule_is_about_a_beginning(
    rule: ExecRuleView,
    tokens: Seq<Seq<char>>,
    more: Seq<Seq<char>>,
)
    ensures
        rule_applies(rule, tokens) ==> rule_applies(rule, tokens + more),
        rule.pattern == tokens.map_values(|token: Seq<char>| PatternTokenView::Single(token))
            ==> rule_applies(rule, tokens + more),
        rule_applies(rule, tokens) ==> rule.pattern == tokens.take(
            rule.pattern.len() as int,
        ).map_values(|token: Seq<char>| PatternTokenView::Single(token)),
        rule.pattern.len() > tokens.len() ==> !rule_applies(rule, tokens),
{
    let longer = tokens + more;
    if rule_applies(rule, tokens) {
        assert forall|i: int| 0 <= i < rule.pattern.len() implies (#[trigger] rule.pattern[i])
            == PatternTokenView::Single(longer[i]) by {}
        assert(rule.pattern =~= tokens.take(rule.pattern.len() as int).map_values(
            |token: Seq<char>| PatternTokenView::Single(token),
        ));
    }
    if rule.pattern == tokens.map_values(|token: Seq<char>| PatternTokenView::Single(token)) {
        assert forall|i: int| 0 <= i < rule.pattern.len() implies (#[trigger] rule.pattern[i])
            == PatternTokenView::Single(longer[i]) by {
            assert(longer[i] == tokens[i]);
        }
    }
}

/// The first rule that applies and denies gives the reason; where none denies, the
/// first that applies does.
pub proof fn law_first_rule_gives_the_reason(
    rules: Seq<ExecRuleView>,
    tokens: Seq<Seq<char>>,
    i: int,
)
    requires
        0 <= i < rules.len(),
        rule_applies(rules[i], tokens),
    ensures
        rules[i].decision == ExecDecision::Deny && (forall|k: int|
            0 <= k < i && rule_applies(#[trigger] rules[k], tokens) ==> rules[k].decision
                == ExecDecision::Allow) ==> verdict_of(rules, tokens) == Some(
            VerdictView::Deny { reason: rules[i].justification },
        ),
        (forall|k: int|
            0 <= k < rules.len() && rule_applies(#[trigger] rules[k], tokens) ==> rules[k].decision
                == ExecDecision::Allow) && (forall|k: int|
            0 <= k < i ==> !rule_applies(#[trigger] rules[k], tokens)) ==> verdict_of(rules, tokens)
            == Some(VerdictView::Allow { reason: rules[i].justification }),
    decreases rules.len(),
{
    let front = rules.drop_last();
    assert forall|k: int| 0 <= k < front.len() implies #[trigger] front[k] == rules[k] by {}
    law_deny_wins(front, tokens);
    if i < front.len() {
        law_first_rule_gives_the_reason(front, tokens, i);
        if rules[i].decision == ExecDecision::Deny && (forall|k: int|
            0 <= k < i && rule_applies(#[trigger] rules[k], tokens) ==> rules[k].decision
                == ExecDecision::Allow) {
            assert(forall|k: int|
                0 <= k < i && rule_applies(#[trigger] front[k], tokens) ==> front[k].decision
                    == ExecDecision::Allow);
        }
        if (forall|k: int|
            0 <= k < rules.len() && rule_applies(#[trigger] rules[k], tokens) ==> rules[k].decision
                == ExecDecision::Allow) && (forall|k: int|
            0 <= k < i ==> !rule_applies(#[trigger] rules[k], tokens)) {
            assert(forall|k: int|
                0 <= k < front.len() && rule_applies(#[trigger] front[k], tokens)
                    ==> front[k].decision == ExecDecision::Allow);
            assert(forall|k: int| 0 <= k < i ==> !rule_applies(#[trigger] front[k], tokens));
            assert(rules[rules.len() - 1] == rules.last());
        }
    } else {
        assert(rules[i] == rules.last());
        if forall|k: int|
            0 <= k < i && rule_applies(#[trigger] rules[k], tokens) ==> rules[k].decision
                == ExecDecision::Allow {
            assert(forall|k: int|
                0 <= k < front.len() && rule_applies(#[trigger] front[k], tokens)
                    ==> front[k].decision == ExecDecision::Allow);
        }
        if forall|k: int| 0 <= k < i ==> !rule_applies(#[trigger] rules[k], tokens) {
            assert(
                forall|k: int| 0 <= k < front.len() ==> !rule_applies(#[trigger] front[k], tokens)
            );
        }
    }
}

/// A profile that has nothing but a name refuses nothing and asks about nothing: every
/// tool goes by the standard level.
pub proof fn law_bare_profile_leaves_tools_alone(
    name: Seq<char>,
    tool: Seq<char>,
    args: Seq<char>,
)
    ensures
        decision(bare_profile(name), tool, args) == (PermissionActionView::UseDefaultPermission {
            level: PermissionLevel::Standard,
        }),
        bare_profile(name).name == name,
        bare_profile(name).approval_policy == ApprovalPolicy::OnFailure,
        bare_profile(name).trusted_dirs.len() == 0,
        bare_profile(name).exec_policy is None,
{
    law_call_goes_by_the_profile(bare_profile(name), tool, args);
    collections::lemma_lookup_at(bare_profile(name).permission_overrides, tool);
}

} // verus!
