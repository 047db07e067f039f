//! Where an agent gets what it knows of its surroundings.

use vstd::prelude::*;
use crate::collections::Keyed;
use crate::duplicate::Duplicate;
use crate::text;

verus! {

/// When a source is read again.
#[derive(Debug, PartialEq, Eq)]
pub enum RefreshPolicy {
    /// In each turn.
    EveryIteration,
    /// When what it gives has changed.
    OnChange,
    /// Never: it is read once, at the start.
    OnceAtStart,
    /// Once, in the first turn after a session goes on with an old task.
    OnResume,
    /// After so many nanoseconds.
    Periodic(u128),
}

/// The contents of a [`RefreshPolicy`].
#[verifier::ext_equal]
pub enum RefreshPolicyView {
    EveryIteration,
    OnChange,
    OnceAtStart,
    OnResume,
    Periodic(u128),
}

impl DeepView for RefreshPolicy {
    type V = RefreshPolicyView;

    open spec fn deep_view(&self) -> RefreshPolicyView {
        match self {
            RefreshPolicy::EveryIteration => RefreshPolicyView::EveryIteration,
            RefreshPolicy::OnChange => RefreshPolicyView::OnChange,
            RefreshPolicy::OnceAtStart => RefreshPolicyView::OnceAtStart,
            RefreshPolicy::OnResume => RefreshPolicyView::OnResume,
            RefreshPolicy::Periodic(value) => RefreshPolicyView::Periodic(*value),
        }
    }
}

impl Duplicate for RefreshPolicy {
    fn duplicate(&self) -> (copy: Self) {
        match self {
            RefreshPolicy::EveryIteration => RefreshPolicy::EveryIteration,
            RefreshPolicy::OnChange => RefreshPolicy::OnChange,
            RefreshPolicy::OnceAtStart => RefreshPolicy::OnceAtStart,
            RefreshPolicy::OnResume => RefreshPolicy::OnResume,
            RefreshPolicy::Periodic(value) => RefreshPolicy::Periodic(*value),
        }
    }
}

impl Clone for RefreshPolicy {
    fn clone(&self) -> (copy: Self)
        ensures
            copy.deep_view() == self.deep_view(),
    {
        self.duplicate()
    }
}

impl Default for RefreshPolicy {
    fn default() -> (r: Self)
        ensures
            r == RefreshPolicy::EveryIteration,
    {
        RefreshPolicy::EveryIteration
    }
}

/// A source of what an agent knows of its surroundings.
pub trait ContextSource {
    /// The name of the source.
    spec fn spec_key(&self) -> Seq<char>;

    /// The name of the source. No two sources of a domain share it.
    fn key(&self) -> (key: &str)
        ensures
            key@ == self.spec_key(),
    ;

    /// When the source is read again.
    fn refresh_policy(&self) -> (policy: RefreshPolicy)
        default_ensures
            policy == RefreshPolicy::EveryIteration,
    {
        RefreshPolicy::EveryIteration
    }

    /// The place of the source among the others: lower numbers come first.
    fn priority(&self) -> (n: u32)
        default_ensures
            n == 100,
    {
        100
    }
}

/// A source of a domain, by what the domain needs of it.
#[derive(Debug, PartialEq)]
pub struct SourceHandle {
    /// The name of the source.
    pub key: String,
    /// The directory that it looks at, where it looks at one.
    pub project_dir: Option<String>,
    /// When it is read again.
    pub refresh_policy: RefreshPolicy,
    /// Its place among the others: lower numbers come first.
    pub priority: u32,
}

/// The contents of a [`SourceHandle`].
#[verifier::ext_equal]
pub struct SourceHandleView {
    pub key: Seq<char>,
    pub project_dir: Option<Seq<char>>,
    pub refresh_policy: RefreshPolicyView,
    pub priority: u32,
}

impl DeepView for SourceHandle {
    type V = SourceHandleView;

    open spec fn deep_view(&self) -> SourceHandleView {
        SourceHandleView {
            key: self.key.deep_view(),
            project_dir: self.project_dir.deep_view(),
            refresh_policy: self.refresh_policy.deep_view(),
            priority: self.priority,
        }
    }
}

impl Duplicate for SourceHandle {
    fn duplicate(&self) -> (copy: Self) {
        SourceHandle {
            key: self.key.duplicate(),
            project_dir: self.project_dir.duplicate(),
            refresh_policy: self.refresh_policy.duplicate(),
            priority: self.priority,
        }
    }
}

impl Clone for SourceHandle {
    fn clone(&self) -> (copy: Self)
        ensures
            copy.deep_view() == self.deep_view(),
    {
        self.duplicate()
    }
}

impl Keyed for SourceHandle {
    open spec fn key_of(contents: SourceHandleView) -> Seq<char> {
        contents.key
    }

    fn key(&self) -> (key: &str) {
        self.key.as_str()
    }
}

impl ContextSource for SourceHandle {
    open spec fn spec_key(&self) -> Seq<char> {
        self.key@
    }

    fn key(&self) -> (key: &str) {
        self.key.as_str()
    }

    fn refresh_policy(&self) -> (policy: RefreshPolicy)
        ensures
            policy.deep_view() == self.refresh_policy.deep_view(),
    {
        self.refresh_policy.duplicate()
    }

    fn priority(&self) -> (n: u32)
        ensures
            n == self.priority,
    {
        self.priority
    }
}

/// The line that introduces what a source gave.
pub open spec fn context_text(key: Seq<char>, content: Seq<char>) -> Seq<char> {
    "[Context: "@ + key + "] "@ + content
}

/// What a source gave, under its name.
pub fn context_message(key: &str, content: &str) -> (r: String)
    ensures
        r@ == context_text(key@, content@),
{
    let mut r = "[Context: ".to_string();
    r.push_str(key);
    r.push_str("] ");
    r.push_str(content);
    r
}

/// What the model sees of a source names it and holds what it says.
pub proof fn law_context_is_told(key: Seq<char>, content: Seq<char>)
    ensures
        text::in_order(context_text(key, content), seq![key, content]),
        content.is_suffix_of(context_text(key, content)),
{
    let whole = context_text(key, content);
    text::lemma_in_order_between("[Context: "@, key, "] "@);
    text::lemma_in_order_piece("[Context: "@ + key + "] "@, seq![key], content);
    assert(seq![key].push(content) =~= seq![key, content]);
    assert(whole.skip(whole.len() - content.len()) =~= content);
}

} // verus!
