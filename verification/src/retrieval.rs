//! Requests to a store of documents, and what a filter lets through.

use vstd::prelude::*;
use crate::collections::{self, Table};
use crate::duplicate::Duplicate;
use crate::text;

verus! {

/// A condition on the metadata of a document: all of its parts must hold.
#[derive(Debug)]
pub struct Filter {
    /// Names that must hold exactly this value.
    pub metadata_eq: Table<String>,
    /// Names that must hold one of these values.
    pub metadata_in: Table<Vec<String>>,
}

/// The contents of a [`Filter`].
#[verifier::ext_equal]
pub struct FilterView {
    pub metadata_eq: Seq<(Seq<char>, Seq<char>)>,
    pub metadata_in: Seq<(Seq<char>, Seq<Seq<char>>)>,
}

impl DeepView for Filter {
    type V = FilterView;

    open spec fn deep_view(&self) -> FilterView {
        FilterView {
            metadata_eq: self.metadata_eq.deep_view(),
            metadata_in: self.metadata_in.deep_view(),
        }
    }
}

impl Duplicate for Filter {
    fn duplicate(&self) -> (copy: Self) {
        Filter {
            metadata_eq: self.metadata_eq.duplicate(),
            metadata_in: self.metadata_in.duplicate(),
        }
    }
}

impl Clone for Filter {
    fn clone(&self) -> (copy: Self)
        ensures
            copy.deep_view() == self.deep_view(),
    {
        self.duplicate()
    }
}

/// The metadata hold this value under this name.
pub open spec fn holds_value(
    meta: Seq<(Seq<char>, Seq<char>)>,
    part: (Seq<char>, Seq<char>),
) -> bool {
    collections::lookup(meta, part.0) == Some(part.1)
}

/// The metadata hold one of these values under this name.
pub open spec fn holds_one_of(
    meta: Seq<(Seq<char>, Seq<char>)>,
    part: (Seq<char>, Seq<Seq<char>>),
) -> bool {
    match collections::lookup(meta, part.0) {
        Some(value) => part.1.contains(value),
        None => false,
    }
}

/// The filter lets these metadata through.
pub open spec fn lets_through(filter: FilterView, meta: Seq<(Seq<char>, Seq<char>)>) -> bool {
    &&& forall|i: int|
        0 <= i < filter.metadata_eq.len() ==> holds_value(meta, #[trigger] filter.metadata_eq[i])
    &&& forall|i: int|
        0 <= i < filter.metadata_in.len() ==> holds_one_of(meta, #[trigger] filter.metadata_in[i])
}

impl Filter {
    /// The filter that lets everything through.
    pub fn new() -> (r: Self)
        ensures
            r.deep_view() == (FilterView {
                metadata_eq: Seq::empty(),
                metadata_in: Seq::empty(),
            }),
    {
        Filter { metadata_eq: Table::new(), metadata_in: Table::new() }
    }

    /// This filter with `key` bound to `value`.
    pub fn with_eq(self, key: String, value: String) -> (r: Self)
        ensures
            r.deep_view() == (FilterView {
                metadata_eq: collections::entered(self.deep_view().metadata_eq, key@, value@),
                ..self.deep_view()
            }),
    {
        let mut metadata_eq = self.metadata_eq;
        metadata_eq.insert(key, value);
        Filter { metadata_eq, metadata_in: self.metadata_in }
    }

    /// This filter with `key` bound to one of `values`.
    pub fn with_in(self, key: String, values: Vec<String>) -> (r: Self)
        ensures
            r.deep_view() == (FilterView {
                metadata_in: collections::entered(
                    self.deep_view().metadata_in,
                    key@,
                    values.deep_view(),
                ),
                ..self.deep_view()
            }),
    {
        let mut metadata_in = self.metadata_in;
        metadata_in.insert(key, values);
        Filter { metadata_eq: self.metadata_eq, metadata_in }
    }

    /// Whether the filter lets these metadata through.
    pub fn matches(&self, meta: &Table<String>) -> (r: bool)
        ensures
            r == lets_through(self.deep_view(), meta.deep_view()),
    {
        let mut i: usize = 0;
        while i < self.metadata_eq.len()
            invariant
                i <= self.deep_view().metadata_eq.len(),
                forall|k: int|
                    0 <= k < i ==> holds_value(
                        meta.deep_view(),
                        #[trigger] self.deep_view().metadata_eq[k],
                    ),
            decreases self.deep_view().metadata_eq.len() - i,
        {
            let wanted = self.metadata_eq.value_at(i);
            let holds = match meta.get(self.metadata_eq.key_at(i)) {
                Some(value) => *value == *wanted,
                None => false,
            };
            if !holds {
                assert(!holds_value(meta.deep_view(), self.deep_view().metadata_eq[i as int]));
                return false;
            }
            i = i + 1;
        }
        let mut j: usize = 0;
        while j < self.metadata_in.len()
            invariant
                j <= self.deep_view().metadata_in.len(),
                forall|k: int|
                    0 <= k < self.deep_view().metadata_eq.len() ==> holds_value(
                        meta.deep_view(),
                        #[trigger] self.deep_view().metadata_eq[k],
                    ),
                forall|k: int|
                    0 <= k < j ==> holds_one_of(
                        meta.deep_view(),
                        #[trigger] self.deep_view().metadata_in[k],
                    ),
            decreases self.deep_view().metadata_in.len() - j,
        {
            let wanted = self.metadata_in.value_at(j);
            let holds = match meta.get(self.metadata_in.key_at(j)) {
                Some(value) => text::list_contains(wanted, value.as_str()),
                None => false,
            };
            if !holds {
                assert(!holds_one_of(meta.deep_view(), self.deep_view().metadata_in[j as int]));
                return false;
            }
            j = j + 1;
        }
        true
    }
}

impl Default for Filter {
    fn default() -> (r: Self)
        ensures
            r.deep_view() == (FilterView {
                metadata_eq: Seq::empty(),
                metadata_in: Seq::empty(),
            }),
    {
        Filter::new()
    }
}

/// The empty filter lets everything through.
pub proof fn law_empty_filter(meta: Seq<(Seq<char>, Seq<char>)>)
    ensures
        lets_through(FilterView { metadata_eq: Seq::empty(), metadata_in: Seq::empty() }, meta),
{
}

/// A condition on a new name makes a filter let through what it let through
/// before, where the condition holds.
pub proof fn law_conditions_add_up(
    filter: FilterView,
    key: Seq<char>,
    value: Seq<char>,
    meta: Seq<(Seq<char>, Seq<char>)>,
)
    requires
        collections::lookup(filter.metadata_eq, key) is None,
    ensures
        lets_through(
            FilterView {
                metadata_eq: collections::entered(filter.metadata_eq, key, value),
                ..filter
            },
            meta,
        ) == (lets_through(filter, meta) && collections::lookup(meta, key) == Some(value)),
{
    lemma_entered_at_end(filter.metadata_eq, key, value);
    let more = filter.metadata_eq.push((key, value));
    let wider = FilterView { metadata_eq: more, ..filter };
    if lets_through(wider, meta) {
        assert(holds_value(meta, wider.metadata_eq[filter.metadata_eq.len() as int]));
        assert forall|i: int| 0 <= i < filter.metadata_eq.len() implies holds_value(
            meta,
            #[trigger] filter.metadata_eq[i],
        ) by {
            assert(holds_value(meta, wider.metadata_eq[i]));
        }
        assert(lets_through(filter, meta)) by {
            assert forall|i: int| 0 <= i < filter.metadata_in.len() implies holds_one_of(
                meta,
                #[trigger] filter.metadata_in[i],
            ) by {
                assert(holds_one_of(meta, wider.metadata_in[i]));
            }
        }
    }
    if lets_through(filter, meta) && collections::lookup(meta, key) == Some(value) {
        assert(lets_through(wider, meta)) by {
            assert forall|i: int| 0 <= i < wider.metadata_eq.len() implies holds_value(
                meta,
                #[trigger] wider.metadata_eq[i],
            ) by {
                if i < filter.metadata_eq.len() {
                    assert(holds_value(meta, filter.metadata_eq[i]));
                }
            }
        }
    }
}

proof fn lemma_entered_at_end<V>(entries: Seq<(Seq<char>, V)>, key: Seq<char>, value: V)
    requires
        collections::lookup(entries, key) is None,
    ensures
        collections::entered(entries, key, value) == entries.push((key, value)),
    decreases entries.len(),
{
    if entries.len() == 0 {
        assert(collections::entered(entries, key, value) =~= entries.push((key, value)));
    } else {
        lemma_entered_at_end(entries.drop_first(), key, value);
        assert(collections::entered(entries, key, value) =~= entries.push((key, value)));
    }
}

/// Which searches a request runs.
#[derive(Debug, Clone, Copy, PartialEq, Eq, Structural)]
pub enum SearchMode {
    /// By vectors alone.
    Vector,
    /// By words alone.
    Keyword,
    /// Both, and what they find together.
    Hybrid,
}

impl DeepView for SearchMode {
    type V = SearchMode;

    open spec fn deep_view(&self) -> SearchMode {
        *self
    }
}

impl Duplicate for SearchMode {
    fn duplicate(&self) -> (copy: Self) {
        *self
    }
}

impl Default for SearchMode {
    fn default() -> (r: Self)
        ensures
            r == SearchMode::Hybrid,
    {
        SearchMode::Hybrid
    }
}

/// How many documents a request asks for where it does not say.
pub fn default_retrieval_top_k() -> (n: usize)
    ensures
        n == 5,
{
    5
}

/// A document that is to be ranked again.
#[derive(Debug)]
pub struct RerankDoc {
    pub id: String,
    pub content: String,
}

/// The contents of a [`RerankDoc`].
#[verifier::ext_equal]
pub struct RerankDocView {
    pub id: Seq<char>,
    pub content: Seq<char>,
}

impl DeepView for RerankDoc {
    type V = RerankDocView;

    open spec fn deep_view(&self) -> RerankDocView {
        RerankDocView {
            id: self.id.deep_view(),
            content: self.content.deep_view(),
        }
    }
}

impl Duplicate for RerankDoc {
    fn duplicate(&self) -> (copy: Self) {
        RerankDoc {
            id: self.id.duplicate(),
            content: self.content.duplicate(),
        }
    }
}

impl Clone for RerankDoc {
    fn clone(&self) -> (copy: Self)
        ensures
            copy.deep_view() == self.deep_view(),
    {
        self.duplicate()
    }
}

impl RerankDoc {
    /// A document.
    pub fn new(id: String, content: String) -> (r: Self)
        ensures
            r.deep_view() == (RerankDocView { id: id@, content: content@ }),
    {
        RerankDoc { id, content }
    }
}

/// A filter lets through exactly what holds under each key of its first conditions the very
/// value, and under each key of its others one of the values.
pub proof fn law_what_a_filter_lets_through(filter: FilterView, meta: Seq<(Seq<char>, Seq<char>)>)
    ensures
        lets_through(filter, meta) <==> {
            &&& forall|i: int|
                0 <= i < filter.metadata_eq.len() ==> collections::lookup(
                    meta,
                    (#[trigger] filter.metadata_eq[i]).0,
                ) == Some(filter.metadata_eq[i].1)
            &&& forall|i: int|
                0 <= i < filter.metadata_in.len() ==> (collections::lookup(
                    meta,
                    (#[trigger] filter.metadata_in[i]).0,
                ) matches Some(value) && filter.metadata_in[i].1.contains(value))
        },
{
    if lets_through(filter, meta) {
        assert forall|i: int| 0 <= i < filter.metadata_eq.len() implies collections::lookup(
            meta,
            (#[trigger] filter.metadata_eq[i]).0,
        ) == Some(filter.metadata_eq[i].1) by {
            assert(holds_value(meta, filter.metadata_eq[i]));
        }
        assert forall|i: int| 0 <= i < filter.metadata_in.len() implies (collections::lookup(
            meta,
            (#[trigger] filter.metadata_in[i]).0,
        ) matches Some(value) && filter.metadata_in[i].1.contains(value)) by {
            assert(holds_one_of(meta, filter.metadata_in[i]));
        }
    }
}

} // verus!
