//! Structured data: the values of JSON and TOML documents.

use vstd::prelude::*;
use crate::duplicate::Duplicate;
use crate::text;

verus! {

// ─── DataValue ──────────────────────────────────────────────────────────────

/// A value of a JSON or TOML document.
///
/// An object lists its entries in ascending order of their keys, each key
/// once; see [`sorted`].
#[derive(Debug, PartialEq)]
pub enum DataValue {
    /// No value.
    Null,
    /// A truth value.
    Bool(bool),
    /// A number or a date, in its textual form.
    Number(String),
    /// A text.
    Text(String),
    /// A list of values.
    List(Vec<DataValue>),
    /// A table of values by key.
    Object(Vec<(String, DataValue)>),
}

/// The contents of a [`DataValue`].
#[verifier::ext_equal]
pub enum DataView {
    Null,
    Bool(bool),
    Number(Seq<char>),
    Text(Seq<char>),
    List(Seq<DataView>),
    Object(Seq<(Seq<char>, DataView)>),
}

impl DeepView for DataValue {
    type V = DataView;

    open spec fn deep_view(&self) -> DataView {
        self.contents()
    }
}

impl DataValue {
    /// The contents of this value.
    pub open spec fn contents(&self) -> DataView
        decreases self,
    {
        match self {
            DataValue::Null => DataView::Null,
            DataValue::Bool(value) => DataView::Bool(*value),
            DataValue::Number(value) => DataView::Number(value@),
            DataValue::Text(value) => DataView::Text(value@),
            DataValue::List(items) => DataView::List(list_contents(items@)),
            DataValue::Object(entries) => DataView::Object(entry_contents(entries@)),
        }
    }
}

/// The contents of each item.
pub open spec fn list_contents(items: Seq<DataValue>) -> Seq<DataView>
    decreases items,
{
    if items.len() == 0 {
        Seq::empty()
    } else {
        list_contents(items.drop_last()).push(items.last().contents())
    }
}

/// The key and the contents of each entry.
pub open spec fn entry_contents(entries: Seq<(String, DataValue)>) -> Seq<(Seq<char>, DataView)>
    decreases entries,
{
    if entries.len() == 0 {
        Seq::empty()
    } else {
        entry_contents(entries.drop_last()).push(
            (entries.last().0@, entries.last().1.contents()),
        )
    }
}

/// `list_contents` is the view of the items, one by one.
pub proof fn lemma_list_contents(items: Vec<DataValue>)
    ensures
        list_contents(items@) == items.deep_view(),
{
    lemma_list_seq(items@);
    assert(list_contents(items@) =~= items.deep_view());
}

proof fn lemma_list_seq(items: Seq<DataValue>)
    ensures
        list_contents(items).len() == items.len(),
        forall|i: int|
            0 <= i < items.len() ==> #[trigger] list_contents(items)[i] == items[i].contents(),
    decreases items.len(),
{
    if items.len() > 0 {
        lemma_list_seq(items.drop_last());
    }
}

/// `entry_contents` is the view of the entries, one by one.
pub proof fn lemma_entry_contents(entries: Vec<(String, DataValue)>)
    ensures
        entry_contents(entries@) == entries.deep_view(),
{
    lemma_entry_seq(entries@);
    assert(entry_contents(entries@) =~= entries.deep_view());
}

proof fn lemma_entry_seq(entries: Seq<(String, DataValue)>)
    ensures
        entry_contents(entries).len() == entries.len(),
        forall|i: int|
            0 <= i < entries.len() ==> #[trigger] entry_contents(entries)[i] == (
                entries[i].0@,
                entries[i].1.contents(),
            ),
    decreases entries.len(),
{
    if entries.len() > 0 {
        lemma_entry_seq(entries.drop_last());
    }
}

impl Duplicate for DataValue {
    fn duplicate(&self) -> (copy: Self)
        decreases self,
    {
        match self {
            DataValue::Null => DataValue::Null,
            DataValue::Bool(value) => DataValue::Bool(*value),
            DataValue::Number(value) => DataValue::Number(value.clone()),
            DataValue::Text(value) => DataValue::Text(value.clone()),
            DataValue::List(items) => {
                let mut out: Vec<DataValue> = Vec::new();
                let mut i: usize = 0;
                while i < items.len()
                    invariant
                        i <= items.len(),
                        self is List,
                        *items == self->List_0,
                        out.deep_view() == items.deep_view().take(i as int),
                    decreases items.len() - i,
                {
                    let ghost before = out.deep_view();
                    assert(decreases_to!(self => items@[i as int]));
                    let item = items[i].duplicate();
                    assert(items.deep_view()[i as int] == item.deep_view());
                    out.push(item);
                    assert(out.deep_view() =~= before.push(item.deep_view()));
                    i = i + 1;
                    assert(out.deep_view() =~= items.deep_view().take(i as int));
                }
                proof {
                    assert(items.deep_view().take(i as int) =~= items.deep_view());
                    lemma_list_contents(*items);
                    lemma_list_contents(out);
                }
                DataValue::List(out)
            },
            DataValue::Object(entries) => {
                let mut out: Vec<(String, DataValue)> = Vec::new();
                let mut i: usize = 0;
                while i < entries.len()
                    invariant
                        i <= entries.len(),
                        self is Object,
                        *entries == self->Object_0,
                        out.deep_view() == entries.deep_view().take(i as int),
                    decreases entries.len() - i,
                {
                    let ghost before = out.deep_view();
                    assert(decreases_to!(self => entries@[i as int].1));
                    let value = entries[i].1.duplicate();
                    let key = entries[i].0.clone();
                    assert(entries.deep_view()[i as int] == (key@, value.deep_view()));
                    out.push((key, value));
                    assert(out.deep_view() =~= before.push((key@, value.deep_view())));
                    i = i + 1;
                    assert(out.deep_view() =~= entries.deep_view().take(i as int));
                }
                proof {
                    assert(entries.deep_view().take(i as int) =~= entries.deep_view());
                    lemma_entry_contents(*entries);
                    lemma_entry_contents(out);
                }
                DataValue::Object(out)
            },
        }
    }
}

impl Clone for DataValue {
    fn clone(&self) -> (copy: Self)
        ensures
            copy.deep_view() == self.deep_view(),
    {
        self.duplicate()
    }
}

// ─── Reading ────────────────────────────────────────────────────────────────

/// The value that the first entry with `key` holds.
pub open spec fn entry_of(entries: Seq<(Seq<char>, DataView)>, key: Seq<char>) -> Option<DataView>
    decreases entries.len(),
{
    if entries.len() == 0 {
        None
    } else if entries[0].0 == key {
        Some(entries[0].1)
    } else {
        entry_of(entries.drop_first(), key)
    }
}

impl DataView {
    /// What this value holds under `key`: nothing unless it is an object.
    pub open spec fn field(self, key: Seq<char>) -> Option<DataView> {
        match self {
            DataView::Object(entries) => entry_of(entries, key),
            _ => None,
        }
    }

    /// The text under `key`, where there is one.
    pub open spec fn text_field(self, key: Seq<char>) -> Option<Seq<char>> {
        match self.field(key) {
            Some(DataView::Text(value)) => Some(value),
            _ => None,
        }
    }

    /// The text under `key`, or else `default`.
    pub open spec fn text_or(self, key: Seq<char>, default: Seq<char>) -> Seq<char> {
        match self.text_field(key) {
            Some(value) => value,
            None => default,
        }
    }

    /// The entries of the object under `key`, where there is one.
    pub open spec fn object_field(self, key: Seq<char>) -> Option<Seq<(Seq<char>, DataView)>> {
        match self.field(key) {
            Some(DataView::Object(entries)) => Some(entries),
            _ => None,
        }
    }

    /// The items of the list under `key`, where there is one.
    pub open spec fn list_field(self, key: Seq<char>) -> Option<Seq<DataView>> {
        match self.field(key) {
            Some(DataView::List(items)) => Some(items),
            _ => None,
        }
    }
}

/// The position of the first entry with `key`.
pub fn find_entry(entries: &Vec<(String, DataValue)>, key: &str) -> (r: Option<usize>)
    ensures
        match r {
            Some(i) => {
                &&& i < entries.len()
                &&& entries@[i as int].0@ == key@
                &&& forall|k: int| 0 <= k < i ==> entries@[k].0@ != key@
                &&& entry_of(entries.deep_view(), key@) == Some(entries@[i as int].1.deep_view())
            },
            None => {
                &&& entry_of(entries.deep_view(), key@) is None
                &&& forall|k: int| 0 <= k < entries.len() ==> entries@[k].0@ != key@
            },
        },
{
    let ghost all = entries.deep_view();
    let mut i: usize = 0;
    assert(all.skip(0) =~= all);
    while i < entries.len()
        invariant
            i <= entries.len(),
            all == entries.deep_view(),
            entry_of(all, key@) == entry_of(all.skip(i as int), key@),
            forall|k: int| 0 <= k < i ==> entries@[k].0@ != key@,
        decreases entries.len() - i,
    {
        assert(all.skip(i as int)[0] == all[i as int]);
        assert(all[i as int] == (entries@[i as int].0@, entries@[i as int].1.deep_view()));
        if text::same(entries[i].0.as_str(), key) {
            return Some(i);
        }
        assert(all.skip(i as int).drop_first() =~= all.skip(i + 1));
        i = i + 1;
    }
    None
}

impl DataValue {
    /// What this value holds under `key`: nothing unless it is an object.
    pub fn get(&self, key: &str) -> (r: Option<&DataValue>)
        ensures
            match r {
                Some(value) => self.deep_view().field(key@) == Some(value.deep_view()),
                None => self.deep_view().field(key@) is None,
            },
    {
        match self {
            DataValue::Object(entries) => {
                proof {
                    lemma_entry_contents(*entries);
                }
                match find_entry(entries, key) {
                    Some(i) => Some(&entries[i].1),
                    None => None,
                }
            },
            _ => None,
        }
    }

    /// The text that this value is.
    pub fn as_str(&self) -> (r: Option<&str>)
        ensures
            match r {
                Some(value) => self.deep_view() == DataView::Text(value@),
                None => !(self.deep_view() is Text),
            },
    {
        match self {
            DataValue::Text(value) => Some(value.as_str()),
            _ => None,
        }
    }

    /// The text under `key`, or else `default`.
    pub fn text_or(&self, key: &str, default: &str) -> (r: String)
        ensures
            r@ == self.deep_view().text_or(key@, default@),
    {
        match self.get(key) {
            Some(DataValue::Text(value)) => value.clone(),
            _ => default.to_string(),
        }
    }

    /// The entries of the object under `key`, where there is one.
    pub fn object_at(&self, key: &str) -> (r: Option<&Vec<(String, DataValue)>>)
        ensures
            match r {
                Some(entries) => self.deep_view().object_field(key@) == Some(entries.deep_view()),
                None => self.deep_view().object_field(key@) is None,
            },
    {
        match self.get(key) {
            Some(DataValue::Object(entries)) => {
                proof {
                    lemma_entry_contents(*entries);
                }
                Some(entries)
            },
            _ => None,
        }
    }

    /// The items of the list under `key`, where there is one.
    pub fn list_at(&self, key: &str) -> (r: Option<&Vec<DataValue>>)
        ensures
            match r {
                Some(items) => self.deep_view().list_field(key@) == Some(items.deep_view()),
                None => self.deep_view().list_field(key@) is None,
            },
    {
        match self.get(key) {
            Some(DataValue::List(items)) => {
                proof {
                    lemma_list_contents(*items);
                }
                Some(items)
            },
            _ => None,
        }
    }

    /// Whether the two values have the same contents.
    pub fn same(&self, other: &DataValue) -> (r: bool)
        ensures
            r == (self.deep_view() == other.deep_view()),
        decreases self,
    {
        match (self, other) {
            (DataValue::Null, DataValue::Null) => true,
            (DataValue::Bool(a), DataValue::Bool(b)) => *a == *b,
            (DataValue::Number(a), DataValue::Number(b)) => *a == *b,
            (DataValue::Text(a), DataValue::Text(b)) => *a == *b,
            (DataValue::List(a), DataValue::List(b)) => {
                proof {
                    lemma_list_contents(*a);
                    lemma_list_contents(*b);
                }
                if a.len() != b.len() {
                    assert(a.deep_view().len() != b.deep_view().len());
                    return false;
                }
                let mut i: usize = 0;
                while i < a.len()
                    invariant
                        i <= a.len() == b.len(),
                        *self == DataValue::List(*a),
                        self.deep_view() == DataView::List(a.deep_view()),
                        other.deep_view() == DataView::List(b.deep_view()),
                        forall|k: int| 0 <= k < i ==> a.deep_view()[k] == b.deep_view()[k],
                    decreases a.len() - i,
                {
                    assert(decreases_to!(self => a@[i as int]));
                    if !a[i].same(&b[i]) {
                        assert(a.deep_view()[i as int] != b.deep_view()[i as int]);
                        return false;
                    }
                    i = i + 1;
                }
                assert(a.deep_view() =~= b.deep_view());
                true
            },
            (DataValue::Object(a), DataValue::Object(b)) => {
                proof {
                    lemma_entry_contents(*a);
                    lemma_entry_contents(*b);
                }
                if a.len() != b.len() {
                    assert(a.deep_view().len() != b.deep_view().len());
                    return false;
                }
                let mut i: usize = 0;
                while i < a.len()
                    invariant
                        i <= a.len() == b.len(),
                        *self == DataValue::Object(*a),
                        self.deep_view() == DataView::Object(a.deep_view()),
                        other.deep_view() == DataView::Object(b.deep_view()),
                        forall|k: int| 0 <= k < i ==> a.deep_view()[k] == b.deep_view()[k],
                    decreases a.len() - i,
                {
                    assert(decreases_to!(self => a@[i as int].1));
                    if a[i].0 != b[i].0 || !a[i].1.same(&b[i].1) {
                        assert(a.deep_view()[i as int] != b.deep_view()[i as int]);
                        return false;
                    }
                    i = i + 1;
                }
                assert(a.deep_view() =~= b.deep_view());
                true
            },
            _ => false,
        }
    }
}

// ─── Objects ────────────────────────────────────────────────────────────────

/// The keys stand in ascending order, each once.
pub open spec fn sorted(entries: Seq<(Seq<char>, DataView)>) -> bool {
    forall|i: int, j: int|
        0 <= i < j < entries.len() ==> text::text_before(
            #[trigger] entries[i].0,
            #[trigger] entries[j].0,
        )
}

/// The entries with `value` under `key`: in place of what `key` held, or else
/// before the first larger key.
pub open spec fn with_entry(
    entries: Seq<(Seq<char>, DataView)>,
    key: Seq<char>,
    value: DataView,
) -> Seq<(Seq<char>, DataView)>
    decreases entries.len(),
{
    if entries.len() == 0 {
        seq![(key, value)]
    } else if entries[0].0 == key {
        seq![(key, value)] + entries.drop_first()
    } else if text::text_before(key, entries[0].0) {
        seq![(key, value)] + entries
    } else {
        seq![entries[0]] + with_entry(entries.drop_first(), key, value)
    }
}

/// The object made of `entries`, entered one after the other.
pub open spec fn object_of(entries: Seq<(Seq<char>, DataView)>) -> Seq<(Seq<char>, DataView)>
    decreases entries.len(),
{
    if entries.len() == 0 {
        Seq::empty()
    } else {
        with_entry(object_of(entries.drop_last()), entries.last().0, entries.last().1)
    }
}

/// Enters `value` under `key`.
pub fn insert_entry(entries: &mut Vec<(String, DataValue)>, key: String, value: DataValue)
    ensures
        final(entries).deep_view() == with_entry(
            old(entries).deep_view(),
            key@,
            value.deep_view(),
        ),
{
    let ghost all = entries.deep_view();
    let ghost pair = (key@, value.deep_view());
    let mut i: usize = 0;
    assert(all.skip(0) =~= all);
    assert(all.take(0) + with_entry(all, pair.0, pair.1) =~= with_entry(all, pair.0, pair.1));
    while i < entries.len()
        invariant
            i <= entries.len(),
            all == entries.deep_view(),
            pair == (key@, value.deep_view()),
            with_entry(all, pair.0, pair.1) == all.take(i as int) + with_entry(
                all.skip(i as int),
                pair.0,
                pair.1,
            ),
            entries == old(entries),
        decreases entries.len() - i,
    {
        let ghost rest = all.skip(i as int);
        assert(rest[0] == all[i as int]);
        assert(all[i as int] == (entries@[i as int].0@, entries@[i as int].1.deep_view()));
        if entries[i].0 == key {
            assert(all.take(i as int) + (seq![pair] + rest.drop_first()) =~= all.update(
                i as int,
                pair,
            ));
            entries.set(i, (key, value));
            assert(entries.deep_view() =~= all.update(i as int, pair));
            return;
        }
        if text::less(key.as_str(), entries[i].0.as_str()) {
            assert(all.take(i as int) + (seq![pair] + rest) =~= all.insert(i as int, pair));
            entries.insert(i, (key, value));
            assert(entries.deep_view() =~= all.insert(i as int, pair));
            return;
        }
        proof {
            let next = with_entry(rest.drop_first(), pair.0, pair.1);
            assert(rest.drop_first() =~= all.skip(i + 1));
            assert(all.take(i as int) + (seq![rest[0]] + next) =~= all.take(i + 1) + next);
        }
        i = i + 1;
    }
    assert(all.take(i as int) + seq![pair] =~= all.push(pair));
    assert(with_entry(all.skip(i as int), pair.0, pair.1) =~= seq![pair]);
    entries.push((key, value));
    assert(entries.deep_view() =~= all.push(pair));
}

/// The object made of `entries`, entered one after the other.
pub fn object(entries: Vec<(String, DataValue)>) -> (r: DataValue)
    ensures
        r.deep_view() == DataView::Object(object_of(entries.deep_view())),
{
    let ghost all = entries.deep_view();
    let mut out: Vec<(String, DataValue)> = Vec::new();
    let mut i: usize = 0;
    while i < entries.len()
        invariant
            i <= entries.len(),
            all == entries.deep_view(),
            out.deep_view() == object_of(all.take(i as int)),
        decreases entries.len() - i,
    {
        assert(all.take(i + 1).drop_last() =~= all.take(i as int));
        assert(all[i as int] == (entries@[i as int].0@, entries@[i as int].1.deep_view()));
        let key = entries[i].0.clone();
        let value = entries[i].1.duplicate();
        insert_entry(&mut out, key, value);
        i = i + 1;
    }
    proof {
        assert(all.take(i as int) =~= all);
        lemma_entry_contents(out);
    }
    DataValue::Object(out)
}

/// An entry of an object.
pub fn entry(key: &str, value: DataValue) -> (r: (String, DataValue))
    ensures
        r.deep_view() == (key@, value.deep_view()),
{
    (key.to_string(), value)
}

/// A text value.
pub fn text_value(value: &str) -> (r: DataValue)
    ensures
        r.deep_view() == DataView::Text(value@),
{
    DataValue::Text(value.to_string())
}

/// A number in its decimal notation.
pub fn number_value(value: u64) -> (r: DataValue)
    ensures
        r.deep_view() == DataView::Number(text::digits(value as nat)),
{
    DataValue::Number(text::decimal(value))
}

/// An object without entries.
pub open spec fn no_fields() -> DataView {
    DataView::Object(Seq::empty())
}

/// A list without items.
pub open spec fn no_items() -> DataView {
    DataView::List(Seq::empty())
}

impl DataView {
    /// This object, with a value under a key.
    pub open spec fn with(self, key: Seq<char>, value: DataView) -> DataView {
        match self {
            DataView::Object(entries) => DataView::Object(with_entry(entries, key, value)),
            other => other,
        }
    }

    /// This list, with one more item.
    pub open spec fn item(self, value: DataView) -> DataView {
        match self {
            DataView::List(items) => DataView::List(items.push(value)),
            other => other,
        }
    }

    /// An object whose keys stand in ascending order, each once.
    pub open spec fn in_order(self) -> bool {
        self matches DataView::Object(entries) && sorted(entries)
    }
}

impl DataValue {
    /// An object without entries.
    pub fn fields() -> (r: Self)
        ensures
            r.deep_view() == no_fields(),
    {
        DataValue::Object(Vec::new())
    }

    /// A list without items.
    pub fn items() -> (r: Self)
        ensures
            r.deep_view() == no_items(),
    {
        DataValue::List(Vec::new())
    }

    /// This object, with a value under a key.
    pub fn with(self, key: &str, value: DataValue) -> (r: Self)
        ensures
            r.deep_view() == self.deep_view().with(key@, value.deep_view()),
    {
        match self {
            DataValue::Object(given) => {
                let mut entries = given;
                proof {
                    lemma_entry_contents(entries);
                }
                insert_entry(&mut entries, key.to_string(), value);
                proof {
                    lemma_entry_contents(entries);
                }
                DataValue::Object(entries)
            },
            other => other,
        }
    }

    /// This list, with one more item.
    pub fn item(self, value: DataValue) -> (r: Self)
        ensures
            r.deep_view() == self.deep_view().item(value.deep_view()),
    {
        match self {
            DataValue::List(given) => {
                let mut items = given;
                let ghost before = items.deep_view();
                let ghost added = value.deep_view();
                proof {
                    lemma_list_contents(items);
                }
                items.push(value);
                proof {
                    lemma_list_contents(items);
                    assert(items.deep_view() =~= before.push(added));
                }
                DataValue::List(items)
            },
            other => other,
        }
    }
}

/// Each text as a value.
pub open spec fn texts_contents(items: Seq<Seq<char>>) -> Seq<DataView> {
    items.map_values(|item: Seq<char>| DataView::Text(item))
}

// ─── Laws ───────────────────────────────────────────────────────────────────

/// The order of texts is transitive.
pub proof fn lemma_text_before_transitive(a: Seq<char>, b: Seq<char>, c: Seq<char>)
    requires
        text::text_before(a, b),
        text::text_before(b, c),
    ensures
        text::text_before(a, c),
    decreases a.len(),
{
    if a.len() > 0 && a[0] == b[0] && b[0] == c[0] {
        lemma_text_before_transitive(a.drop_first(), b.drop_first(), c.drop_first());
    }
}

/// Of two different texts one stands before the other, and not both do.
pub proof fn lemma_text_before_total(a: Seq<char>, b: Seq<char>)
    ensures
        a != b ==> text::text_before(a, b) || text::text_before(b, a),
        !(text::text_before(a, b) && text::text_before(b, a)),
        !text::text_before(a, a),
    decreases a.len(),
{
    if a.len() > 0 {
        lemma_text_before_total(a.drop_first(), a.drop_first());
    }
    if a.len() > 0 && b.len() > 0 && a[0] == b[0] {
        lemma_text_before_total(a.drop_first(), b.drop_first());
        if a.drop_first() == b.drop_first() {
            assert(a =~= seq![a[0]] + a.drop_first());
            assert(b =~= seq![b[0]] + b.drop_first());
        }
    } else if a.len() == 0 && b.len() == 0 {
        assert(a =~= b);
    }
}

/// A value is found under the key it was entered under, and every other key
/// holds what it held before.
pub proof fn law_entry_after_insert(
    entries: Seq<(Seq<char>, DataView)>,
    key: Seq<char>,
    value: DataView,
    other: Seq<char>,
)
    requires
        sorted(entries),
    ensures
        entry_of(with_entry(entries, key, value), key) == Some(value),
        other != key ==> entry_of(with_entry(entries, key, value), other) == entry_of(
            entries,
            other,
        ),
    decreases entries.len(),
{
    let result = with_entry(entries, key, value);
    if entries.len() > 0 {
        let rest = entries.drop_first();
        assert(sorted(rest)) by {
            assert forall|i: int, j: int| 0 <= i < j < rest.len() implies text::text_before(
                #[trigger] rest[i].0,
                #[trigger] rest[j].0,
            ) by {
                assert(rest[i] == entries[i + 1] && rest[j] == entries[j + 1]);
            }
        }
        if entries[0].0 == key {
            assert(result.drop_first() =~= rest);
        } else if text::text_before(key, entries[0].0) {
            assert(result.drop_first() =~= entries);
        } else {
            law_entry_after_insert(rest, key, value, other);
            assert(result.drop_first() =~= with_entry(rest, key, value));
        }
    } else {
        assert(result.drop_first() =~= entries);
    }
}

/// A field holds what it was given, every other field of an object in order
/// what it held before, and the object stays in order.
pub proof fn law_field_after_with(
    object: DataView,
    key: Seq<char>,
    value: DataView,
    other: Seq<char>,
)
    requires
        object.in_order(),
    ensures
        object.with(key, value).in_order(),
        object.with(key, value).field(key) == Some(value),
        other != key ==> object.with(key, value).field(other) == object.field(other),
{
    law_insert_keeps_order(object->Object_0, key, value);
    law_entry_after_insert(object->Object_0, key, value, other);
}

/// Entering a value keeps the keys in ascending order, each once.
pub proof fn law_insert_keeps_order(
    entries: Seq<(Seq<char>, DataView)>,
    key: Seq<char>,
    value: DataView,
)
    requires
        sorted(entries),
    ensures
        sorted(with_entry(entries, key, value)),
    decreases entries.len(),
{
    let result = with_entry(entries, key, value);
    if entries.len() > 0 {
        let rest = entries.drop_first();
        assert forall|i: int, j: int| 0 <= i < j < rest.len() implies text::text_before(
            #[trigger] rest[i].0,
            #[trigger] rest[j].0,
        ) by {
            assert(rest[i] == entries[i + 1] && rest[j] == entries[j + 1]);
        }
        if entries[0].0 == key {
            assert forall|i: int, j: int| 0 <= i < j < result.len() implies text::text_before(
                #[trigger] result[i].0,
                #[trigger] result[j].0,
            ) by {
                assert(result[j] == entries[j]);
                assert(result[i].0 == entries[i].0);
            }
        } else if text::text_before(key, entries[0].0) {
            assert forall|i: int, j: int| 0 <= i < j < result.len() implies text::text_before(
                #[trigger] result[i].0,
                #[trigger] result[j].0,
            ) by {
                assert(result[j] == entries[j - 1]);
                if i > 0 {
                    assert(result[i] == entries[i - 1]);
                } else if j > 1 {
                    lemma_text_before_transitive(key, entries[0].0, entries[j - 1].0);
                }
            }
        } else {
            law_insert_keeps_order(rest, key, value);
            lemma_inserted_keys(rest, key, value);
            lemma_text_before_total(key, entries[0].0);
            let inner = with_entry(rest, key, value);
            assert forall|i: int, j: int| 0 <= i < j < result.len() implies text::text_before(
                #[trigger] result[i].0,
                #[trigger] result[j].0,
            ) by {
                assert(result[j] == inner[j - 1]);
                if i > 0 {
                    assert(result[i] == inner[i - 1]);
                } else if inner[j - 1].0 != key {
                    let k = choose|k: int| 0 <= k < rest.len() && rest[k].0 == inner[j - 1].0;
                    assert(entries[k + 1] == rest[k]);
                }
            }
        }
    }
}

proof fn lemma_inserted_keys(
    entries: Seq<(Seq<char>, DataView)>,
    key: Seq<char>,
    value: DataView,
)
    ensures
        forall|j: int|
            0 <= j < with_entry(entries, key, value).len() ==> (#[trigger] with_entry(
                entries,
                key,
                value,
            )[j]).0 == key || exists|k: int|
                0 <= k < entries.len() && entries[k].0 == with_entry(entries, key, value)[j].0,
    decreases entries.len(),
{
    let result = with_entry(entries, key, value);
    if entries.len() > 0 {
        let rest = entries.drop_first();
        lemma_inserted_keys(rest, key, value);
        assert forall|j: int| 0 <= j < result.len() implies (#[trigger] result[j]).0 == key
            || exists|k: int| 0 <= k < entries.len() && entries[k].0 == result[j].0 by {
            if entries[0].0 == key {
                assert(j > 0 ==> result[j] == entries[j]);
            } else if text::text_before(key, entries[0].0) {
                assert(j > 0 ==> result[j] == entries[j - 1]);
            } else if j == 0 {
                assert(result[0] == entries[0]);
            } else {
                let inner = with_entry(rest, key, value);
                assert(result[j] == inner[j - 1]);
                if inner[j - 1].0 != key {
                    let k = choose|k: int| 0 <= k < rest.len() && rest[k].0 == inner[j - 1].0;
                    assert(entries[k + 1] == rest[k]);
                }
            }
        }
    }
}

// ─── Documents ──────────────────────────────────────────────────────────────

/// A JSON value as `serde_json` holds it.
#[verifier::external_type_specification]
#[verifier::external_body]
pub struct ExJsonValue(serde_json::Value);

/// A TOML value as `toml` holds it.
#[verifier::external_type_specification]
#[verifier::external_body]
pub struct ExTomlValue(toml::Value);

/// What a `serde_json::Value` holds: its objects list their entries in the
/// order in which `serde_json::Map` walks them.
pub uninterp spec fn json_contents(value: serde_json::Value) -> DataView;

/// What a `toml::Value` holds: its tables list their entries in the order in
/// which `toml::Table` walks them, and its dates are held as numbers are.
pub uninterp spec fn toml_contents(value: toml::Value) -> DataView;

/// The compact JSON text of what a value holds, as `serde_json::Value::to_string`
/// writes it.
pub uninterp spec fn json_text(contents: DataView) -> Seq<char>;

/// What `serde_json::from_str` reads from a text: nothing where the text is no
/// JSON document.
pub uninterp spec fn json_document(source: Seq<char>) -> Option<DataView>;

/// What `str::parse::<toml::Value>` reads from a text: nothing where the text
/// is no TOML document.
pub uninterp spec fn toml_document(source: Seq<char>) -> Option<DataView>;

/// Converts a `serde_json::Value` variant by variant. What it returns is
/// `json_contents` of the value.
#[verifier::external_body]
fn from_json(value: &serde_json::Value) -> (r: DataValue)
    ensures
        r.deep_view() == json_contents(*value),
{
    match value {
        serde_json::Value::Null => DataValue::Null,
        serde_json::Value::Bool(b) => DataValue::Bool(*b),
        serde_json::Value::Number(n) => DataValue::Number(n.to_string()),
        serde_json::Value::String(s) => DataValue::Text(s.clone()),
        serde_json::Value::Array(a) => DataValue::List(a.iter().map(from_json).collect()),
        serde_json::Value::Object(o) => {
            DataValue::Object(o.iter().map(|(k, v)| (k.clone(), from_json(v))).collect())
        },
    }
}

/// Converts a `toml::Value` variant by variant. What it returns is
/// `toml_contents` of the value.
#[verifier::external_body]
fn from_toml(value: &toml::Value) -> (r: DataValue)
    ensures
        r.deep_view() == toml_contents(*value),
{
    match value {
        toml::Value::String(s) => DataValue::Text(s.clone()),
        toml::Value::Integer(n) => DataValue::Number(n.to_string()),
        toml::Value::Float(n) => DataValue::Number(n.to_string()),
        toml::Value::Boolean(b) => DataValue::Bool(*b),
        toml::Value::Datetime(d) => DataValue::Number(d.to_string()),
        toml::Value::Array(a) => DataValue::List(a.iter().map(from_toml).collect()),
        toml::Value::Table(t) => {
            DataValue::Object(t.iter().map(|(k, v)| (k.clone(), from_toml(v))).collect())
        },
    }
}

/// `serde_json::from_str` into a `serde_json::Value`. Its result depends on the
/// text alone.
#[verifier::external_body]
fn read_json(source: &str) -> (r: Option<serde_json::Value>)
    ensures
        match r {
            Some(value) => json_document(source@) == Some(json_contents(value)),
            None => json_document(source@) is None,
        },
{
    serde_json::from_str::<serde_json::Value>(source).ok()
}

/// `str::parse` into a `toml::Value`. Its result depends on the text alone.
#[verifier::external_body]
fn read_toml(source: &str) -> (r: Option<toml::Value>)
    ensures
        match r {
            Some(value) => toml_document(source@) == Some(toml_contents(value)),
            None => toml_document(source@) is None,
        },
{
    source.parse::<toml::Value>().ok()
}

/// The compact JSON text of a value.
pub open spec fn written(value: serde_json::Value) -> Seq<char> {
    json_text(json_contents(value))
}

/// `serde_json::Value::to_string`. The text depends on what the value holds alone.
#[verifier::external_body]
pub(crate) fn value_text(value: &serde_json::Value) -> (r: String)
    ensures
        r@ == json_text(json_contents(*value)),
{
    value.to_string()
}

/// Reads a JSON document.
pub fn parse_json(source: &str) -> (r: Option<DataValue>)
    ensures
        r.deep_view() == json_document(source@),
{
    match read_json(source) {
        Some(value) => Some(from_json(&value)),
        None => None,
    }
}

/// Reads a TOML document.
pub fn parse_toml(source: &str) -> (r: Option<DataValue>)
    ensures
        r.deep_view() == toml_document(source@),
{
    match read_toml(source) {
        Some(value) => Some(from_toml(&value)),
        None => None,
    }
}

/// Under a key the value of the first entry with that key is found, in an object; what is
/// no object has none.
pub proof fn law_first_entry_counts(
    entries: Seq<(Seq<char>, DataView)>,
    key: Seq<char>,
    i: int,
)
    requires
        0 <= i <= entries.len(),
        forall|k: int| 0 <= k < i ==> (#[trigger] entries[k]).0 != key,
    ensures
        i < entries.len() && entries[i].0 == key ==> DataView::Object(entries).field(key) == Some(
            entries[i].1,
        ),
        i == entries.len() ==> DataView::Object(entries).field(key) is None,
        DataView::Null.field(key) is None,
        DataView::Text(key).field(key) is None,
    decreases entries.len(),
{
    if i > 0 {
        let rest = entries.drop_first();
        assert forall|k: int| 0 <= k < i - 1 implies (#[trigger] rest[k]).0 != key by {
            assert(rest[k] == entries[k + 1]);
        }
        assert(entries[0].0 != key);
        law_first_entry_counts(rest, key, i - 1);
    }
}

/// What is read under a key is what it holds, where it is of the kind that is asked for.
pub proof fn law_fields_by_kind(value: DataView, key: Seq<char>, default: Seq<char>)
    ensures
        value.field(key) matches Some(DataView::Text(text)) ==> value.text_field(key) == Some(text)
            && value.text_or(key, default) == text,
        value.field(key) matches Some(DataView::Object(entries)) ==> value.object_field(key)
            == Some(entries) && value.text_or(key, default) == default,
        value.field(key) matches Some(DataView::List(items)) ==> value.list_field(key) == Some(
            items,
        ) && value.text_or(key, default) == default,
        value.field(key) is None ==> value.text_field(key) is None && value.object_field(key)
            is None && value.list_field(key) is None && value.text_or(key, default) == default,
{
}

/// An object of entries holds under each key the value of its last entry.
pub proof fn law_last_entry_counts(
    entries: Seq<(Seq<char>, DataView)>,
    key: Seq<char>,
    value: DataView,
    other: Seq<char>,
)
    ensures
        entry_of(object_of(entries.push((key, value))), key) == Some(value),
        other != key ==> entry_of(object_of(entries.push((key, value))), other) == entry_of(
            object_of(entries),
            other,
        ),
        sorted(object_of(entries)),
    decreases entries.len(),
{
    assert(entries.push((key, value)).drop_last() =~= entries);
    if entries.len() > 0 {
        let front = entries.drop_last();
        law_last_entry_counts(front, entries.last().0, entries.last().1, other);
        law_insert_keeps_order(object_of(front), entries.last().0, entries.last().1);
    }
    law_entry_after_insert(object_of(entries), key, value, other);
}

} // verus!
