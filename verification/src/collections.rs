//! Tables and sets of names, and lists in which a key stands once.

use vstd::prelude::*;
use vstd::std_specs::cmp::PartialEqSpec;
use crate::duplicate::Duplicate;
use crate::text;

verus! {

// ─── Table ──────────────────────────────────────────────────────────────────

/// Values by name. Each name stands once; the entries keep the order in which
/// their names were first entered.
#[derive(Debug)]
pub struct Table<T> {
    entries: Vec<(String, T)>,
}

/// The value that the first entry with `key` holds.
pub open spec fn lookup<V>(entries: Seq<(Seq<char>, V)>, key: Seq<char>) -> Option<V>
    decreases entries.len(),
{
    if entries.len() == 0 {
        None
    } else if entries[0].0 == key {
        Some(entries[0].1)
    } else {
        lookup(entries.drop_first(), key)
    }
}

/// The entries with `value` under `key`: in place of what `key` held, or else
/// at the end.
pub open spec fn entered<V>(entries: Seq<(Seq<char>, V)>, key: Seq<char>, value: V) -> Seq<
    (Seq<char>, V),
>
    decreases entries.len(),
{
    if entries.len() == 0 {
        seq![(key, value)]
    } else if entries[0].0 == key {
        seq![(key, value)] + entries.drop_first()
    } else {
        seq![entries[0]] + entered(entries.drop_first(), key, value)
    }
}

/// No name stands twice.
pub open spec fn distinct_keys<V>(entries: Seq<(Seq<char>, V)>) -> bool {
    forall|i: int, j: int|
        0 <= i < j < entries.len() ==> #[trigger] entries[i].0 != #[trigger] entries[j].0
}

impl<T: DeepView> DeepView for Table<T> {
    type V = Seq<(Seq<char>, T::V)>;

    closed spec fn deep_view(&self) -> Seq<(Seq<char>, T::V)> {
        self.entries.deep_view()
    }
}

impl<T> Table<T> {
    #[verifier::type_invariant]
    spec fn each_name_once(self) -> bool {
        forall|i: int, j: int|
            0 <= i < j < self.entries@.len() ==> (#[trigger] self.entries@[i]).0@ != (
            #[trigger] self.entries@[j]).0@
    }
}

impl<T: Duplicate> Table<T> {
    /// A table without entries.
    pub fn new() -> (r: Self)
        ensures
            r.deep_view() == Seq::<(Seq<char>, T::V)>::empty(),
    {
        let r = Table { entries: Vec::new() };
        assert(r.deep_view() =~= Seq::<(Seq<char>, T::V)>::empty());
        r
    }

    /// Enters `value` under `key`, in place of what `key` held.
    pub fn insert(&mut self, key: String, value: T)
        ensures
            final(self).deep_view() == entered(old(self).deep_view(), key@, value.deep_view()),
            distinct_keys(final(self).deep_view()),
    {
        proof {
            use_type_invariant(&*self);
        }
        let ghost pair = (key@, value.deep_view());
        let mut entries: Vec<(String, T)> = Vec::new();
        std::mem::swap(&mut entries, &mut self.entries);
        let ghost all = entries.deep_view();
        let mut i: usize = 0;
        proof {
            assert(all.skip(0) =~= all);
            assert(all.take(0) + entered(all, pair.0, pair.1) =~= entered(all, pair.0, pair.1));
        }
        while i < entries.len()
            invariant
                i <= entries.len(),
                all == entries.deep_view(),
                all == old(self).deep_view(),
                pair == (key@, value.deep_view()),
                entered(all, pair.0, pair.1) == all.take(i as int) + entered(
                    all.skip(i as int),
                    pair.0,
                    pair.1,
                ),
                forall|k: int| 0 <= k < i ==> (#[trigger] entries@[k]).0@ != key@,
                forall|k: int, j: int|
                    0 <= k < j < entries@.len() ==> (#[trigger] entries@[k]).0@ != (
                    #[trigger] entries@[j]).0@,
            decreases entries.len() - i,
        {
            let ghost rest = all.skip(i as int);
            assert(rest[0] == all[i as int]);
            assert(all[i as int] == (entries@[i as int].0@, entries@[i as int].1.deep_view()));
            if entries[i].0 == key {
                proof {
                    assert(all.take(i as int) + (seq![pair] + rest.drop_first()) =~= all.update(
                        i as int,
                        pair,
                    ));
                }
                entries.set(i, (key, value));
                assert(entries.deep_view() =~= all.update(i as int, pair));
                self.entries = entries;
                assert(distinct_keys(self.deep_view()));
                return;
            }
            proof {
                let next = entered(rest.drop_first(), pair.0, pair.1);
                assert(rest.drop_first() =~= all.skip(i + 1));
                assert(all.take(i as int) + (seq![rest[0]] + next) =~= all.take(i + 1) + next);
            }
            i = i + 1;
        }
        proof {
            assert(all.take(i as int) + seq![pair] =~= all.push(pair));
            assert(entered(all.skip(i as int), pair.0, pair.1) =~= seq![pair]);
        }
        entries.push((key, value));
        assert(entries.deep_view() =~= all.push(pair));
        self.entries = entries;
        assert(distinct_keys(self.deep_view()));
    }

    /// The position of the entry with `key`.
    fn position(&self, key: &str) -> (r: Option<usize>)
        ensures
            match r {
                Some(i) => {
                    &&& i < self.entries.len()
                    &&& lookup(self.deep_view(), key@) == Some(
                        self.entries@[i as int].1.deep_view(),
                    )
                },
                None => lookup(self.deep_view(), key@) is None,
            },
    {
        let ghost all = self.deep_view();
        let mut i: usize = 0;
        assert(all.skip(0) =~= all);
        while i < self.entries.len()
            invariant
                i <= self.entries.len(),
                all == self.entries.deep_view(),
                lookup(all, key@) == lookup(all.skip(i as int), key@),
            decreases self.entries.len() - i,
        {
            assert(all.skip(i as int)[0] == all[i as int]);
            assert(all[i as int] == (
                self.entries@[i as int].0@,
                self.entries@[i as int].1.deep_view(),
            ));
            if text::same(self.entries[i].0.as_str(), key) {
                return Some(i);
            }
            assert(all.skip(i as int).drop_first() =~= all.skip(i + 1));
            i = i + 1;
        }
        None
    }

    /// The value under `key`.
    pub fn get(&self, key: &str) -> (r: Option<&T>)
        ensures
            match r {
                Some(value) => lookup(self.deep_view(), key@) == Some(value.deep_view()),
                None => lookup(self.deep_view(), key@) is None,
            },
    {
        match self.position(key) {
            Some(i) => Some(&self.entries[i].1),
            None => None,
        }
    }

    /// Whether there is a value under `key`.
    pub fn contains_key(&self, key: &str) -> (r: bool)
        ensures
            r == (lookup(self.deep_view(), key@) is Some),
    {
        self.position(key).is_some()
    }

    /// The number of entries, which is the number of names.
    pub fn len(&self) -> (n: usize)
        ensures
            n == self.deep_view().len(),
            distinct_keys(self.deep_view()),
    {
        proof {
            use_type_invariant(self);
            assert forall|i: int, j: int| 0 <= i < j < self.deep_view().len() implies (
            #[trigger] self.deep_view()[i]).0 != (#[trigger] self.deep_view()[j]).0 by {
                assert(self.entries@[i].0@ != self.entries@[j].0@);
            }
        }
        self.entries.len()
    }

    /// Whether there are no entries.
    pub fn is_empty(&self) -> (r: bool)
        ensures
            r == (self.deep_view().len() == 0),
    {
        self.entries.len() == 0
    }

    /// The name of the entry at position `i`.
    pub fn key_at(&self, i: usize) -> (key: &str)
        requires
            i < self.deep_view().len(),
        ensures
            key@ == self.deep_view()[i as int].0,
    {
        self.entries[i].0.as_str()
    }

    /// The value of the entry at position `i`.
    pub fn value_at(&self, i: usize) -> (value: &T)
        requires
            i < self.deep_view().len(),
        ensures
            value.deep_view() == self.deep_view()[i as int].1,
    {
        &self.entries[i].1
    }

    /// The table that the pairs make when they are entered one after the other.
    pub fn from_pairs(pairs: Vec<(String, T)>) -> (r: Self)
        ensures
            r.deep_view() == table_of(pairs.deep_view()),
            distinct_keys(r.deep_view()),
    {
        let ghost all = pairs.deep_view();
        let mut r: Table<T> = Table::new();
        let mut i: usize = 0;
        while i < pairs.len()
            invariant
                i <= pairs.len(),
                all == pairs.deep_view(),
                r.deep_view() == table_of(all.take(i as int)),
                distinct_keys(r.deep_view()),
            decreases pairs.len() - i,
        {
            assert(all.take(i + 1).drop_last() =~= all.take(i as int));
            assert(all[i as int] == (pairs@[i as int].0@, pairs@[i as int].1.deep_view()));
            let key = pairs[i].0.clone();
            let value = pairs[i].1.duplicate();
            r.insert(key, value);
            i = i + 1;
        }
        assert(all.take(i as int) =~= all);
        r
    }
}

/// The entries that the pairs make when they are entered one after the other.
pub open spec fn table_of<V>(pairs: Seq<(Seq<char>, V)>) -> Seq<(Seq<char>, V)>
    decreases pairs.len(),
{
    if pairs.len() == 0 {
        Seq::empty()
    } else {
        entered(table_of(pairs.drop_last()), pairs.last().0, pairs.last().1)
    }
}

impl<T: Duplicate> Duplicate for Table<T> {
    fn duplicate(&self) -> (copy: Self) {
        proof {
            use_type_invariant(self);
        }
        let entries = self.entries.duplicate();
        proof {
            assert(entries.deep_view().len() == self.entries.deep_view().len());
            assert forall|i: int, j: int| 0 <= i < j < entries@.len() implies (
            #[trigger] entries@[i]).0@ != (#[trigger] entries@[j]).0@ by {
                assert(entries.deep_view()[i] == self.entries.deep_view()[i]);
                assert(entries.deep_view()[j] == self.entries.deep_view()[j]);
                assert(self.entries@[i].0@ != self.entries@[j].0@);
            }
        }
        Table { entries }
    }
}

impl<T: PartialEq> Table<T> {
    /// The entry at position `i` is also in `other`.
    spec fn shares_entry(&self, other: &Self, i: int) -> bool {
        exists|k: int|
            0 <= k < other.entries@.len() && (#[trigger] other.entries@[k]).0@
                == self.entries@[i].0@ && self.entries@[i].1.eq_spec(&other.entries@[k].1)
    }

    /// The tables have equally many entries, and each of the one is in the other.
    pub closed spec fn same_entries(&self, other: &Self) -> bool {
        &&& self.entries@.len() == other.entries@.len()
        &&& forall|i: int| 0 <= i < self.entries@.len() ==> #[trigger] self.shares_entry(other, i)
    }

    fn has_entry_of(&self, other: &Self, i: usize) -> (r: bool)
        requires
            i < self.entries@.len(),
        ensures
            T::obeys_eq_spec() ==> r == self.shares_entry(other, i as int),
    {
        let mut k: usize = 0;
        while k < other.entries.len()
            invariant
                i < self.entries@.len(),
                k <= other.entries@.len(),
                T::obeys_eq_spec() ==> forall|j: int|
                    0 <= j < k ==> (#[trigger] other.entries@[j]).0@ != self.entries@[i as int].0@
                        || !self.entries@[i as int].1.eq_spec(&other.entries@[j].1),
            decreases other.entries.len() - k,
        {
            if text::same(self.entries[i].0.as_str(), other.entries[k].0.as_str())
                && self.entries[i].1 == other.entries[k].1 {
                return true;
            }
            k = k + 1;
        }
        false
    }

    fn has_entries_of(&self, other: &Self) -> (r: bool)
        ensures
            T::obeys_eq_spec() ==> r == self.same_entries(other),
    {
        if self.entries.len() != other.entries.len() {
            return false;
        }
        let mut i: usize = 0;
        while i < self.entries.len()
            invariant
                i <= self.entries@.len(),
                self.entries@.len() == other.entries@.len(),
                T::obeys_eq_spec() ==> forall|j: int|
                    0 <= j < i ==> #[trigger] self.shares_entry(other, j),
            decreases self.entries.len() - i,
        {
            if !self.has_entry_of(other, i) {
                return false;
            }
            i = i + 1;
        }
        true
    }
}

/// Two tables are equal where they hold the same values under the same names,
/// whatever the order in which these were entered.
impl<T: PartialEq> PartialEq for Table<T> {
    fn eq(&self, other: &Self) -> (r: bool) {
        self.has_entries_of(other)
    }
}

impl<T: PartialEq> vstd::std_specs::cmp::PartialEqSpecImpl for Table<T> {
    open spec fn obeys_eq_spec() -> bool {
        T::obeys_eq_spec()
    }

    open spec fn eq_spec(&self, other: &Self) -> bool {
        self.same_entries(other)
    }
}

impl<T: Duplicate> Clone for Table<T> {
    fn clone(&self) -> (copy: Self)
        ensures
            copy.deep_view() == self.deep_view(),
    {
        self.duplicate()
    }
}

impl<T: Duplicate> Default for Table<T> {
    fn default() -> (r: Self)
        ensures
            r.deep_view() == Seq::<(Seq<char>, T::V)>::empty(),
    {
        Table::new()
    }
}

/// A value is found under the name it was entered under, and every other name
/// holds what it held before.
pub proof fn law_lookup_after_insert<V>(
    entries: Seq<(Seq<char>, V)>,
    key: Seq<char>,
    value: V,
    other: Seq<char>,
)
    ensures
        lookup(entered(entries, key, value), key) == Some(value),
        other != key ==> lookup(entered(entries, key, value), other) == lookup(entries, other),
    decreases entries.len(),
{
    let result = entered(entries, key, value);
    if entries.len() == 0 {
        assert(result.drop_first() =~= entries);
    } else if entries[0].0 == key {
        assert(result.drop_first() =~= entries.drop_first());
    } else {
        law_lookup_after_insert(entries.drop_first(), key, value, other);
        assert(result.drop_first() =~= entered(entries.drop_first(), key, value));
    }
}

/// A value under a name that is not there yet comes last.
pub proof fn lemma_entered_last<V>(entries: Seq<(Seq<char>, V)>, key: Seq<char>, value: V)
    requires
        lookup(entries, key) is None,
    ensures
        entered(entries, key, value) == entries.push((key, value)),
    decreases entries.len(),
{
    if entries.len() == 0 {
        assert(seq![(key, value)] =~= entries.push((key, value)));
    } else {
        lemma_entered_last(entries.drop_first(), key, value);
        assert(seq![entries[0]] + entries.drop_first().push((key, value)) =~= entries.push(
            (key, value),
        ));
    }
}

/// Where no entry has the name, nothing is found under it; where one has and no name
/// stands twice, its value is.
pub proof fn lemma_lookup_at<V>(entries: Seq<(Seq<char>, V)>, key: Seq<char>)
    ensures
        (forall|i: int| 0 <= i < entries.len() ==> (#[trigger] entries[i]).0 != key) ==> lookup(
            entries,
            key,
        ) is None,
        distinct_keys(entries) ==> forall|i: int|
            0 <= i < entries.len() && (#[trigger] entries[i]).0 == key ==> lookup(entries, key)
                == Some(entries[i].1),
    decreases entries.len(),
{
    if entries.len() > 0 {
        let rest = entries.drop_first();
        lemma_lookup_at(rest, key);
        assert forall|i: int| 0 <= i < rest.len() implies #[trigger] rest[i] == entries[i + 1] by {}
        if distinct_keys(entries) {
            assert forall|i: int, j: int| 0 <= i < j < rest.len() implies #[trigger] rest[i].0
                != #[trigger] rest[j].0 by {
                assert(entries[i + 1].0 != entries[j + 1].0);
            }
            assert forall|i: int|
                0 <= i < entries.len() && (#[trigger] entries[i]).0 == key implies lookup(
                entries,
                key,
            ) == Some(entries[i].1) by {
                if i > 0 {
                    assert(entries[0].0 != entries[i].0);
                    assert(rest[i - 1] == entries[i]);
                }
            }
        }
    }
}

proof fn lemma_entered_key<V>(entries: Seq<(Seq<char>, V)>, key: Seq<char>, value: V, i: int)
    requires
        0 <= i < entered(entries, key, value).len(),
    ensures
        entered(entries, key, value)[i].0 == key || exists|k: int|
            0 <= k < entries.len() && (#[trigger] entries[k]).0 == entered(
                entries,
                key,
                value,
            )[i].0,
    decreases entries.len(),
{
    let result = entered(entries, key, value);
    if entries.len() > 0 {
        let rest = entries.drop_first();
        if entries[0].0 == key {
            if i > 0 {
                assert(result[i] == rest[i - 1]);
                assert(entries[i].0 == result[i].0);
            }
        } else if i == 0 {
            assert(entries[0].0 == result[0].0);
        } else {
            lemma_entered_key(rest, key, value, i - 1);
            if result[i].0 != key {
                let k = choose|k: int|
                    0 <= k < rest.len() && (#[trigger] rest[k]).0 == entered(
                        rest,
                        key,
                        value,
                    )[i - 1].0;
                assert(entries[k + 1].0 == result[i].0);
            }
        }
    }
}

/// Where no name stands twice, none does after a value was entered.
pub proof fn law_entered_keys_stay_distinct<V>(
    entries: Seq<(Seq<char>, V)>,
    key: Seq<char>,
    value: V,
)
    requires
        distinct_keys(entries),
    ensures
        distinct_keys(entered(entries, key, value)),
    decreases entries.len(),
{
    if entries.len() > 0 {
        let rest = entries.drop_first();
        let result = entered(entries, key, value);
        assert forall|i: int, j: int| 0 <= i < j < rest.len() implies #[trigger] rest[i].0
            != #[trigger] rest[j].0 by {
            assert(entries[i + 1].0 != entries[j + 1].0);
        }
        law_entered_keys_stay_distinct(rest, key, value);
        assert forall|i: int, j: int| 0 <= i < j < result.len() implies #[trigger] result[i].0
            != #[trigger] result[j].0 by {
            if entries[0].0 == key {
                assert(entries[i].0 != entries[j].0);
            } else {
                let after = entered(rest, key, value);
                assert(result[j] == after[j - 1]);
                if i > 0 {
                    assert(result[i] == after[i - 1]);
                } else {
                    lemma_entered_key(rest, key, value, j - 1);
                    if result[j].0 != key {
                        let k = choose|k: int|
                            0 <= k < rest.len() && (#[trigger] rest[k]).0 == after[j - 1].0;
                        assert(entries[0].0 != entries[k + 1].0);
                    }
                }
            }
        }
    }
}

/// The contents of a result.
pub open spec fn outcome<T: DeepView, E: DeepView>(result: Result<T, E>) -> Result<T::V, E::V> {
    match result {
        Ok(value) => Ok(value.deep_view()),
        Err(error) => Err(error.deep_view()),
    }
}

// ─── NameSet ────────────────────────────────────────────────────────────────

/// A set of names, in the order in which they were first entered.
#[derive(Debug)]
pub struct NameSet {
    names: Vec<String>,
}

/// The names with `name` among them.
pub open spec fn with_name(names: Seq<Seq<char>>, name: Seq<char>) -> Seq<Seq<char>> {
    if names.contains(name) {
        names
    } else {
        names.push(name)
    }
}

/// The set that the names make when they are entered one after the other.
pub open spec fn set_of(names: Seq<Seq<char>>) -> Seq<Seq<char>>
    decreases names.len(),
{
    if names.len() == 0 {
        Seq::empty()
    } else {
        with_name(set_of(names.drop_last()), names.last())
    }
}

/// The names of `a` that are also in `b`.
pub open spec fn common_names(a: Seq<Seq<char>>, b: Seq<Seq<char>>) -> Seq<Seq<char>> {
    a.filter(|name: Seq<char>| b.contains(name))
}

/// The names of `a`, followed by those of `b` that are not in `a`.
pub open spec fn all_names(a: Seq<Seq<char>>, b: Seq<Seq<char>>) -> Seq<Seq<char>> {
    a + b.filter(|name: Seq<char>| !a.contains(name))
}

impl DeepView for NameSet {
    type V = Seq<Seq<char>>;

    closed spec fn deep_view(&self) -> Seq<Seq<char>> {
        self.names.deep_view()
    }
}

impl NameSet {
    #[verifier::type_invariant]
    spec fn each_name_once(self) -> bool {
        self.names.deep_view().no_duplicates()
    }

    /// The empty set.
    pub fn new() -> (r: Self)
        ensures
            r.deep_view() == Seq::<Seq<char>>::empty(),
    {
        let r = NameSet { names: Vec::new() };
        assert(r.deep_view() =~= Seq::<Seq<char>>::empty());
        r
    }

    /// Enters `name`.
    pub fn insert(&mut self, name: String)
        ensures
            final(self).deep_view() == with_name(old(self).deep_view(), name@),
            final(self).deep_view().no_duplicates(),
    {
        proof {
            use_type_invariant(&*self);
        }
        if !text::list_contains(&self.names, name.as_str()) {
            let mut names: Vec<String> = Vec::new();
            std::mem::swap(&mut names, &mut self.names);
            let ghost before = names.deep_view();
            names.push(name);
            assert(names.deep_view() =~= before.push(name@));
            self.names = names;
        }
    }

    /// The set that the names make when they are entered one after the other.
    pub fn from_names(names: Vec<String>) -> (r: Self)
        ensures
            r.deep_view() == set_of(names.deep_view()),
            r.deep_view().no_duplicates(),
    {
        let ghost all = names.deep_view();
        let mut r = NameSet::new();
        let mut i: usize = 0;
        while i < names.len()
            invariant
                i <= names.len(),
                all == names.deep_view(),
                r.deep_view() == set_of(all.take(i as int)),
                r.deep_view().no_duplicates(),
            decreases names.len() - i,
        {
            assert(all.take(i + 1).drop_last() =~= all.take(i as int));
            r.insert(names[i].clone());
            i = i + 1;
        }
        assert(all.take(i as int) =~= all);
        r
    }

    /// Whether `name` is in the set.
    pub fn contains(&self, name: &str) -> (r: bool)
        ensures
            r == self.deep_view().contains(name@),
    {
        text::list_contains(&self.names, name)
    }

    /// The number of names, each of which stands once.
    pub fn len(&self) -> (n: usize)
        ensures
            n == self.deep_view().len(),
            self.deep_view().no_duplicates(),
    {
        proof {
            use_type_invariant(self);
        }
        self.names.len()
    }

    /// Whether there are no names.
    pub fn is_empty(&self) -> (r: bool)
        ensures
            r == (self.deep_view().len() == 0),
    {
        self.names.len() == 0
    }

    /// The name at position `i`.
    pub fn name_at(&self, i: usize) -> (name: &str)
        requires
            i < self.deep_view().len(),
        ensures
            name@ == self.deep_view()[i as int],
    {
        self.names[i].as_str()
    }

    /// The names that are in both sets.
    pub fn intersection(&self, other: &NameSet) -> (r: NameSet)
        ensures
            r.deep_view() == common_names(self.deep_view(), other.deep_view()),
    {
        proof {
            use_type_invariant(self);
        }
        let ghost a = self.deep_view();
        let ghost b = other.deep_view();
        let ghost keep = |name: Seq<char>| b.contains(name);
        let mut r = NameSet::new();
        let mut i: usize = 0;
        proof {
            reveal(Seq::filter);
            assert(a.take(0).filter(keep) =~= Seq::<Seq<char>>::empty());
        }
        while i < self.names.len()
            invariant
                i <= self.names.len(),
                a == self.names.deep_view(),
                b == other.deep_view(),
                keep == (|name: Seq<char>| b.contains(name)),
                a.no_duplicates(),
                r.deep_view() == a.take(i as int).filter(keep),
            decreases self.names.len() - i,
        {
            let ghost done = a.take(i as int);
            proof {
                reveal(Seq::filter);
                assert(a.take(i + 1).drop_last() =~= done);
                assert(!done.contains(a[i as int]));
                lemma_filter_item(done, keep, a[i as int]);
            }
            if other.contains(self.names[i].as_str()) {
                r.insert(self.names[i].clone());
            }
            i = i + 1;
        }
        assert(a.take(i as int) =~= a);
        r
    }

    /// The names that are in either set.
    pub fn union(&self, other: &NameSet) -> (r: NameSet)
        ensures
            r.deep_view() == all_names(self.deep_view(), other.deep_view()),
    {
        proof {
            use_type_invariant(other);
        }
        let ghost a = self.deep_view();
        let ghost b = other.deep_view();
        let ghost keep = |name: Seq<char>| !a.contains(name);
        let mut r = self.duplicate();
        let mut i: usize = 0;
        proof {
            reveal(Seq::filter);
            assert(a + b.take(0).filter(keep) =~= a);
        }
        while i < other.names.len()
            invariant
                i <= other.names.len(),
                a == self.deep_view(),
                b == other.names.deep_view(),
                keep == (|name: Seq<char>| !a.contains(name)),
                b.no_duplicates(),
                r.deep_view() == a + b.take(i as int).filter(keep),
            decreases other.names.len() - i,
        {
            let ghost done = b.take(i as int);
            proof {
                reveal(Seq::filter);
                assert(b.take(i + 1).drop_last() =~= done);
                assert(!done.contains(b[i as int]));
                lemma_filter_item(done, keep, b[i as int]);
                lemma_contains_add(a, done.filter(keep), b[i as int]);
                assert((a + done.filter(keep)).push(b[i as int]) =~= a + done.filter(keep).push(
                    b[i as int],
                ));
            }
            r.insert(other.names[i].clone());
            i = i + 1;
        }
        assert(b.take(i as int) =~= b);
        r
    }
}

/// What a filter keeps is what was there and is to be kept.
pub proof fn lemma_filter_item<A>(items: Seq<A>, keep: spec_fn(A) -> bool, item: A)
    ensures
        items.filter(keep).contains(item) == (items.contains(item) && keep(item)),
    decreases items.len(),
{
    reveal(Seq::filter);
    if items.len() > 0 {
        let front = items.drop_last();
        lemma_filter_item(front, keep, item);
        assert(front.push(items.last()) =~= items);
        lemma_contains_push(front, items.last(), item);
        lemma_contains_push(front.filter(keep), items.last(), item);
    }
}

/// A name is common to two sets where it is in both.
pub proof fn lemma_common_names(a: Seq<Seq<char>>, b: Seq<Seq<char>>, name: Seq<char>)
    ensures
        common_names(a, b).contains(name) == (a.contains(name) && b.contains(name)),
{
    lemma_filter_item(a, |n: Seq<char>| b.contains(n), name);
}

/// A name is among the names of two sets where it is in one of them.
pub proof fn lemma_all_names(a: Seq<Seq<char>>, b: Seq<Seq<char>>, name: Seq<char>)
    ensures
        all_names(a, b).contains(name) == (a.contains(name) || b.contains(name)),
{
    lemma_filter_item(b, |n: Seq<char>| !a.contains(n), name);
    lemma_contains_add(a, b.filter(|n: Seq<char>| !a.contains(n)), name);
}

/// The set that names make holds these names and no others.
pub proof fn lemma_set_of(names: Seq<Seq<char>>, name: Seq<char>)
    ensures
        set_of(names).contains(name) == names.contains(name),
    decreases names.len(),
{
    if names.len() > 0 {
        let front = names.drop_last();
        lemma_set_of(front, name);
        lemma_set_of(front, names.last());
        assert(front.push(names.last()) =~= names);
        lemma_contains_push(front, names.last(), name);
        lemma_contains_push(set_of(front), names.last(), name);
    }
}

proof fn lemma_contains_push<A>(items: Seq<A>, last: A, item: A)
    ensures
        items.push(last).contains(item) == (items.contains(item) || last == item),
{
    let more = items.push(last);
    if items.contains(item) {
        let i = choose|i: int| 0 <= i < items.len() && items[i] == item;
        assert(more[i] == item);
    }
    if last == item {
        assert(more[items.len() as int] == item);
    }
    if more.contains(item) {
        let i = choose|i: int| 0 <= i < more.len() && more[i] == item;
        if i < items.len() {
            assert(items[i] == item);
        }
    }
}

proof fn lemma_contains_add<A>(a: Seq<A>, b: Seq<A>, item: A)
    ensures
        (a + b).contains(item) == (a.contains(item) || b.contains(item)),
{
    if a.contains(item) {
        let i = choose|i: int| 0 <= i < a.len() && a[i] == item;
        assert((a + b)[i] == item);
    }
    if b.contains(item) {
        let i = choose|i: int| 0 <= i < b.len() && b[i] == item;
        assert((a + b)[a.len() + i] == item);
    }
    if (a + b).contains(item) {
        let i = choose|i: int| 0 <= i < (a + b).len() && (a + b)[i] == item;
        if i < a.len() {
            assert(a[i] == item);
        } else {
            assert(b[i - a.len()] == item);
        }
    }
}

impl Duplicate for NameSet {
    fn duplicate(&self) -> (copy: Self) {
        proof {
            use_type_invariant(self);
        }
        let names = self.names.duplicate();
        NameSet { names }
    }
}

impl NameSet {
    fn is_within(&self, other: &NameSet) -> (r: bool)
        ensures
            r == self.deep_view().to_set().subset_of(other.deep_view().to_set()),
    {
        let ghost all = self.deep_view();
        let mut i: usize = 0;
        while i < self.names.len()
            invariant
                i <= self.names.len(),
                all == self.names.deep_view(),
                forall|k: int| 0 <= k < i ==> other.deep_view().contains(#[trigger] all[k]),
            decreases self.names.len() - i,
        {
            assert(all[i as int] == self.names@[i as int]@);
            if !other.contains(self.names[i].as_str()) {
                assert(all.to_set().contains(all[i as int]));
                return false;
            }
            i = i + 1;
        }
        true
    }
}

/// Two sets are equal where they hold the same names, whatever the order in which
/// these were entered.
impl PartialEq for NameSet {
    fn eq(&self, other: &Self) -> (r: bool) {
        let r = self.is_within(other) && other.is_within(self);
        proof {
            if r {
                assert(self.deep_view().to_set() =~= other.deep_view().to_set());
            }
        }
        r
    }
}

impl vstd::std_specs::cmp::PartialEqSpecImpl for NameSet {
    open spec fn obeys_eq_spec() -> bool {
        true
    }

    open spec fn eq_spec(&self, other: &Self) -> bool {
        self.deep_view().to_set() == other.deep_view().to_set()
    }
}

impl Clone for NameSet {
    fn clone(&self) -> (copy: Self)
        ensures
            copy.deep_view() == self.deep_view(),
    {
        self.duplicate()
    }
}

impl Default for NameSet {
    fn default() -> (r: Self)
        ensures
            r.deep_view() == Seq::<Seq<char>>::empty(),
    {
        NameSet::new()
    }
}

// ─── Lists in which a key stands once ───────────────────────────────────────

/// A value with a key by which it is told from others of its kind.
pub trait Keyed: Duplicate {
    /// The key of a value with these contents.
    spec fn key_of(contents: Self::V) -> Seq<char>;

    /// The key of this value.
    fn key(&self) -> (key: &str)
        ensures
            key@ == Self::key_of(self.deep_view()),
    ;
}

/// Some item has this key.
pub open spec fn holds_key<T: Keyed>(items: Seq<T::V>, key: Seq<char>) -> bool {
    exists|i: int| 0 <= i < items.len() && T::key_of(#[trigger] items[i]) == key
}

/// No two items have the same key.
pub open spec fn unique_keys<T: Keyed>(items: Seq<T::V>) -> bool {
    forall|i: int, j: int|
        0 <= i < j < items.len() ==> T::key_of(#[trigger] items[i]) != T::key_of(
            #[trigger] items[j],
        )
}

/// The position of the first item with this key: the length of the list where
/// there is none.
pub open spec fn key_position<T: Keyed>(items: Seq<T::V>, key: Seq<char>) -> int
    decreases items.len(),
{
    if items.len() == 0 || T::key_of(items[0]) == key {
        0
    } else {
        1 + key_position::<T>(items.drop_first(), key)
    }
}

/// The item with this key that stands first.
pub open spec fn found<T: Keyed>(items: Seq<T::V>, key: Seq<char>) -> Option<T::V> {
    let i = key_position::<T>(items, key);
    if i < items.len() {
        Some(items[i])
    } else {
        None
    }
}

/// `kept` followed by those of `items` whose key is not there yet.
pub open spec fn with_first<T: Keyed>(kept: Seq<T::V>, items: Seq<T::V>) -> Seq<T::V>
    decreases items.len(),
{
    if items.len() == 0 {
        kept
    } else {
        let before = with_first::<T>(kept, items.drop_last());
        if holds_key::<T>(before, T::key_of(items.last())) {
            before
        } else {
            before.push(items.last())
        }
    }
}

/// `kept` with each of `items` in place of what its key held, or else at the
/// end.
pub open spec fn with_last<T: Keyed>(kept: Seq<T::V>, items: Seq<T::V>) -> Seq<T::V>
    decreases items.len(),
{
    if items.len() == 0 {
        kept
    } else {
        let before = with_last::<T>(kept, items.drop_last());
        let i = key_position::<T>(before, T::key_of(items.last()));
        if i < before.len() {
            before.update(i, items.last())
        } else {
            before.push(items.last())
        }
    }
}

/// `key_position` is the only position that is as its name says.
pub proof fn lemma_key_position<T: Keyed>(items: Seq<T::V>, key: Seq<char>)
    ensures
        0 <= key_position::<T>(items, key) <= items.len(),
        forall|k: int|
            0 <= k < key_position::<T>(items, key) ==> T::key_of(#[trigger] items[k]) != key,
        key_position::<T>(items, key) < items.len() ==> T::key_of(
            items[key_position::<T>(items, key)],
        ) == key,
        holds_key::<T>(items, key) == (key_position::<T>(items, key) < items.len()),
    decreases items.len(),
{
    if items.len() > 0 && T::key_of(items[0]) != key {
        let rest = items.drop_first();
        lemma_key_position::<T>(rest, key);
        assert forall|k: int| 0 <= k < key_position::<T>(items, key) implies T::key_of(
            #[trigger] items[k],
        ) != key by {
            if k > 0 {
                assert(rest[k - 1] == items[k]);
            }
        }
    }
}

/// The position of the first item with this key.
pub fn find_key<T: Keyed>(items: &Vec<T>, key: &str) -> (r: Option<usize>)
    ensures
        match r {
            Some(i) => {
                &&& i < items.len()
                &&& i == key_position::<T>(items.deep_view(), key@)
                &&& found::<T>(items.deep_view(), key@) == Some(items@[i as int].deep_view())
            },
            None => {
                &&& key_position::<T>(items.deep_view(), key@) == items.len()
                &&& found::<T>(items.deep_view(), key@) is None
            },
        },
{
    let ghost all = items.deep_view();
    let mut i: usize = 0;
    assert(all.skip(0) =~= all);
    while i < items.len()
        invariant
            i <= items.len(),
            all == items.deep_view(),
            key_position::<T>(all, key@) == i + key_position::<T>(all.skip(i as int), key@),
        decreases items.len() - i,
    {
        assert(all.skip(i as int)[0] == all[i as int]);
        assert(all[i as int] == items@[i as int].deep_view());
        if text::same(items[i].key(), key) {
            return Some(i);
        }
        assert(all.skip(i as int).drop_first() =~= all.skip(i + 1));
        i = i + 1;
    }
    None
}

/// Appends to `kept` those of `items` whose key is not there yet.
pub fn extend_first<T: Keyed>(kept: &mut Vec<T>, items: &Vec<T>)
    ensures
        final(kept).deep_view() == with_first::<T>(old(kept).deep_view(), items.deep_view()),
{
    let ghost start = kept.deep_view();
    let ghost all = items.deep_view();
    let mut i: usize = 0;
    while i < items.len()
        invariant
            i <= items.len(),
            all == items.deep_view(),
            kept.deep_view() == with_first::<T>(start, all.take(i as int)),
        decreases items.len() - i,
    {
        let ghost before = kept.deep_view();
        proof {
            assert(all.take(i + 1).drop_last() =~= all.take(i as int));
            lemma_key_position::<T>(before, T::key_of(all[i as int]));
        }
        if find_key(kept, items[i].key()).is_none() {
            let item = items[i].duplicate();
            kept.push(item);
            assert(kept.deep_view() =~= before.push(all[i as int]));
        }
        i = i + 1;
    }
    assert(all.take(i as int) =~= all);
}

/// Enters each of `items` in place of what its key held, or else at the end.
pub fn extend_last<T: Keyed>(kept: &mut Vec<T>, items: &Vec<T>)
    ensures
        final(kept).deep_view() == with_last::<T>(old(kept).deep_view(), items.deep_view()),
{
    let ghost start = kept.deep_view();
    let ghost all = items.deep_view();
    let mut i: usize = 0;
    while i < items.len()
        invariant
            i <= items.len(),
            all == items.deep_view(),
            kept.deep_view() == with_last::<T>(start, all.take(i as int)),
        decreases items.len() - i,
    {
        let ghost before = kept.deep_view();
        assert(all.take(i + 1).drop_last() =~= all.take(i as int));
        let item = items[i].duplicate();
        match find_key(kept, items[i].key()) {
            Some(at) => {
                kept.set(at, item);
                assert(kept.deep_view() =~= before.update(at as int, all[i as int]));
            },
            None => {
                kept.push(item);
                assert(kept.deep_view() =~= before.push(all[i as int]));
            },
        }
        i = i + 1;
    }
    assert(all.take(i as int) =~= all);
}

/// The keys of the items, in order.
pub open spec fn keys_of<T: Keyed>(items: Seq<T::V>) -> Seq<Seq<char>> {
    Seq::new(items.len(), |i: int| T::key_of(items[i]))
}

/// The keys of the items, in order.
pub fn list_keys<T: Keyed>(items: &Vec<T>) -> (r: Vec<String>)
    ensures
        r.deep_view() == keys_of::<T>(items.deep_view()),
{
    let mut r: Vec<String> = Vec::new();
    let mut i: usize = 0;
    while i < items.len()
        invariant
            i <= items.len(),
            r.deep_view() == keys_of::<T>(items.deep_view()).take(i as int),
        decreases items.len() - i,
    {
        let ghost before = r.deep_view();
        let key = items[i].key().to_string();
        assert(keys_of::<T>(items.deep_view())[i as int] == key@);
        r.push(key);
        assert(r.deep_view() =~= before.push(key@));
        i = i + 1;
        assert(r.deep_view() =~= keys_of::<T>(items.deep_view()).take(i as int));
    }
    assert(r.deep_view() =~= keys_of::<T>(items.deep_view()));
    r
}

/// The keys of `all` are those of the lists, and each stands once.
pub open spec fn gathers<T: Keyed>(all: Seq<T::V>, lists: Seq<Seq<T::V>>) -> bool {
    &&& unique_keys::<T>(all)
    &&& forall|key: Seq<char>| #[trigger]
        holds_key::<T>(all, key) <==> exists|i: int|
            0 <= i < lists.len() && holds_key::<T>(#[trigger] lists[i], key)
}

/// What gathers the lists, with the items of one list more.
pub proof fn lemma_gathers_more<T: Keyed>(
    all: Seq<T::V>,
    lists: Seq<Seq<T::V>>,
    items: Seq<T::V>,
    result: Seq<T::V>,
)
    requires
        gathers::<T>(all, lists),
        unique_keys::<T>(result),
        forall|key: Seq<char>| #[trigger]
            holds_key::<T>(result, key) == (holds_key::<T>(all, key) || holds_key::<T>(
                items,
                key,
            )),
    ensures
        gathers::<T>(result, lists.push(items)),
{
    let more = lists.push(items);
    assert forall|key: Seq<char>| #[trigger] holds_key::<T>(result, key) <==> exists|i: int|
        0 <= i < more.len() && holds_key::<T>(#[trigger] more[i], key) by {
        if holds_key::<T>(all, key) {
            let i = choose|i: int|
                0 <= i < lists.len() && holds_key::<T>(#[trigger] lists[i], key);
            assert(more[i] == lists[i]);
        }
        if holds_key::<T>(items, key) {
            assert(more[lists.len() as int] == items);
        }
        if exists|i: int| 0 <= i < more.len() && holds_key::<T>(#[trigger] more[i], key) {
            let i = choose|i: int| 0 <= i < more.len() && holds_key::<T>(#[trigger] more[i], key);
            if i < lists.len() {
                assert(lists[i] == more[i]);
            }
        }
    }
}

/// What is there stays there, in place; every key of the new items is there
/// afterwards, and no other; a key that stood once still does.
pub proof fn law_with_first<T: Keyed>(kept: Seq<T::V>, items: Seq<T::V>)
    ensures
        kept.is_prefix_of(with_first::<T>(kept, items)),
        forall|key: Seq<char>| #[trigger]
            holds_key::<T>(with_first::<T>(kept, items), key) == (holds_key::<T>(kept, key)
                || holds_key::<T>(items, key)),
        unique_keys::<T>(kept) ==> unique_keys::<T>(with_first::<T>(kept, items)),
    decreases items.len(),
{
    let result = with_first::<T>(kept, items);
    if items.len() > 0 {
        let front = items.drop_last();
        let before = with_first::<T>(kept, front);
        law_with_first::<T>(kept, front);
        let last = items.last();
        lemma_holds_push::<T>(front, last);
        assert(front.push(last) =~= items);
        lemma_holds_push::<T>(before, last);
        assert forall|key: Seq<char>| #[trigger] holds_key::<T>(result, key) == (holds_key::<T>(
            kept,
            key,
        ) || holds_key::<T>(items, key)) by {
            assert(holds_key::<T>(before, key) == (holds_key::<T>(kept, key) || holds_key::<T>(
                front,
                key,
            )));
            assert(holds_key::<T>(front.push(last), key) == (holds_key::<T>(front, key)
                || T::key_of(last) == key));
            assert(holds_key::<T>(before.push(last), key) == (holds_key::<T>(before, key)
                || T::key_of(last) == key));
        }
        assert(kept.is_prefix_of(result)) by {
            assert(result.take(kept.len() as int) =~= before.take(kept.len() as int));
        }
    } else {
        assert(kept.take(kept.len() as int) =~= kept);
        assert forall|key: Seq<char>| !holds_key::<T>(items, key) by {}
    }
}

proof fn lemma_holds_push<T: Keyed>(items: Seq<T::V>, item: T::V)
    ensures
        forall|key: Seq<char>| #[trigger]
            holds_key::<T>(items.push(item), key) == (holds_key::<T>(items, key) || T::key_of(item)
                == key),
{
    assert forall|key: Seq<char>| #[trigger]
        holds_key::<T>(items.push(item), key) == (holds_key::<T>(items, key) || T::key_of(item)
            == key) by {
        let more = items.push(item);
        if holds_key::<T>(items, key) {
            let i = choose|i: int| 0 <= i < items.len() && T::key_of(#[trigger] items[i]) == key;
            assert(T::key_of(more[i]) == key);
        }
        if T::key_of(item) == key {
            assert(T::key_of(more[items.len() as int]) == key);
        }
        if holds_key::<T>(more, key) {
            let i = choose|i: int| 0 <= i < more.len() && T::key_of(#[trigger] more[i]) == key;
            if i < items.len() {
                assert(T::key_of(items[i]) == key);
            }
        }
    }
}

/// A later item stands in place of an earlier one with its key: the last item
/// entered under a key is what is found under it.
pub proof fn law_with_last<T: Keyed>(kept: Seq<T::V>, items: Seq<T::V>)
    requires
        items.len() > 0,
        unique_keys::<T>(kept),
    ensures
        found::<T>(with_last::<T>(kept, items), T::key_of(items.last())) == Some(items.last()),
        unique_keys::<T>(with_last::<T>(kept, items)),
    decreases items.len(),
{
    let before = with_last::<T>(kept, items.drop_last());
    let last = items.last();
    let key = T::key_of(last);
    if items.len() > 1 {
        law_with_last::<T>(kept, items.drop_last());
    }
    lemma_key_position::<T>(before, key);
    let result = with_last::<T>(kept, items);
    lemma_key_position::<T>(result, key);
    let i = key_position::<T>(before, key);
    assert(T::key_of(result[i]) == key);
    assert(result[i] == last);
    let j = key_position::<T>(result, key);
    if j < i {
        assert(result[j] == before[j]);
    }
    assert forall|a: int, b: int| 0 <= a < b < result.len() implies T::key_of(
        #[trigger] result[a],
    ) != T::key_of(#[trigger] result[b]) by {
        if a != i && b != i {
            assert(result[a] == before[a] && result[b] == before[b]);
        } else if a == i {
            assert(b < before.len() && result[b] == before[b]);
            assert(T::key_of(before[i]) != T::key_of(before[b]));
        } else {
            assert(result[a] == before[a]);
            if i < before.len() {
                assert(T::key_of(before[a]) != T::key_of(before[i]));
            }
        }
    }
}

/// The keys of both lists are there, each once.
pub proof fn law_with_last_keys<T: Keyed>(kept: Seq<T::V>, items: Seq<T::V>)
    requires
        unique_keys::<T>(kept),
    ensures
        unique_keys::<T>(with_last::<T>(kept, items)),
        forall|key: Seq<char>| #[trigger]
            holds_key::<T>(with_last::<T>(kept, items), key) == (holds_key::<T>(kept, key)
                || holds_key::<T>(items, key)),
    decreases items.len(),
{
    if items.len() > 0 {
        let front = items.drop_last();
        let before = with_last::<T>(kept, front);
        let last = items.last();
        let result = with_last::<T>(kept, items);
        law_with_last_keys::<T>(kept, front);
        law_with_last::<T>(kept, items);
        lemma_key_position::<T>(before, T::key_of(last));
        lemma_holds_push::<T>(front, last);
        assert(front.push(last) =~= items);
        let i = key_position::<T>(before, T::key_of(last));
        assert forall|key: Seq<char>| #[trigger] holds_key::<T>(result, key) == (holds_key::<T>(
            kept,
            key,
        ) || holds_key::<T>(items, key)) by {
            assert(holds_key::<T>(before, key) == (holds_key::<T>(kept, key) || holds_key::<T>(
                front,
                key,
            )));
            assert(holds_key::<T>(front.push(last), key) == (holds_key::<T>(front, key)
                || T::key_of(last) == key));
            if holds_key::<T>(before, key) {
                let k = choose|k: int|
                    0 <= k < before.len() && T::key_of(#[trigger] before[k]) == key;
                if k != i {
                    assert(T::key_of(result[k]) == key);
                } else {
                    assert(T::key_of(result[i]) == key);
                }
            }
            if T::key_of(last) == key {
                assert(T::key_of(result[i]) == key);
            }
            if holds_key::<T>(result, key) {
                let k = choose|k: int|
                    0 <= k < result.len() && T::key_of(#[trigger] result[k]) == key;
                if k != i {
                    assert(T::key_of(before[k]) == key);
                }
            }
        }
    } else {
        assert forall|key: Seq<char>| !holds_key::<T>(items, key) by {}
    }
}

/// What is found in the front of a list is found in the list.
proof fn lemma_found_in_front<T: Keyed>(front: Seq<T::V>, all: Seq<T::V>, key: Seq<char>)
    requires
        front.is_prefix_of(all),
        holds_key::<T>(front, key),
    ensures
        found::<T>(all, key) == found::<T>(front, key),
{
    lemma_key_position::<T>(front, key);
    lemma_key_position::<T>(all, key);
    let i = key_position::<T>(front, key);
    let j = key_position::<T>(all, key);
    assert(front =~= all.take(front.len() as int));
    let w = choose|w: int| 0 <= w < front.len() && T::key_of(#[trigger] front[w]) == key;
    assert(i < front.len());
    assert(all[i] == front[i]);
    if j < i {
        assert(all[j] == front[j]);
    }
}

/// An earlier item stays: what was found under a key is still found.
pub proof fn law_earlier_stays<T: Keyed>(kept: Seq<T::V>, items: Seq<T::V>, key: Seq<char>)
    requires
        holds_key::<T>(kept, key),
    ensures
        found::<T>(with_first::<T>(kept, items), key) == found::<T>(kept, key),
{
    law_with_first::<T>(kept, items);
    lemma_found_in_front::<T>(kept, with_first::<T>(kept, items), key);
}

/// A later item stands in place of an earlier one: what the further items hold
/// under a key is what is found under it.
pub proof fn law_later_stands<T: Keyed>(kept: Seq<T::V>, items: Seq<T::V>, key: Seq<char>)
    requires
        unique_keys::<T>(kept),
        unique_keys::<T>(items),
        holds_key::<T>(items, key),
    ensures
        found::<T>(with_last::<T>(kept, items), key) == found::<T>(items, key),
    decreases items.len(),
{
    let w = choose|w: int| 0 <= w < items.len() && T::key_of(#[trigger] items[w]) == key;
    let front = items.drop_last();
    let last = items.last();
    let before = with_last::<T>(kept, front);
    let result = with_last::<T>(kept, items);
    lemma_key_position::<T>(items, key);
    if T::key_of(last) == key {
        law_with_last::<T>(kept, items);
        let p = key_position::<T>(items, key);
        if p < items.len() - 1 {
            assert(T::key_of(items[p]) != T::key_of(items[items.len() - 1]));
        }
    } else {
        assert(T::key_of(front[w]) == key);
        assert forall|a: int, b: int| 0 <= a < b < front.len() implies T::key_of(
            #[trigger] front[a],
        ) != T::key_of(#[trigger] front[b]) by {
            assert(T::key_of(items[a]) != T::key_of(items[b]));
        }
        law_later_stands::<T>(kept, front, key);
        assert(front =~= items.take(front.len() as int));
        lemma_found_in_front::<T>(front, items, key);
        lemma_key_position::<T>(before, key);
        lemma_key_position::<T>(before, T::key_of(last));
        lemma_key_position::<T>(result, key);
        law_with_last_keys::<T>(kept, front);
        assert(holds_key::<T>(before, key));
        let i = key_position::<T>(before, T::key_of(last));
        let p = key_position::<T>(before, key);
        let q = key_position::<T>(result, key);
        let v = choose|v: int| 0 <= v < before.len() && T::key_of(#[trigger] before[v]) == key;
        assert(p < before.len());
        assert(result[p] == before[p]);
        if q < p {
            if q != i {
                assert(result[q] == before[q]);
            }
        }
    }
}

/// No item before this one, in its list or in an earlier one, has its key.
pub open spec fn stands_first<T: Keyed>(lists: Seq<Seq<T::V>>, i: int, j: int) -> bool {
    &&& 0 <= i < lists.len()
    &&& 0 <= j < lists[i].len()
    &&& forall|h: int| 0 <= h < i ==> !holds_key::<T>(#[trigger] lists[h], T::key_of(lists[i][j]))
    &&& forall|k: int| 0 <= k < j ==> T::key_of(#[trigger] lists[i][k]) != T::key_of(lists[i][j])
}

/// No item behind this one, in its list or in a later one, has its key.
pub open spec fn stands_last<T: Keyed>(lists: Seq<Seq<T::V>>, i: int, j: int) -> bool {
    &&& 0 <= i < lists.len()
    &&& 0 <= j < lists[i].len()
    &&& forall|h: int|
        i < h < lists.len() ==> !holds_key::<T>(#[trigger] lists[h], T::key_of(lists[i][j]))
    &&& forall|k: int|
        j < k < lists[i].len() ==> T::key_of(#[trigger] lists[i][k]) != T::key_of(lists[i][j])
}

/// `all` holds one item for each key of the lists, and it is the first of them.
pub open spec fn gathers_first<T: Keyed>(all: Seq<T::V>, lists: Seq<Seq<T::V>>) -> bool {
    &&& gathers::<T>(all, lists)
    &&& forall|i: int, j: int| #[trigger]
        stands_first::<T>(lists, i, j) ==> all.contains(lists[i][j])
}

/// `all` holds one item for each key of the lists, and it is the last of them.
pub open spec fn gathers_last<T: Keyed>(all: Seq<T::V>, lists: Seq<Seq<T::V>>) -> bool {
    &&& gathers::<T>(all, lists)
    &&& forall|i: int, j: int| #[trigger]
        stands_last::<T>(lists, i, j) ==> all.contains(lists[i][j])
}

proof fn lemma_with_first_takes<T: Keyed>(kept: Seq<T::V>, items: Seq<T::V>, j: int)
    requires
        0 <= j < items.len(),
        !holds_key::<T>(kept, T::key_of(items[j])),
        forall|k: int| 0 <= k < j ==> T::key_of(#[trigger] items[k]) != T::key_of(items[j]),
    ensures
        with_first::<T>(kept, items).contains(items[j]),
    decreases items.len(),
{
    let front = items.drop_last();
    let before = with_first::<T>(kept, front);
    let key = T::key_of(items[j]);
    law_with_first::<T>(kept, front);
    if j < front.len() {
        assert forall|k: int| 0 <= k < j implies T::key_of(#[trigger] front[k]) != T::key_of(
            front[j],
        ) by {
            assert(items[k] == front[k]);
        }
        lemma_with_first_takes::<T>(kept, front, j);
        lemma_contains_push(before, items.last(), items[j]);
    } else {
        assert(!holds_key::<T>(front, key)) by {
            if holds_key::<T>(front, key) {
                let k = choose|k: int| 0 <= k < front.len() && T::key_of(#[trigger] front[k]) == key;
                assert(items[k] == front[k]);
            }
        }
        assert(!holds_key::<T>(before, key));
        lemma_contains_push(before, items.last(), items[j]);
    }
}

proof fn lemma_with_last_keeps<T: Keyed>(kept: Seq<T::V>, items: Seq<T::V>, item: T::V)
    requires
        kept.contains(item),
        !holds_key::<T>(items, T::key_of(item)),
    ensures
        with_last::<T>(kept, items).contains(item),
    decreases items.len(),
{
    if items.len() > 0 {
        let front = items.drop_last();
        let before = with_last::<T>(kept, front);
        assert(!holds_key::<T>(front, T::key_of(item))) by {
            if holds_key::<T>(front, T::key_of(item)) {
                let k = choose|k: int|
                    0 <= k < front.len() && T::key_of(#[trigger] front[k]) == T::key_of(item);
                assert(items[k] == front[k]);
            }
        }
        assert(T::key_of(items[items.len() - 1]) != T::key_of(item));
        lemma_with_last_keeps::<T>(kept, front, item);
        lemma_last_leaves::<T>(before, items.last(), item);
    }
}

/// An item under another key stays where one is entered.
proof fn lemma_last_leaves<T: Keyed>(before: Seq<T::V>, last: T::V, item: T::V)
    requires
        before.contains(item),
        T::key_of(last) != T::key_of(item),
    ensures
        ({
            let i = key_position::<T>(before, T::key_of(last));
            if i < before.len() {
                before.update(i, last)
            } else {
                before.push(last)
            }
        }).contains(item),
{
    let i = key_position::<T>(before, T::key_of(last));
    lemma_key_position::<T>(before, T::key_of(last));
    let w = choose|w: int| 0 <= w < before.len() && before[w] == item;
    if i < before.len() {
        assert(w != i);
        assert(before.update(i, last)[w] == item);
    } else {
        assert(before.push(last)[w] == item);
    }
}

proof fn lemma_with_last_takes<T: Keyed>(kept: Seq<T::V>, items: Seq<T::V>, j: int)
    requires
        0 <= j < items.len(),
        forall|k: int|
            j < k < items.len() ==> T::key_of(#[trigger] items[k]) != T::key_of(items[j]),
    ensures
        with_last::<T>(kept, items).contains(items[j]),
    decreases items.len(),
{
    let front = items.drop_last();
    let before = with_last::<T>(kept, front);
    let last = items.last();
    if j < front.len() {
        assert forall|k: int| j < k < front.len() implies T::key_of(#[trigger] front[k])
            != T::key_of(front[j]) by {
            assert(items[k] == front[k]);
        }
        lemma_with_last_takes::<T>(kept, front, j);
        assert(T::key_of(items[items.len() - 1]) != T::key_of(items[j]));
        lemma_last_leaves::<T>(before, last, items[j]);
    } else {
        let i = key_position::<T>(before, T::key_of(last));
        lemma_key_position::<T>(before, T::key_of(last));
        assert(with_last::<T>(kept, items)[i] == last);
    }
}

/// What gathers the first items of the lists does so with one list more.
pub proof fn lemma_gathers_first_more<T: Keyed>(
    all: Seq<T::V>,
    lists: Seq<Seq<T::V>>,
    items: Seq<T::V>,
)
    requires
        gathers_first::<T>(all, lists),
    ensures
        gathers_first::<T>(with_first::<T>(all, items), lists.push(items)),
{
    let result = with_first::<T>(all, items);
    let more = lists.push(items);
    law_with_first::<T>(all, items);
    lemma_gathers_more::<T>(all, lists, items, result);
    assert forall|i: int, j: int| #[trigger] stands_first::<T>(more, i, j) implies result.contains(
        more[i][j],
    ) by {
        let item = more[i][j];
        if i < lists.len() {
            assert(more[i] == lists[i]);
            assert forall|h: int| 0 <= h < i implies !holds_key::<T>(
                #[trigger] lists[h],
                T::key_of(item),
            ) by {
                assert(more[h] == lists[h]);
            }
            assert(stands_first::<T>(lists, i, j));
            let w = choose|w: int| 0 <= w < all.len() && all[w] == item;
            assert(result[w] == result.take(all.len() as int)[w]);
            assert(result.take(all.len() as int) =~= all);
        } else {
            assert(more[i] == items);
            assert(!holds_key::<T>(all, T::key_of(item))) by {
                if holds_key::<T>(all, T::key_of(item)) {
                    let h = choose|h: int|
                        0 <= h < lists.len() && holds_key::<T>(
                            #[trigger] lists[h],
                            T::key_of(item),
                        );
                    assert(more[h] == lists[h]);
                }
            }
            assert forall|k: int| 0 <= k < j implies T::key_of(#[trigger] items[k]) != T::key_of(
                items[j],
            ) by {
                assert(more[i][k] == items[k]);
            }
            lemma_with_first_takes::<T>(all, items, j);
        }
    }
}

/// What gathers the last items of the lists does so with one list more.
pub proof fn lemma_gathers_last_more<T: Keyed>(
    all: Seq<T::V>,
    lists: Seq<Seq<T::V>>,
    items: Seq<T::V>,
)
    requires
        gathers_last::<T>(all, lists),
    ensures
        gathers_last::<T>(with_last::<T>(all, items), lists.push(items)),
{
    let result = with_last::<T>(all, items);
    let more = lists.push(items);
    law_with_last_keys::<T>(all, items);
    lemma_gathers_more::<T>(all, lists, items, result);
    assert forall|i: int, j: int| #[trigger] stands_last::<T>(more, i, j) implies result.contains(
        more[i][j],
    ) by {
        let item = more[i][j];
        if i < lists.len() {
            assert(more[i] == lists[i]);
            assert forall|h: int| i < h < lists.len() implies !holds_key::<T>(
                #[trigger] lists[h],
                T::key_of(item),
            ) by {
                assert(more[h] == lists[h]);
            }
            assert(stands_last::<T>(lists, i, j));
            assert(more[lists.len() as int] == items);
            lemma_with_last_keeps::<T>(all, items, item);
        } else {
            assert(more[i] == items);
            assert forall|k: int| j < k < items.len() implies T::key_of(#[trigger] items[k])
                != T::key_of(items[j]) by {
                assert(more[i][k] == items[k]);
            }
            lemma_with_last_takes::<T>(all, items, j);
        }
    }
}

/// The keys that are there stay in their places when further items are entered.
pub proof fn law_keys_stay_in_place<T: Keyed>(kept: Seq<T::V>, items: Seq<T::V>)
    ensures
        keys_of::<T>(kept).is_prefix_of(keys_of::<T>(with_first::<T>(kept, items))),
        keys_of::<T>(kept).is_prefix_of(keys_of::<T>(with_last::<T>(kept, items))),
    decreases items.len(),
{
    let n = kept.len() as int;
    law_with_first::<T>(kept, items);
    let first = with_first::<T>(kept, items);
    assert forall|i: int| 0 <= i < n implies first[i] == kept[i] by {
        assert(first.take(n)[i] == first[i]);
    }
    assert(keys_of::<T>(first).take(n) =~= keys_of::<T>(kept));
    let last = with_last::<T>(kept, items);
    if items.len() > 0 {
        let before = with_last::<T>(kept, items.drop_last());
        law_keys_stay_in_place::<T>(kept, items.drop_last());
        let at = key_position::<T>(before, T::key_of(items.last()));
        lemma_key_position::<T>(before, T::key_of(items.last()));
        assert forall|i: int| 0 <= i < n implies keys_of::<T>(last)[i] == keys_of::<T>(kept)[i] by {
            assert(keys_of::<T>(before).take(n)[i] == keys_of::<T>(kept)[i]);
        }
    }
    assert(keys_of::<T>(last).take(n) =~= keys_of::<T>(kept));
}

/// Items that all have keys of their own are taken as they are.
pub proof fn law_distinct_items_are_all_taken<T: Keyed>(items: Seq<T::V>)
    requires
        unique_keys::<T>(items),
    ensures
        with_first::<T>(Seq::empty(), items) == items,
        with_last::<T>(Seq::empty(), items) == items,
    decreases items.len(),
{
    if items.len() > 0 {
        let front = items.drop_last();
        let last = items.last();
        assert forall|i: int, j: int| 0 <= i < j < front.len() implies T::key_of(
            #[trigger] front[i],
        ) != T::key_of(#[trigger] front[j]) by {
            assert(T::key_of(items[i]) != T::key_of(items[j]));
        }
        law_distinct_items_are_all_taken::<T>(front);
        lemma_key_position::<T>(front, T::key_of(last));
        assert(!holds_key::<T>(front, T::key_of(last))) by {
            if holds_key::<T>(front, T::key_of(last)) {
                let k = choose|k: int|
                    0 <= k < front.len() && T::key_of(#[trigger] front[k]) == T::key_of(last);
                assert(T::key_of(items[k]) != T::key_of(items[items.len() - 1]));
            }
        }
        assert(front.push(last) =~= items);
    } else {
        assert(items =~= Seq::empty());
    }
}

/// The names that two sets have in common are those of both, and all their names those of
/// either; a list of names as a set has each of them, and none twice.
pub proof fn law_sets_of_names(a: Seq<Seq<char>>, b: Seq<Seq<char>>, name: Seq<char>)
    ensures
        common_names(a, b).contains(name) <==> a.contains(name) && b.contains(name),
        all_names(a, b).contains(name) <==> a.contains(name) || b.contains(name),
        a.is_prefix_of(all_names(a, b)),
        set_of(a).contains(name) <==> a.contains(name),
        set_of(a).no_duplicates(),
{
    lemma_common_names(a, b, name);
    let keep = |n: Seq<char>| !a.contains(n);
    lemma_filter_item(b, keep, name);
    let more = b.filter(keep);
    let all = all_names(a, b);
    assert(all =~= a + more);
    if a.contains(name) {
        let i = choose|i: int| 0 <= i < a.len() && a[i] == name;
        assert(all[i] == name);
    }
    if more.contains(name) {
        let i = choose|i: int| 0 <= i < more.len() && more[i] == name;
        assert(all[a.len() + i] == name);
    }
    if all.contains(name) {
        let i = choose|i: int| 0 <= i < all.len() && all[i] == name;
        if i < a.len() {
            assert(a[i] == name);
        } else {
            assert(more[i - a.len()] == name);
        }
    }
    assert(all.take(a.len() as int) =~= a);
    lemma_set_of(a, name);
    lemma_set_has_none_twice(a);
}

proof fn lemma_set_has_none_twice(names: Seq<Seq<char>>)
    ensures
        set_of(names).no_duplicates(),
    decreases names.len(),
{
    if names.len() > 0 {
        lemma_set_has_none_twice(names.drop_last());
    }
}

/// A table of pairs holds under each key the value of its last pair.
pub proof fn law_last_pair_counts<V>(
    pairs: Seq<(Seq<char>, V)>,
    key: Seq<char>,
    value: V,
    other: Seq<char>,
)
    ensures
        lookup(table_of(pairs.push((key, value))), key) == Some(value),
        other != key ==> lookup(table_of(pairs.push((key, value))), other) == lookup(
            table_of(pairs),
            other,
        ),
        table_of(Seq::<(Seq<char>, V)>::empty()).len() == 0,
{
    assert(pairs.push((key, value)).drop_last() =~= pairs);
    law_lookup_after_insert(table_of(pairs), key, value, other);
}

/// Under a key the value of the first entry with that key is found.
pub proof fn law_first_entry_is_found<V>(entries: Seq<(Seq<char>, V)>, key: Seq<char>, i: int)
    requires
        0 <= i <= entries.len(),
        forall|k: int| 0 <= k < i ==> (#[trigger] entries[k]).0 != key,
    ensures
        i < entries.len() && entries[i].0 == key ==> lookup(entries, key) == Some(entries[i].1),
        i == entries.len() ==> lookup(entries, key) is None,
    decreases entries.len(),
{
    if i > 0 {
        let rest = entries.drop_first();
        assert forall|k: int| 0 <= k < i - 1 implies (#[trigger] rest[k]).0 != key by {
            assert(rest[k] == entries[k + 1]);
        }
        assert(entries[0].0 != key);
        law_first_entry_is_found(rest, key, i - 1);
    }
}

/// Of the items with a key the first is found, and none where none has it.
pub proof fn law_first_item_is_found<T: Keyed>(items: Seq<T::V>, key: Seq<char>, i: int)
    requires
        0 <= i <= items.len(),
        forall|k: int| 0 <= k < i ==> T::key_of(#[trigger] items[k]) != key,
    ensures
        i < items.len() && T::key_of(items[i]) == key ==> found::<T>(items, key) == Some(items[i]),
        i == items.len() ==> found::<T>(items, key) is None,
    decreases items.len(),
{
    if i > 0 {
        let rest = items.drop_first();
        assert forall|k: int| 0 <= k < i - 1 implies T::key_of(#[trigger] rest[k]) != key by {
            assert(rest[k] == items[k + 1]);
        }
        assert(T::key_of(items[0]) != key);
        law_first_item_is_found::<T>(rest, key, i - 1);
        let n = key_position::<T>(rest, key);
        assert(key_position::<T>(items, key) == n + 1);
        assert(0 <= n) by {
            lemma_position_is_natural::<T>(rest, key);
        }
    }
}

proof fn lemma_position_is_natural<T: Keyed>(items: Seq<T::V>, key: Seq<char>)
    ensures
        0 <= key_position::<T>(items, key) <= items.len(),
    decreases items.len(),
{
    if items.len() > 0 && T::key_of(items[0]) != key {
        lemma_position_is_natural::<T>(items.drop_first(), key);
    }
}

} // verus!
