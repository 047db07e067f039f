//! Text as sequences of characters.
//!
//! The specification functions say what each operation yields over
//! `Seq<char>`, the view of `str` and `String`. The executable functions of
//! the same sections compute it.

use vstd::prelude::*;

verus! {

// ─── Building strings ───────────────────────────────────────────────────────

/// `String::push` appends the character to the end of the string.
pub assume_specification[ String::push ](s: &mut String, ch: char)
    ensures
        final(s)@ == old(s)@.push(ch),
;

/// `String::push_str` appends the text to the end of the string.
pub assume_specification[ String::push_str ](s: &mut String, string: &str)
    ensures
        final(s)@ == old(s)@ + string@,
;

/// The characters of `s`, in order.
pub fn chars(s: &str) -> (r: Vec<char>)
    ensures
        r@ == s@,
{
    let mut r: Vec<char> = Vec::new();
    for c in it: s.chars()
        invariant
            r@ == it.seq().take(it.index() as int),
            it.seq() == s@,
    {
        r.push(c);
    }
    r
}

/// The text made of `v[from..to]`.
pub fn substring(v: &Vec<char>, from: usize, to: usize) -> (r: String)
    requires
        from <= to <= v.len(),
    ensures
        r@ == v@.subrange(from as int, to as int),
{
    let mut r = String::new();
    let mut i: usize = from;
    while i < to
        invariant
            from <= i <= to <= v.len(),
            r@ == v@.subrange(from as int, i as int),
        decreases to - i,
    {
        r.push(v[i]);
        i = i + 1;
    }
    r
}

/// Whether the two texts hold the same characters.
pub fn same(a: &str, b: &str) -> (r: bool)
    ensures
        r == (a@ == b@),
{
    a.to_string() == b.to_string()
}

/// The texts as a list of strings.
pub fn texts<const N: usize>(items: [&str; N]) -> (r: Vec<String>)
    ensures
        r.deep_view() == items.deep_view(),
{
    let mut r: Vec<String> = Vec::new();
    let mut i: usize = 0;
    while i < N
        invariant
            i <= N,
            r.deep_view() == items.deep_view().take(i as int),
        decreases N - i,
    {
        let item = items[i].to_string();
        let ghost before = r.deep_view();
        assert(items.deep_view()[i as int] == item@);
        r.push(item);
        assert(r.deep_view() =~= before.push(item@));
        i = i + 1;
        assert(r.deep_view() =~= items.deep_view().take(i as int));
    }
    assert(r.deep_view() =~= items.deep_view());
    r
}

/// `a` followed by `b`.
pub fn concat(a: &str, b: &str) -> (r: String)
    ensures
        r@ == a@ + b@,
{
    let mut r = a.to_string();
    r.push_str(b);
    r
}

// ─── Searching ──────────────────────────────────────────────────────────────

/// `needle` stands in `s` at position `i`.
pub open spec fn stands_at(s: Seq<char>, needle: Seq<char>, i: int) -> bool {
    &&& 0 <= i <= s.len() - needle.len()
    &&& s.subrange(i, i + needle.len()) == needle
}

/// `needle` stands somewhere in `s`.
pub open spec fn occurs(s: Seq<char>, needle: Seq<char>) -> bool {
    exists|i: int| stands_at(s, needle, i)
}

/// The number of characters of `s` before the first `c`: all of them where
/// there is no `c`.
pub open spec fn before_first(s: Seq<char>, c: char) -> nat
    decreases s.len(),
{
    if s.len() == 0 || s[0] == c {
        0
    } else {
        1 + before_first(s.drop_first(), c)
    }
}

/// The number of characters of `s` after the last `c`: all of them where
/// there is no `c`.
pub open spec fn after_last(s: Seq<char>, c: char) -> nat
    decreases s.len(),
{
    if s.len() == 0 || s.last() == c {
        0
    } else {
        1 + after_last(s.drop_last(), c)
    }
}

/// `before_first` is the only position that splits `s` as its name says.
pub proof fn lemma_before_first(s: Seq<char>, c: char, n: int)
    requires
        0 <= n <= s.len(),
        forall|k: int| 0 <= k < n ==> s[k] != c,
        n == s.len() || s[n] == c,
    ensures
        before_first(s, c) == n,
    decreases s.len(),
{
    if n > 0 {
        assert forall|k: int| 0 <= k < n - 1 implies s.drop_first()[k] != c by {
            assert(s.drop_first()[k] == s[k + 1]);
        }
        lemma_before_first(s.drop_first(), c, n - 1);
    }
}

/// `after_last` is the only count that splits `s` as its name says.
pub proof fn lemma_after_last(s: Seq<char>, c: char, n: int)
    requires
        0 <= n <= s.len(),
        forall|k: int| s.len() - n <= k < s.len() ==> s[k] != c,
        n == s.len() || s[s.len() - n - 1] == c,
    ensures
        after_last(s, c) == n,
    decreases s.len(),
{
    if n > 0 {
        lemma_after_last(s.drop_last(), c, n - 1);
    }
}

/// `before_first` lies within the text, and what it promises holds of it.
pub proof fn lemma_before_first_bounds(s: Seq<char>, c: char)
    ensures
        before_first(s, c) <= s.len(),
        forall|k: int| 0 <= k < before_first(s, c) ==> s[k] != c,
        before_first(s, c) < s.len() ==> s[before_first(s, c) as int] == c,
    decreases s.len(),
{
    if s.len() > 0 && s[0] != c {
        let t = s.drop_first();
        lemma_before_first_bounds(t, c);
        assert forall|k: int| 0 <= k < before_first(s, c) implies s[k] != c by {
            if k > 0 {
                assert(t[k - 1] == s[k]);
            }
        }
    }
}

/// Whether `needle` stands in `v` at position `i`.
pub fn matches_at(v: &Vec<char>, needle: &Vec<char>, i: usize) -> (r: bool)
    requires
        i <= v.len(),
    ensures
        r == stands_at(v@, needle@, i as int),
{
    if needle.len() > v.len() - i {
        return false;
    }
    let mut k: usize = 0;
    while k < needle.len()
        invariant
            k <= needle.len() <= v.len() - i,
            i <= v.len(),
            forall|j: int| 0 <= j < k ==> v@[i + j] == needle@[j],
        decreases needle.len() - k,
    {
        if v[i + k] != needle[k] {
            assert(v@.subrange(i as int, i + needle@.len())[k as int] != needle@[k as int]);
            return false;
        }
        k = k + 1;
    }
    assert(v@.subrange(i as int, i + needle@.len()) =~= needle@);
    true
}

/// Whether `needle` stands somewhere in `s`.
pub fn contains(s: &str, needle: &str) -> (r: bool)
    ensures
        r == occurs(s@, needle@),
{
    let v = chars(s);
    let n = chars(needle);
    let mut i: usize = 0;
    while i < v.len()
        invariant
            i <= v.len(),
            v@ == s@,
            n@ == needle@,
            forall|k: int| 0 <= k < i ==> !stands_at(s@, needle@, k),
        decreases v.len() - i,
    {
        if matches_at(&v, &n, i) {
            return true;
        }
        i = i + 1;
    }
    matches_at(&v, &n, i)
}

/// Whether `s` begins with `prefix`.
pub fn starts_with(s: &str, prefix: &str) -> (r: bool)
    ensures
        r == prefix@.is_prefix_of(s@),
{
    let v = chars(s);
    let p = chars(prefix);
    proof {
        if prefix@.len() <= s@.len() {
            assert(s@.subrange(0, prefix@.len() as int) =~= s@.take(prefix@.len() as int));
        }
    }
    matches_at(&v, &p, 0)
}

/// Whether `s` ends with `suffix`.
pub fn ends_with(s: &str, suffix: &str) -> (r: bool)
    ensures
        r == suffix@.is_suffix_of(s@),
{
    let v = chars(s);
    let p = chars(suffix);
    if p.len() > v.len() {
        return false;
    }
    matches_at(&v, &p, v.len() - p.len())
}

/// Whether `list` holds `item`.
pub fn list_contains(list: &Vec<String>, item: &str) -> (r: bool)
    ensures
        r == list.deep_view().contains(item@),
{
    let mut i: usize = 0;
    while i < list.len()
        invariant
            i <= list.len(),
            forall|k: int| 0 <= k < i ==> list.deep_view()[k] != item@,
        decreases list.len() - i,
    {
        if same(list[i].as_str(), item) {
            assert(list.deep_view()[i as int] == item@);
            return true;
        }
        i = i + 1;
    }
    false
}

// ─── White space and trimming ───────────────────────────────────────────────

/// The characters with the Unicode property `White_Space`.
pub open spec fn white_space(c: char) -> bool {
    ||| '\u{9}' <= c && c <= '\u{d}'
    ||| c == '\u{20}'
    ||| c == '\u{85}'
    ||| c == '\u{a0}'
    ||| c == '\u{1680}'
    ||| '\u{2000}' <= c && c <= '\u{200a}'
    ||| c == '\u{2028}'
    ||| c == '\u{2029}'
    ||| c == '\u{202f}'
    ||| c == '\u{205f}'
    ||| c == '\u{3000}'
}

/// `s` without the white space it begins with.
pub open spec fn trimmed_start(s: Seq<char>) -> Seq<char>
    decreases s.len(),
{
    if s.len() > 0 && white_space(s[0]) {
        trimmed_start(s.drop_first())
    } else {
        s
    }
}

/// `s` without the white space it ends with.
pub open spec fn trimmed_end(s: Seq<char>) -> Seq<char>
    decreases s.len(),
{
    if s.len() > 0 && white_space(s.last()) {
        trimmed_end(s.drop_last())
    } else {
        s
    }
}

/// `s` without the white space around it.
pub open spec fn trimmed(s: Seq<char>) -> Seq<char> {
    trimmed_end(trimmed_start(s))
}

/// `s` without the `c`s it begins and ends with.
pub open spec fn trimmed_of(s: Seq<char>, c: char) -> Seq<char> {
    trimmed_end_of(trimmed_start_of(s, c), c)
}

/// `s` without the `c`s it begins with.
pub open spec fn trimmed_start_of(s: Seq<char>, c: char) -> Seq<char>
    decreases s.len(),
{
    if s.len() > 0 && s[0] == c {
        trimmed_start_of(s.drop_first(), c)
    } else {
        s
    }
}

/// `s` without the `c`s it ends with.
pub open spec fn trimmed_end_of(s: Seq<char>, c: char) -> Seq<char>
    decreases s.len(),
{
    if s.len() > 0 && s.last() == c {
        trimmed_end_of(s.drop_last(), c)
    } else {
        s
    }
}

/// `s` without the copies of `word` it begins with.
pub open spec fn without_prefixes(s: Seq<char>, word: Seq<char>) -> Seq<char>
    decreases s.len(),
{
    if 0 < word.len() && word.is_prefix_of(s) {
        without_prefixes(s.skip(word.len() as int), word)
    } else {
        s
    }
}

/// `s` without the copies of `word` it ends with.
pub open spec fn without_suffixes(s: Seq<char>, word: Seq<char>) -> Seq<char>
    decreases s.len(),
{
    if 0 < word.len() && word.is_suffix_of(s) {
        without_suffixes(s.take(s.len() - word.len()), word)
    } else {
        s
    }
}

/// Whether `c` has the Unicode property `White_Space`.
pub fn is_whitespace(c: char) -> (r: bool)
    ensures
        r == white_space(c),
{
    ('\u{9}' <= c && c <= '\u{d}') || c == '\u{20}' || c == '\u{85}' || c == '\u{a0}' || c
        == '\u{1680}' || ('\u{2000}' <= c && c <= '\u{200a}') || c == '\u{2028}' || c == '\u{2029}'
        || c == '\u{202f}' || c == '\u{205f}' || c == '\u{3000}'
}

/// `s` without the white space it begins with.
pub fn trim_start(s: &str) -> (r: String)
    ensures
        r@ == trimmed_start(s@),
{
    let v = chars(s);
    let mut i: usize = 0;
    assert(s@.skip(0) =~= s@);
    while i < v.len() && is_whitespace(v[i])
        invariant
            i <= v.len(),
            v@ == s@,
            trimmed_start(s@) == trimmed_start(s@.skip(i as int)),
        decreases v.len() - i,
    {
        assert(s@.skip(i as int).drop_first() =~= s@.skip(i + 1));
        i = i + 1;
    }
    assert(s@.skip(i as int) =~= v@.subrange(i as int, v@.len() as int));
    substring(&v, i, v.len())
}

/// `s` without the white space it ends with.
pub fn trim_end(s: &str) -> (r: String)
    ensures
        r@ == trimmed_end(s@),
{
    let v = chars(s);
    let mut i: usize = v.len();
    assert(s@.take(s@.len() as int) =~= s@);
    while i > 0 && is_whitespace(v[i - 1])
        invariant
            i <= v.len(),
            v@ == s@,
            trimmed_end(s@) == trimmed_end(s@.take(i as int)),
        decreases i,
    {
        assert(s@.take(i as int).drop_last() =~= s@.take(i - 1));
        i = i - 1;
    }
    assert(s@.take(i as int) =~= v@.subrange(0, i as int));
    substring(&v, 0, i)
}

/// `s` without the white space around it.
pub fn trim(s: &str) -> (r: String)
    ensures
        r@ == trimmed(s@),
{
    let start = trim_start(s);
    trim_end(start.as_str())
}

/// Whether `s` holds nothing but white space.
pub fn is_blank(s: &str) -> (r: bool)
    ensures
        r == (trimmed(s@).len() == 0),
{
    let t = trim(s);
    t.as_str().is_empty()
}

/// `s` without the `c`s it begins and ends with.
pub fn trim_matches(s: &str, c: char) -> (r: String)
    ensures
        r@ == trimmed_of(s@, c),
{
    let v = chars(s);
    let mut i: usize = 0;
    assert(s@.skip(0) =~= s@);
    while i < v.len() && v[i] == c
        invariant
            i <= v.len(),
            v@ == s@,
            trimmed_start_of(s@, c) == trimmed_start_of(s@.skip(i as int), c),
        decreases v.len() - i,
    {
        assert(s@.skip(i as int).drop_first() =~= s@.skip(i + 1));
        i = i + 1;
    }
    let ghost t = s@.skip(i as int);
    let mut j: usize = v.len();
    assert(t.take(t.len() as int) =~= t);
    while j > i && v[j - 1] == c
        invariant
            i <= j <= v.len(),
            v@ == s@,
            t == s@.skip(i as int),
            trimmed_end_of(t, c) == trimmed_end_of(t.take(j - i), c),
        decreases j,
    {
        assert(t.take(j - i).drop_last() =~= t.take(j - i - 1));
        j = j - 1;
    }
    assert(t.take(j - i) =~= v@.subrange(i as int, j as int));
    substring(&v, i, j)
}

/// `s` without the copies of `word` it begins with.
pub fn trim_start_matches(s: &str, word: &str) -> (r: String)
    requires
        word@.len() > 0,
    ensures
        r@ == without_prefixes(s@, word@),
{
    let v = chars(s);
    let w = chars(word);
    let mut i: usize = 0;
    assert(s@.skip(0) =~= s@);
    while matches_at(&v, &w, i)
        invariant
            i <= v.len(),
            v@ == s@,
            w@ == word@,
            word@.len() > 0,
            without_prefixes(s@, word@) == without_prefixes(s@.skip(i as int), word@),
        decreases v.len() - i,
    {
        proof {
            let rest = s@.skip(i as int);
            assert(rest.take(word@.len() as int) =~= s@.subrange(i as int, i + word@.len()));
            assert(rest.skip(word@.len() as int) =~= s@.skip(i + word@.len()));
        }
        i = i + w.len();
    }
    proof {
        let rest = s@.skip(i as int);
        if word@.is_prefix_of(rest) {
            assert(s@.subrange(i as int, i + word@.len()) =~= rest.take(word@.len() as int));
            assert(false);
        }
        assert(rest =~= v@.subrange(i as int, v@.len() as int));
    }
    substring(&v, i, v.len())
}

/// `s` without the copies of `word` it ends with.
pub fn trim_end_matches(s: &str, word: &str) -> (r: String)
    requires
        word@.len() > 0,
    ensures
        r@ == without_suffixes(s@, word@),
{
    let v = chars(s);
    let w = chars(word);
    let mut i: usize = v.len();
    assert(s@.take(s@.len() as int) =~= s@);
    while w.len() <= i && matches_at(&v, &w, i - w.len())
        invariant
            i <= v.len(),
            v@ == s@,
            w@ == word@,
            word@.len() > 0,
            without_suffixes(s@, word@) == without_suffixes(s@.take(i as int), word@),
        decreases i,
    {
        proof {
            let rest = s@.take(i as int);
            let n = i - word@.len();
            assert(rest.skip(n) =~= s@.subrange(n, n + word@.len()));
            assert(word@.is_suffix_of(rest));
            assert(rest.take(n) =~= s@.take(n));
        }
        i = i - w.len();
    }
    proof {
        let rest = s@.take(i as int);
        if word@.is_suffix_of(rest) {
            let n = i - word@.len();
            assert(s@.subrange(n, n + word@.len()) =~= rest.skip(n));
            assert(false);
        }
        assert(rest =~= v@.subrange(0, i as int));
    }
    substring(&v, 0, i)
}

/// What follows `prefix` in `s`, where `s` begins with it.
pub fn strip_prefix(s: &str, prefix: &str) -> (r: Option<String>)
    ensures
        match r {
            Some(rest) => prefix@.is_prefix_of(s@) && rest@ == s@.skip(prefix@.len() as int),
            None => !prefix@.is_prefix_of(s@),
        },
{
    if starts_with(s, prefix) {
        let v = chars(s);
        let n = chars(prefix).len();
        assert(s@.skip(prefix@.len() as int) =~= v@.subrange(n as int, v@.len() as int));
        Some(substring(&v, n, v.len()))
    } else {
        None
    }
}

// ─── Lines ──────────────────────────────────────────────────────────────────

/// A line without the carriage return before its line feed.
pub open spec fn without_return(line: Seq<char>) -> Seq<char> {
    if line.len() > 0 && line.last() == '\r' {
        line.drop_last()
    } else {
        line
    }
}

/// The lines of `s`: each ends at a line feed, which is not part of it, nor is
/// the carriage return before it. What follows the last line feed is a line
/// unless it is empty.
pub open spec fn line_seq(s: Seq<char>) -> Seq<Seq<char>>
    decreases s.len(),
{
    let n = before_first(s, '\n') as int;
    if s.len() == 0 {
        Seq::empty()
    } else if n >= s.len() {
        seq![s]
    } else {
        seq![without_return(s.take(n))] + line_seq(s.skip(n + 1))
    }
}

/// The lines of `s`.
pub fn lines(s: &str) -> (r: Vec<String>)
    ensures
        r.deep_view() == line_seq(s@),
{
    let v = chars(s);
    let mut out: Vec<String> = Vec::new();
    let mut start: usize = 0;
    proof {
        assert(s@.skip(0) =~= s@);
        assert(out.deep_view() + line_seq(s@) =~= line_seq(s@));
    }
    while start < v.len()
        invariant
            start <= v.len(),
            v@ == s@,
            line_seq(s@) == out.deep_view() + line_seq(s@.skip(start as int)),
        decreases v.len() - start,
    {
        let mut j: usize = start;
        while j < v.len() && v[j] != '\n'
            invariant
                start <= j <= v.len(),
                v@ == s@,
                forall|k: int| start <= k < j ==> v@[k] != '\n',
            decreases v.len() - j,
        {
            j = j + 1;
        }
        let ghost rest = s@.skip(start as int);
        let ghost before = out.deep_view();
        proof {
            assert forall|k: int| 0 <= k < j - start implies rest[k] != '\n' by {
                assert(rest[k] == v@[start + k]);
            }
            lemma_before_first(rest, '\n', j - start);
        }
        if j == v.len() {
            let line = substring(&v, start, j);
            assert(line@ =~= rest);
            out.push(line);
            assert(out.deep_view() =~= before.push(rest));
            assert(line_seq(rest) =~= seq![rest]);
            assert(before + seq![rest] =~= before.push(rest));
            return out;
        }
        let end: usize = if j > start && v[j - 1] == '\r' {
            j - 1
        } else {
            j
        };
        let line = substring(&v, start, end);
        assert(line@ =~= without_return(rest.take(j - start)));
        out.push(line);
        proof {
            assert(rest.skip(j - start + 1) =~= s@.skip(j + 1));
            assert(out.deep_view() =~= before.push(line@));
            assert(before + (seq![line@] + line_seq(s@.skip(j + 1))) =~= before.push(line@)
                + line_seq(s@.skip(j + 1)));
        }
        start = j + 1;
    }
    assert(line_seq(s@.skip(start as int)) =~= Seq::<Seq<char>>::empty());
    assert(out.deep_view() + Seq::<Seq<char>>::empty() =~= out.deep_view());
    out
}

/// The first `n` lines of `list`: all of them where there are no more.
pub open spec fn first_lines(list: Seq<Seq<char>>, n: int) -> Seq<Seq<char>> {
    if n < list.len() {
        list.take(n)
    } else {
        list
    }
}

// ─── Joining and replacing ──────────────────────────────────────────────────

/// The parts in order, with `sep` between each two.
pub open spec fn joined(parts: Seq<Seq<char>>, sep: Seq<char>) -> Seq<char>
    decreases parts.len(),
{
    if parts.len() == 0 {
        Seq::empty()
    } else if parts.len() == 1 {
        parts[0]
    } else {
        joined(parts.drop_last(), sep) + sep + parts.last()
    }
}

/// `s` with each `from`, taken from the left and without overlap, replaced by
/// `to`.
pub open spec fn replaced(s: Seq<char>, from: Seq<char>, to: Seq<char>) -> Seq<char>
    decreases s.len(),
{
    if from.len() == 0 || s.len() < from.len() {
        s
    } else if from.is_prefix_of(s) {
        to + replaced(s.skip(from.len() as int), from, to)
    } else {
        seq![s[0]] + replaced(s.drop_first(), from, to)
    }
}

/// The parts in order, with `sep` between each two.
pub fn join(parts: &Vec<String>, sep: &str) -> (r: String)
    ensures
        r@ == joined(parts.deep_view(), sep@),
{
    join_first(parts, parts.len(), sep)
}

/// The first `n` parts in order, with `sep` between each two.
pub fn join_first(parts: &Vec<String>, n: usize, sep: &str) -> (r: String)
    requires
        n <= parts.len(),
    ensures
        r@ == joined(parts.deep_view().take(n as int), sep@),
        n == parts.len() ==> r@ == joined(parts.deep_view(), sep@),
{
    let mut out = String::new();
    let mut i: usize = 0;
    let ghost all = parts.deep_view();
    while i < n
        invariant
            i <= n <= parts.len(),
            all == parts.deep_view(),
            out@ == joined(all.take(i as int), sep@),
        decreases n - i,
    {
        assert(all.take(i + 1).drop_last() =~= all.take(i as int));
        if i > 0 {
            out.push_str(sep);
        }
        out.push_str(parts[i].as_str());
        assert(i == 0 ==> out@ =~= all[0]);
        i = i + 1;
    }
    assert(n == parts.len() ==> all.take(n as int) =~= all);
    out
}

/// `s` with each `from`, taken from the left and without overlap, replaced by
/// `to`.
pub fn replace(s: &str, from: &str, to: &str) -> (r: String)
    requires
        from@.len() > 0,
    ensures
        r@ == replaced(s@, from@, to@),
{
    let v = chars(s);
    let f = chars(from);
    let mut out = String::new();
    let mut i: usize = 0;
    proof {
        assert(s@.skip(0) =~= s@);
        assert(out@ + replaced(s@, from@, to@) =~= replaced(s@, from@, to@));
    }
    while i < v.len()
        invariant
            i <= v.len(),
            v@ == s@,
            f@ == from@,
            from@.len() > 0,
            replaced(s@, from@, to@) == out@ + replaced(s@.skip(i as int), from@, to@),
        decreases v.len() - i,
    {
        let ghost rest = s@.skip(i as int);
        let ghost before = out@;
        proof {
            if from@.len() <= rest.len() {
                assert(rest.take(from@.len() as int) =~= s@.subrange(i as int, i + from@.len()));
            }
        }
        if matches_at(&v, &f, i) {
            out.push_str(to);
            proof {
                let next = s@.skip(i + from@.len());
                assert(rest.skip(from@.len() as int) =~= next);
                assert(before + (to@ + replaced(next, from@, to@)) =~= out@ + replaced(
                    next,
                    from@,
                    to@,
                ));
            }
            i = i + f.len();
        } else {
            out.push(v[i]);
            proof {
                let next = s@.skip(i + 1);
                assert(rest.drop_first() =~= next);
                if rest.len() < from@.len() {
                    assert(rest =~= seq![rest[0]] + next);
                    assert(replaced(next, from@, to@) == next);
                }
                assert(before + (seq![rest[0]] + replaced(next, from@, to@)) =~= out@ + replaced(
                    next,
                    from@,
                    to@,
                ));
            }
            i = i + 1;
        }
    }
    assert(replaced(s@.skip(i as int), from@, to@) =~= Seq::<char>::empty());
    assert(out@ + Seq::<char>::empty() =~= out@);
    out
}

// ─── Numbers ────────────────────────────────────────────────────────────────

/// The decimal digit of value `d`.
pub open spec fn digit(d: int) -> char {
    if d == 0 {
        '0'
    } else if d == 1 {
        '1'
    } else if d == 2 {
        '2'
    } else if d == 3 {
        '3'
    } else if d == 4 {
        '4'
    } else if d == 5 {
        '5'
    } else if d == 6 {
        '6'
    } else if d == 7 {
        '7'
    } else if d == 8 {
        '8'
    } else {
        '9'
    }
}

/// The decimal notation of `n`, without leading zeros.
pub open spec fn digits(n: nat) -> Seq<char>
    decreases n,
{
    if n < 10 {
        seq![digit(n as int)]
    } else {
        digits(n / 10).push(digit((n % 10) as int))
    }
}

/// The decimal notation of `n`.
pub fn decimal(n: u64) -> (r: String)
    ensures
        r@ == digits(n as nat),
    decreases n,
{
    let last: u64 = n % 10;
    let c = if last == 0 {
        '0'
    } else if last == 1 {
        '1'
    } else if last == 2 {
        '2'
    } else if last == 3 {
        '3'
    } else if last == 4 {
        '4'
    } else if last == 5 {
        '5'
    } else if last == 6 {
        '6'
    } else if last == 7 {
        '7'
    } else if last == 8 {
        '8'
    } else {
        '9'
    };
    let mut r = if n < 10 {
        String::new()
    } else {
        decimal(n / 10)
    };
    r.push(c);
    assert(n < 10 ==> r@ =~= digits(n as nat));
    r
}

// ─── Letter case ────────────────────────────────────────────────────────────

/// The lower-case form of an ASCII letter; any other character as it is.
pub open spec fn ascii_lower(c: char) -> char {
    if 'A' <= c && c <= 'Z' {
        ((c as u8) + 32) as char
    } else {
        c
    }
}

/// `s` with its ASCII letters in lower case.
pub open spec fn ascii_lowered(s: Seq<char>) -> Seq<char> {
    s.map_values(|c: char| ascii_lower(c))
}

/// `s` with its ASCII letters in lower case.
pub fn to_ascii_lowercase(s: &str) -> (r: String)
    ensures
        r@ == ascii_lowered(s@),
{
    let v = chars(s);
    let mut r = String::new();
    let mut i: usize = 0;
    while i < v.len()
        invariant
            i <= v.len(),
            v@ == s@,
            r@ == ascii_lowered(s@.take(i as int)),
        decreases v.len() - i,
    {
        let c = v[i];
        if 'A' <= c && c <= 'Z' {
            r.push(((c as u8) + 32) as char);
        } else {
            r.push(c);
        }
        assert(ascii_lowered(s@.take(i + 1)) =~= ascii_lowered(s@.take(i as int)).push(
            ascii_lower(s@[i as int]),
        ));
        i = i + 1;
    }
    assert(s@.take(s@.len() as int) =~= s@);
    r
}

/// Whether the two texts are equal but for the case of ASCII letters.
pub fn eq_ignore_ascii_case(a: &str, b: &str) -> (r: bool)
    ensures
        r == (ascii_lowered(a@) == ascii_lowered(b@)),
{
    to_ascii_lowercase(a) == to_ascii_lowercase(b)
}

/// What `str::to_lowercase` returns: the lower-case form of the text by
/// Unicode's rules.
pub uninterp spec fn lowercased(s: Seq<char>) -> Seq<char>;

/// `str::to_lowercase`. Its result depends on the text alone; of a text of
/// ASCII characters it lowers the letters and keeps the rest.
#[verifier::external_body]
fn to_lowercase(s: &str) -> (r: String)
    ensures
        r@ == lowercased(s@),
        vstd::utf8::is_ascii_chars(s@) ==> r@ == ascii_lowered(s@),
{
    s.to_lowercase()
}

/// The text in lower case.
pub open spec fn in_lower_case(s: Seq<char>) -> Seq<char> {
    if vstd::utf8::is_ascii_chars(s) {
        ascii_lowered(s)
    } else {
        lowercased(s)
    }
}

/// The text in lower case.
pub fn lower(s: &str) -> (r: String)
    ensures
        r@ == in_lower_case(s@),
{
    to_lowercase(s)
}

/// The upper-case form of an ASCII letter; any other character as it is.
pub open spec fn ascii_upper(c: char) -> char {
    if 'a' <= c && c <= 'z' {
        ((c as u8) - 32) as char
    } else {
        c
    }
}

/// `s` with its ASCII letters in upper case.
pub open spec fn ascii_uppered(s: Seq<char>) -> Seq<char> {
    s.map_values(|c: char| ascii_upper(c))
}

/// What lowering makes of a text does not depend on the case of its letters, and
/// changing their case keeps an ASCII text one.
pub proof fn lemma_lowered_any_case(s: Seq<char>)
    ensures
        ascii_lowered(ascii_uppered(s)) == ascii_lowered(s),
        ascii_lowered(ascii_lowered(s)) == ascii_lowered(s),
        vstd::utf8::is_ascii_chars(s) ==> vstd::utf8::is_ascii_chars(ascii_uppered(s)),
        vstd::utf8::is_ascii_chars(s) ==> vstd::utf8::is_ascii_chars(ascii_lowered(s)),
{
    assert(ascii_lowered(ascii_uppered(s)) =~= ascii_lowered(s));
    assert(ascii_lowered(ascii_lowered(s)) =~= ascii_lowered(s));
}

proof fn lemma_trimmed_start_uppered(s: Seq<char>)
    ensures
        trimmed_start(ascii_uppered(s)) == ascii_uppered(trimmed_start(s)),
    decreases s.len(),
{
    if s.len() > 0 {
        assert(ascii_uppered(s).drop_first() =~= ascii_uppered(s.drop_first()));
        lemma_trimmed_start_uppered(s.drop_first());
    }
}

proof fn lemma_trimmed_end_uppered(s: Seq<char>)
    ensures
        trimmed_end(ascii_uppered(s)) == ascii_uppered(trimmed_end(s)),
    decreases s.len(),
{
    if s.len() > 0 {
        assert(ascii_uppered(s).drop_last() =~= ascii_uppered(s.drop_last()));
        lemma_trimmed_end_uppered(s.drop_last());
    }
}

/// Trimming goes past the case of the letters.
pub proof fn lemma_trimmed_uppered(s: Seq<char>)
    ensures
        trimmed(ascii_uppered(s)) == ascii_uppered(trimmed(s)),
{
    lemma_trimmed_start_uppered(s);
    lemma_trimmed_end_uppered(trimmed_start(s));
}

proof fn lemma_trimmed_start_first(s: Seq<char>)
    ensures
        trimmed_start(s).len() > 0 ==> !white_space(trimmed_start(s)[0]),
    decreases s.len(),
{
    if s.len() > 0 {
        lemma_trimmed_start_first(s.drop_first());
    }
}

proof fn lemma_trimmed_end_ends(s: Seq<char>)
    ensures
        trimmed_end(s).len() > 0 ==> {
            &&& !white_space(trimmed_end(s).last())
            &&& s.len() > 0
            &&& trimmed_end(s)[0] == s[0]
        },
    decreases s.len(),
{
    if s.len() > 0 {
        lemma_trimmed_end_ends(s.drop_last());
    }
}

/// A trimmed text stays as it is when it is trimmed again.
pub proof fn lemma_trimmed_twice(s: Seq<char>)
    ensures
        trimmed(trimmed(s)) == trimmed(s),
{
    lemma_trimmed_start_first(s);
    lemma_trimmed_end_ends(trimmed_start(s));
}

// ─── Order ──────────────────────────────────────────────────────────────────

/// `a` stands before `b` in the order of strings: at the first position where
/// they differ `a` has the smaller character, or `a` ends there.
pub open spec fn text_before(a: Seq<char>, b: Seq<char>) -> bool
    decreases a.len(),
{
    if b.len() == 0 {
        false
    } else if a.len() == 0 {
        true
    } else if a[0] != b[0] {
        a[0] < b[0]
    } else {
        text_before(a.drop_first(), b.drop_first())
    }
}

/// Whether `a` stands before `b` in the order of strings.
pub fn less(a: &str, b: &str) -> (r: bool)
    ensures
        r == text_before(a@, b@),
{
    let v = chars(a);
    let w = chars(b);
    let mut i: usize = 0;
    proof {
        assert(a@.skip(0) =~= a@);
        assert(b@.skip(0) =~= b@);
    }
    while i < v.len() && i < w.len()
        invariant
            i <= v.len(),
            i <= w.len(),
            v@ == a@,
            w@ == b@,
            text_before(a@, b@) == text_before(a@.skip(i as int), b@.skip(i as int)),
        decreases v.len() - i,
    {
        if v[i] != w[i] {
            return v[i] < w[i];
        }
        proof {
            assert(a@.skip(i as int).drop_first() =~= a@.skip(i + 1));
            assert(b@.skip(i as int).drop_first() =~= b@.skip(i + 1));
        }
        i = i + 1;
    }
    i < w.len()
}

/// Each text with `prefix` before it.
pub open spec fn prefixed(items: Seq<Seq<char>>, prefix: Seq<char>) -> Seq<Seq<char>> {
    items.map_values(|item: Seq<char>| prefix + item)
}

/// Each text with `prefix` before it.
pub fn prefix_all(items: &Vec<String>, prefix: &str) -> (r: Vec<String>)
    ensures
        r.deep_view() == prefixed(items.deep_view(), prefix@),
{
    let mut r: Vec<String> = Vec::new();
    let mut i: usize = 0;
    while i < items.len()
        invariant
            i <= items.len(),
            r.deep_view() == prefixed(items.deep_view().take(i as int), prefix@),
        decreases items.len() - i,
    {
        let ghost before = r.deep_view();
        let ghost item = items.deep_view()[i as int];
        assert(item == items@[i as int]@);
        r.push(concat(prefix, items[i].as_str()));
        assert(r.deep_view() =~= before.push(prefix@ + item));
        i = i + 1;
        assert(r.deep_view() =~= prefixed(items.deep_view().take(i as int), prefix@));
    }
    assert(items.deep_view().take(i as int) =~= items.deep_view());
    r
}

/// The parts one after the other.
pub open spec fn flattened(parts: Seq<Seq<char>>) -> Seq<char>
    decreases parts.len(),
{
    if parts.len() == 0 {
        Seq::empty()
    } else {
        flattened(parts.drop_last()) + parts.last()
    }
}

/// The parts one after the other.
pub fn flatten(parts: &Vec<String>) -> (r: String)
    ensures
        r@ == flattened(parts.deep_view()),
{
    let ghost all = parts.deep_view();
    let mut r = String::new();
    let mut i: usize = 0;
    while i < parts.len()
        invariant
            i <= parts.len(),
            all == parts.deep_view(),
            r@ == flattened(all.take(i as int)),
        decreases parts.len() - i,
    {
        assert(all.take(i + 1).drop_last() =~= all.take(i as int));
        assert(all[i as int] == parts@[i as int]@);
        r.push_str(parts[i].as_str());
        i = i + 1;
    }
    assert(all.take(i as int) =~= all);
    r
}

/// Each text between `before` and `after`.
pub open spec fn wrapped(items: Seq<Seq<char>>, before: Seq<char>, after: Seq<char>) -> Seq<
    Seq<char>,
> {
    items.map_values(|item: Seq<char>| before + item + after)
}

/// Each text between `before` and `after`.
pub fn wrap_all(items: &Vec<String>, before: &str, after: &str) -> (r: Vec<String>)
    ensures
        r.deep_view() == wrapped(items.deep_view(), before@, after@),
{
    let mut r: Vec<String> = Vec::new();
    let mut i: usize = 0;
    while i < items.len()
        invariant
            i <= items.len(),
            r.deep_view() == wrapped(items.deep_view().take(i as int), before@, after@),
        decreases items.len() - i,
    {
        let ghost done = r.deep_view();
        let ghost item = items.deep_view()[i as int];
        assert(item == items@[i as int]@);
        let mut text = before.to_string();
        text.push_str(items[i].as_str());
        text.push_str(after);
        r.push(text);
        assert(r.deep_view() =~= done.push(before@ + item + after@));
        i = i + 1;
        assert(r.deep_view() =~= wrapped(items.deep_view().take(i as int), before@, after@));
    }
    assert(items.deep_view().take(i as int) =~= items.deep_view());
    r
}

/// Both texts of each pair, with `before`, `between` and `after` around them.
pub open spec fn paired(
    pairs: Seq<(Seq<char>, Seq<char>)>,
    before: Seq<char>,
    between: Seq<char>,
    after: Seq<char>,
) -> Seq<Seq<char>> {
    pairs.map_values(|pair: (Seq<char>, Seq<char>)| before + pair.0 + between + pair.1 + after)
}

/// Both texts of each pair, with `before`, `between` and `after` around them.
pub fn pair_all(
    pairs: &Vec<(String, String)>,
    before: &str,
    between: &str,
    after: &str,
) -> (r: Vec<String>)
    ensures
        r.deep_view() == paired(pairs.deep_view(), before@, between@, after@),
{
    let ghost all = pairs.deep_view();
    let mut r: Vec<String> = Vec::new();
    let mut i: usize = 0;
    while i < pairs.len()
        invariant
            i <= pairs.len(),
            all == pairs.deep_view(),
            r.deep_view() == paired(all.take(i as int), before@, between@, after@),
        decreases pairs.len() - i,
    {
        let ghost done = r.deep_view();
        let ghost pair = all[i as int];
        assert(pair == (pairs@[i as int].0@, pairs@[i as int].1@));
        let mut text = before.to_string();
        text.push_str(pairs[i].0.as_str());
        text.push_str(between);
        text.push_str(pairs[i].1.as_str());
        text.push_str(after);
        r.push(text);
        assert(r.deep_view() =~= done.push(before@ + pair.0 + between@ + pair.1 + after@));
        i = i + 1;
        assert(r.deep_view() =~= paired(all.take(i as int), before@, between@, after@));
    }
    assert(all.take(i as int) =~= all);
    r
}

/// `s` with blanks behind it, up to a width of `n` characters.
pub open spec fn padded(s: Seq<char>, n: nat) -> Seq<char>
    decreases n - s.len(),
{
    if s.len() >= n {
        s
    } else {
        padded(s.push(' '), n)
    }
}

/// `s` with blanks behind it, up to a width of `n` characters.
pub fn pad(s: &str, n: usize) -> (r: String)
    ensures
        r@ == padded(s@, n as nat),
{
    let mut r = s.to_string();
    let mut len: usize = chars(s).len();
    while len < n
        invariant
            len == r@.len(),
            padded(s@, n as nat) == padded(r@, n as nat),
        decreases n - len,
    {
        r.push(' ');
        len = len + 1;
    }
    r
}

/// What stands between the `c`s of `s`: `s` itself where there is no `c`.
pub open spec fn split_on(s: Seq<char>, c: char) -> Seq<Seq<char>>
    decreases s.len(),
{
    let n = before_first(s, c) as int;
    if n >= s.len() {
        seq![s]
    } else {
        seq![s.take(n)] + split_on(s.skip(n + 1), c)
    }
}

/// What stands between the `c`s of `s`.
pub fn split(s: &str, c: char) -> (r: Vec<String>)
    ensures
        r.deep_view() == split_on(s@, c),
{
    let v = chars(s);
    let mut out: Vec<String> = Vec::new();
    let mut start: usize = 0;
    let mut j: usize = 0;
    proof {
        assert(s@.skip(0) =~= s@);
        assert(out.deep_view() + split_on(s@, c) =~= split_on(s@, c));
    }
    while j < v.len()
        invariant
            start <= j <= v.len(),
            v@ == s@,
            forall|k: int| start <= k < j ==> #[trigger] v@[k] != c,
            split_on(s@, c) == out.deep_view() + split_on(s@.skip(start as int), c),
        decreases v.len() - j,
    {
        if v[j] == c {
            let ghost rest = s@.skip(start as int);
            let ghost before = out.deep_view();
            proof {
                lemma_before_first(rest, c, j - start);
                assert(rest.skip(j - start + 1) =~= s@.skip(j + 1));
                assert(rest.take(j - start) =~= v@.subrange(start as int, j as int));
            }
            out.push(substring(&v, start, j));
            proof {
                assert(out.deep_view() =~= before.push(rest.take(j - start)));
                assert(before + split_on(rest, c) =~= out.deep_view() + split_on(
                    s@.skip(j + 1),
                    c,
                ));
            }
            start = j + 1;
        }
        j = j + 1;
    }
    let ghost rest = s@.skip(start as int);
    let ghost before = out.deep_view();
    proof {
        lemma_before_first(rest, c, rest.len() as int);
        assert(rest =~= v@.subrange(start as int, v@.len() as int));
    }
    out.push(substring(&v, start, v.len()));
    proof {
        assert(out.deep_view() =~= before.push(rest));
        assert(before + split_on(rest, c) =~= out.deep_view());
    }
    out
}

/// Whether `c` is a letter or a digit by Unicode's rules, as
/// `char::is_alphanumeric` says.
pub uninterp spec fn letter_or_digit(c: char) -> bool;

/// `char::is_alphanumeric`. Its result depends on the character alone; of the
/// ASCII characters it accepts the letters and the digits.
#[verifier::external_body]
pub(crate) fn is_alphanumeric(c: char) -> (r: bool)
    ensures
        r == letter_or_digit(c),
        c as u32 <= 0x7f ==> r == ('0' <= c <= '9' || 'a' <= c <= 'z' || 'A' <= c <= 'Z'),
{
    c.is_alphanumeric()
}

// ─── Byte lengths ───────────────────────────────────────────────────────────

/// The number of bytes of `c` in UTF-8.
pub open spec fn char_width(c: char) -> nat {
    if c as u32 <= 0x7f {
        1
    } else if c as u32 <= 0x7ff {
        2
    } else if c as u32 <= 0xffff {
        3
    } else {
        4
    }
}

/// The number of bytes of `s` in UTF-8.
pub open spec fn byte_len(s: Seq<char>) -> nat
    decreases s.len(),
{
    if s.len() == 0 {
        0
    } else {
        byte_len(s.drop_last()) + char_width(s.last())
    }
}

/// The least number of characters of `s` whose bytes number at least `max`:
/// all of them where `s` is shorter.
pub open spec fn chars_reaching(s: Seq<char>, max: nat) -> nat
    decreases s.len(),
{
    if max == 0 || s.len() == 0 {
        0
    } else {
        1 + chars_reaching(
            s.drop_first(),
            (if max <= char_width(s[0]) {
                0
            } else {
                max - char_width(s[0])
            }) as nat,
        )
    }
}

proof fn lemma_byte_len_first(s: Seq<char>)
    requires
        s.len() > 0,
    ensures
        byte_len(s) == char_width(s[0]) + byte_len(s.drop_first()),
    decreases s.len(),
{
    if s.len() > 1 {
        lemma_byte_len_first(s.drop_last());
        assert(s.drop_last().drop_first() =~= s.drop_first().drop_last());
    } else {
        assert(s.drop_last() =~= Seq::<char>::empty());
        assert(s.drop_first() =~= Seq::<char>::empty());
    }
}

proof fn lemma_encoded_len(s: Seq<char>)
    ensures
        vstd::utf8::encode_utf8(s).len() == byte_len(s),
    decreases s.len(),
{
    if s.len() > 0 {
        lemma_encoded_len(s.drop_first());
        lemma_byte_len_first(s);
        vstd::utf8::char_is_scalar(s[0]);
        assert(vstd::utf8::encode_scalar(s[0] as u32).len() == char_width(s[0]));
    }
}

/// A text has at least as many bytes as characters, and the bytes of its parts
/// add up.
pub proof fn lemma_byte_len_add(a: Seq<char>, b: Seq<char>)
    ensures
        byte_len(a + b) == byte_len(a) + byte_len(b),
        byte_len(a) >= a.len(),
    decreases b.len() + a.len(),
{
    if b.len() > 0 {
        assert((a + b).drop_last() =~= a + b.drop_last());
        lemma_byte_len_add(a, b.drop_last());
    } else {
        assert(a + b =~= a);
        if a.len() > 0 {
            lemma_byte_len_add(a.drop_last(), b);
        }
    }
}

/// The number of bytes of `s`.
pub fn len_bytes(s: &str) -> (n: usize)
    ensures
        n == byte_len(s@),
{
    proof {
        lemma_encoded_len(s@);
    }
    s.as_bytes().len()
}

/// The number of bytes of `c` in UTF-8.
fn width(c: char) -> (n: usize)
    ensures
        n == char_width(c),
{
    if c as u32 <= 0x7f {
        1
    } else if c as u32 <= 0x7ff {
        2
    } else if c as u32 <= 0xffff {
        3
    } else {
        4
    }
}

/// The shortest run of characters from the start of `s` that holds at least
/// `max` bytes.
pub fn take_reaching(s: &str, max: usize) -> (r: String)
    ensures
        chars_reaching(s@, max as nat) <= s@.len(),
        r@ == s@.take(chars_reaching(s@, max as nat) as int),
{
    let v = chars(s);
    let mut left: usize = max;
    let mut i: usize = 0;
    assert(s@.skip(0) =~= s@);
    while left > 0 && i < v.len()
        invariant
            i <= v.len(),
            v@ == s@,
            chars_reaching(s@, max as nat) == i + chars_reaching(s@.skip(i as int), left as nat),
        decreases v.len() - i,
    {
        let w = width(v[i]);
        assert(s@.skip(i as int).drop_first() =~= s@.skip(i + 1));
        left = if left <= w {
            0
        } else {
            left - w
        };
        i = i + 1;
    }
    assert(v@.subrange(0, i as int) =~= s@.take(i as int));
    substring(&v, 0, i)
}

/// What stands in the middle occurs in the whole.
pub proof fn lemma_occurs_inside(before: Seq<char>, middle: Seq<char>, after: Seq<char>)
    ensures
        occurs(before + middle + after, middle),
{
    let whole = before + middle + after;
    assert(whole.subrange(before.len() as int, before.len() as int + middle.len()) =~= middle);
    assert(stands_at(whole, middle, before.len() as int));
}

/// What occurs in a part of a text occurs in the text.
pub proof fn lemma_occurs_through(whole: Seq<char>, part: Seq<char>, needle: Seq<char>)
    requires
        occurs(whole, part),
        occurs(part, needle),
    ensures
        occurs(whole, needle),
{
    let i = choose|i: int| stands_at(whole, part, i);
    let j = choose|j: int| stands_at(part, needle, j);
    let k = i + j;
    assert(part.subrange(j, j + needle.len()) =~= whole.subrange(k, k + needle.len()));
    assert(stands_at(whole, needle, k));
}

/// Each of the parts occurs in what they are joined to.
pub proof fn lemma_joined_holds(parts: Seq<Seq<char>>, sep: Seq<char>, i: int)
    requires
        0 <= i < parts.len(),
    ensures
        occurs(joined(parts, sep), parts[i]),
    decreases parts.len(),
{
    let whole = joined(parts, sep);
    if parts.len() == 1 {
        lemma_occurs_inside(Seq::empty(), parts[0], Seq::empty());
        assert(Seq::<char>::empty() + parts[0] + Seq::<char>::empty() =~= whole);
    } else if i == parts.len() - 1 {
        let front = joined(parts.drop_last(), sep) + sep;
        lemma_occurs_inside(front, parts[i], Seq::empty());
        assert(front + parts[i] + Seq::<char>::empty() =~= whole);
    } else {
        let front = joined(parts.drop_last(), sep);
        lemma_joined_holds(parts.drop_last(), sep, i);
        lemma_occurs_inside(Seq::empty(), front, sep + parts.last());
        assert(Seq::<char>::empty() + front + (sep + parts.last()) =~= whole);
        lemma_occurs_through(whole, front, parts[i]);
    }
}

/// No more characters reach a number of bytes than there are.
pub proof fn lemma_reaching_bounds(s: Seq<char>, max: nat)
    ensures
        chars_reaching(s, max) <= s.len(),
    decreases s.len(),
{
    if max > 0 && s.len() > 0 {
        lemma_reaching_bounds(
            s.drop_first(),
            (if max <= char_width(s[0]) {
                0
            } else {
                max - char_width(s[0])
            }) as nat,
        );
    }
}

/// A text without bytes is empty.
pub proof fn lemma_byte_len_empty(s: Seq<char>)
    ensures
        byte_len(s) == 0 <==> s.len() == 0,
{
}

/// An ASCII text has as many bytes as characters.
pub proof fn lemma_ascii_byte_len(s: Seq<char>)
    requires
        forall|i: int| 0 <= i < s.len() ==> #[trigger] s[i] as u32 <= 0x7f,
    ensures
        byte_len(s) == s.len(),
    decreases s.len(),
{
    if s.len() > 0 {
        assert(s.last() as u32 <= 0x7f);
        lemma_ascii_byte_len(s.drop_last());
    }
}

/// The characters that reach a number of bytes hold at most three bytes more.
pub proof fn lemma_reaching_bytes(s: Seq<char>, max: nat)
    ensures
        chars_reaching(s, max) <= s.len(),
        byte_len(s.take(chars_reaching(s, max) as int)) <= max + 3,
        byte_len(s) >= max ==> byte_len(s.take(chars_reaching(s, max) as int)) >= max,
    decreases s.len(),
{
    lemma_reaching_bounds(s, max);
    let n = chars_reaching(s, max) as int;
    let kept = s.take(n);
    if max > 0 && s.len() > 0 {
        let left = (if max <= char_width(s[0]) {
            0
        } else {
            max - char_width(s[0])
        }) as nat;
        lemma_reaching_bytes(s.drop_first(), left);
        lemma_byte_len_first(kept);
        lemma_byte_len_first(s);
        assert(kept.drop_first() =~= s.drop_first().take(n - 1));
        if left == 0 {
            assert(kept.drop_first() =~= Seq::<char>::empty());
        }
    } else {
        assert(kept =~= Seq::<char>::empty());
        if s.len() == 0 {
            assert(byte_len(s) == 0);
        }
    }
}

// ─── What stands in a text in order ─────────────────────────────────────────

/// The pieces stand in `s` one behind the other, in this order.
pub open spec fn in_order(s: Seq<char>, pieces: Seq<Seq<char>>) -> bool
    decreases pieces.len(),
{
    if pieces.len() == 0 {
        true
    } else {
        exists|i: int| #[trigger]
            stands_at(s, pieces.last(), i) && in_order(s.take(i), pieces.drop_last())
    }
}

/// Both texts of each pair, one pair behind the other.
pub open spec fn both(pairs: Seq<(Seq<char>, Seq<char>)>) -> Seq<Seq<char>>
    decreases pairs.len(),
{
    if pairs.len() == 0 {
        Seq::empty()
    } else {
        both(pairs.drop_last()).push(pairs.last().0).push(pairs.last().1)
    }
}

/// The texts of each pair stand one behind the other.
pub proof fn lemma_both(pairs: Seq<(Seq<char>, Seq<char>)>, i: int)
    ensures
        both(pairs).len() == 2 * pairs.len(),
        0 <= i < pairs.len() ==> both(pairs)[2 * i] == pairs[i].0 && both(pairs)[2 * i + 1]
            == pairs[i].1,
    decreases pairs.len(),
{
    if pairs.len() > 0 {
        lemma_both(pairs.drop_last(), i);
    }
}

/// Each piece occurs in a text in which the pieces stand in order.
pub proof fn law_each_piece_occurs(s: Seq<char>, pieces: Seq<Seq<char>>, i: int)
    requires
        in_order(s, pieces),
        0 <= i < pieces.len(),
    ensures
        occurs(s, pieces[i]),
    decreases pieces.len(),
{
    let n = choose|n: int| #[trigger]
        stands_at(s, pieces.last(), n) && in_order(s.take(n), pieces.drop_last());
    if i < pieces.len() - 1 {
        law_each_piece_occurs(s.take(n), pieces.drop_last(), i);
        lemma_occurs_inside(Seq::empty(), s.take(n), s.skip(n));
        assert(Seq::<char>::empty() + s.take(n) + s.skip(n) =~= s);
        lemma_occurs_through(s, s.take(n), pieces[i]);
    }
}

/// What follows changes nothing of what stands in order.
pub proof fn lemma_in_order_before(s: Seq<char>, pieces: Seq<Seq<char>>, after: Seq<char>)
    requires
        in_order(s, pieces),
    ensures
        in_order(s + after, pieces),
{
    if pieces.len() > 0 {
        let i = choose|i: int| #[trigger]
            stands_at(s, pieces.last(), i) && in_order(s.take(i), pieces.drop_last());
        let whole = s + after;
        assert(whole.subrange(i, i + pieces.last().len()) =~= s.subrange(
            i,
            i + pieces.last().len(),
        ));
        assert(whole.take(i) =~= s.take(i));
        assert(stands_at(whole, pieces.last(), i));
    }
}

/// A piece that follows stands behind the others.
pub proof fn lemma_in_order_piece(s: Seq<char>, pieces: Seq<Seq<char>>, piece: Seq<char>)
    requires
        in_order(s, pieces),
    ensures
        in_order(s + piece, pieces.push(piece)),
{
    let whole = s + piece;
    let i = s.len() as int;
    assert(whole.subrange(i, i + piece.len()) =~= piece);
    assert(whole.take(i) =~= s);
    assert(pieces.push(piece).drop_last() =~= pieces);
    assert(stands_at(whole, pieces.push(piece).last(), i));
}

/// What stands in order in two texts does so in both together.
pub proof fn lemma_in_order_add(
    a: Seq<char>,
    of_a: Seq<Seq<char>>,
    b: Seq<char>,
    of_b: Seq<Seq<char>>,
)
    requires
        in_order(a, of_a),
        in_order(b, of_b),
    ensures
        in_order(a + b, of_a + of_b),
    decreases of_b.len(),
{
    if of_b.len() == 0 {
        lemma_in_order_before(a, of_a, b);
        assert(of_a + of_b =~= of_a);
    } else {
        let i = choose|i: int| #[trigger]
            stands_at(b, of_b.last(), i) && in_order(b.take(i), of_b.drop_last());
        let whole = a + b;
        let k = a.len() + i;
        lemma_in_order_add(a, of_a, b.take(i), of_b.drop_last());
        assert(whole.take(k) =~= a + b.take(i));
        assert((of_a + of_b).drop_last() =~= of_a + of_b.drop_last());
        assert(whole.subrange(k, k + of_b.last().len()) =~= b.subrange(i, i + of_b.last().len()));
        assert(stands_at(whole, (of_a + of_b).last(), k));
    }
}

/// A piece stands in order between what stands before it and behind it.
pub proof fn lemma_in_order_between(before: Seq<char>, piece: Seq<char>, after: Seq<char>)
    ensures
        in_order(before + piece + after, seq![piece]),
{
    assert(in_order(before, Seq::empty()));
    lemma_in_order_piece(before, Seq::empty(), piece);
    assert(Seq::<Seq<char>>::empty().push(piece) =~= seq![piece]);
    lemma_in_order_before(before + piece, seq![piece], after);
}

/// Texts between others stand in order.
pub proof fn lemma_wrapped_in_order(
    items: Seq<Seq<char>>,
    before: Seq<char>,
    after: Seq<char>,
)
    ensures
        in_order(flattened(wrapped(items, before, after)), items),
    decreases items.len(),
{
    if items.len() > 0 {
        let front = items.drop_last();
        let item = items.last();
        lemma_wrapped_in_order(front, before, after);
        lemma_in_order_between(before, item, after);
        lemma_in_order_add(
            flattened(wrapped(front, before, after)),
            front,
            before + item + after,
            seq![item],
        );
        assert(front + seq![item] =~= items);
        assert(wrapped(items, before, after).drop_last() =~= wrapped(front, before, after));
    }
}

/// Texts that are joined stand in order.
pub proof fn lemma_joined_in_order(items: Seq<Seq<char>>, sep: Seq<char>)
    ensures
        in_order(joined(items, sep), items),
    decreases items.len(),
{
    if items.len() == 1 {
        lemma_in_order_between(Seq::empty(), items[0], Seq::empty());
        assert(Seq::<char>::empty() + items[0] + Seq::<char>::empty() =~= items[0]);
        assert(seq![items[0]] =~= items);
    } else if items.len() > 1 {
        let front = items.drop_last();
        lemma_joined_in_order(front, sep);
        lemma_in_order_before(joined(front, sep), front, sep);
        lemma_in_order_piece(joined(front, sep) + sep, front, items.last());
        assert(front.push(items.last()) =~= items);
    }
}

/// What stands in order in each part does so in the parts one after the other.
pub proof fn lemma_flattened_in_order(parts: Seq<Seq<char>>, pieces: Seq<Seq<Seq<char>>>)
    requires
        parts.len() == pieces.len(),
        forall|i: int| 0 <= i < parts.len() ==> in_order(#[trigger] parts[i], pieces[i]),
    ensures
        in_order(flattened(parts), pieces.flatten_alt()),
    decreases parts.len(),
{
    if parts.len() > 0 {
        let front = parts.drop_last();
        let firsts = pieces.drop_last();
        assert forall|i: int| 0 <= i < front.len() implies in_order(
            #[trigger] front[i],
            firsts[i],
        ) by {
            assert(in_order(parts[i], pieces[i]));
        }
        lemma_flattened_in_order(front, firsts);
        assert(in_order(parts[parts.len() - 1], pieces[parts.len() - 1]));
        lemma_in_order_add(
            flattened(front),
            firsts.flatten_alt(),
            parts.last(),
            pieces.last(),
        );
    }
}

/// Pairs between other texts stand in order.
pub proof fn lemma_paired_in_order(
    pairs: Seq<(Seq<char>, Seq<char>)>,
    before: Seq<char>,
    between: Seq<char>,
    after: Seq<char>,
)
    ensures
        in_order(flattened(paired(pairs, before, between, after)), both(pairs)),
    decreases pairs.len(),
{
    if pairs.len() > 0 {
        let front = pairs.drop_last();
        let (one, other) = pairs.last();
        let start = flattened(paired(front, before, between, after));
        lemma_paired_in_order(front, before, between, after);
        lemma_in_order_before(start, both(front), before);
        lemma_in_order_piece(start + before, both(front), one);
        lemma_in_order_before(start + before + one, both(front).push(one), between);
        lemma_in_order_piece(start + before + one + between, both(front).push(one), other);
        lemma_in_order_before(start + before + one + between + other, both(pairs), after);
        assert(paired(pairs, before, between, after).drop_last() =~= paired(
            front,
            before,
            between,
            after,
        ));
        assert(start + before + one + between + other + after =~= flattened(
            paired(pairs, before, between, after),
        ));
    }
}

/// Joined pairs stand in order.
pub proof fn lemma_joined_pairs_in_order(
    pairs: Seq<(Seq<char>, Seq<char>)>,
    before: Seq<char>,
    between: Seq<char>,
    after: Seq<char>,
    sep: Seq<char>,
)
    ensures
        in_order(joined(paired(pairs, before, between, after), sep), both(pairs)),
    decreases pairs.len(),
{
    let parts = paired(pairs, before, between, after);
    if pairs.len() > 0 {
        let front = pairs.drop_last();
        let (one, other) = pairs.last();
        let start = if front.len() == 0 {
            Seq::empty()
        } else {
            joined(parts.drop_last(), sep) + sep
        };
        assert(parts.drop_last() =~= paired(front, before, between, after));
        lemma_joined_pairs_in_order(front, before, between, after, sep);
        if front.len() > 0 {
            lemma_in_order_before(joined(parts.drop_last(), sep), both(front), sep);
        }
        assert(in_order(start, both(front)));
        lemma_in_order_before(start, both(front), before);
        lemma_in_order_piece(start + before, both(front), one);
        lemma_in_order_before(start + before + one, both(front).push(one), between);
        lemma_in_order_piece(start + before + one + between, both(front).push(one), other);
        lemma_in_order_before(start + before + one + between + other, both(pairs), after);
        assert(start + before + one + between + other + after =~= joined(parts, sep));
    }
}

/// A padded text begins with the text, and blanks follow.
pub proof fn lemma_padded(s: Seq<char>, n: nat)
    ensures
        s.is_prefix_of(padded(s, n)),
        padded(s, n).len() == (if s.len() >= n {
            s.len()
        } else {
            n
        }),
        forall|i: int| s.len() <= i < padded(s, n).len() ==> #[trigger] padded(s, n)[i] == ' ',
    decreases n - s.len(),
{
    if s.len() < n {
        let more = s.push(' ');
        lemma_padded(more, n);
        let whole = padded(more, n);
        assert(whole.take(s.len() as int) =~= s) by {
            assert(whole.take(more.len() as int) =~= more);
            assert(more.take(s.len() as int) =~= s);
            assert(whole.take(s.len() as int) =~= whole.take(more.len() as int).take(
                s.len() as int,
            ));
        }
        assert(whole[s.len() as int] == whole.take(more.len() as int)[s.len() as int]);
    } else {
        assert(s.take(s.len() as int) =~= s);
    }
}

/// A text is blank where it is white space throughout.
pub proof fn lemma_blank(s: Seq<char>)
    ensures
        trimmed(s).len() == 0 <==> forall|i: int|
            0 <= i < s.len() ==> white_space(#[trigger] s[i]),
{
    lemma_blank_start(s);
    let rest = trimmed_start(s);
    lemma_trimmed_start_first(s);
    lemma_blank_end(rest);
}

proof fn lemma_blank_start(s: Seq<char>)
    ensures
        trimmed_start(s).len() == 0 <==> forall|i: int|
            0 <= i < s.len() ==> white_space(#[trigger] s[i]),
    decreases s.len(),
{
    if s.len() > 0 {
        let rest = s.drop_first();
        lemma_blank_start(rest);
        assert forall|i: int| 0 <= i < rest.len() implies #[trigger] rest[i] == s[i + 1] by {}
        if (forall|i: int| 0 <= i < rest.len() ==> white_space(#[trigger] rest[i]))
            && white_space(s[0]) {
            assert forall|i: int| 0 <= i < s.len() implies white_space(#[trigger] s[i]) by {
                if i > 0 {
                    assert(white_space(rest[i - 1]));
                }
            }
        }
    }
}

proof fn lemma_blank_end(s: Seq<char>)
    requires
        s.len() > 0 ==> !white_space(s[0]),
    ensures
        trimmed_end(s).len() == 0 <==> s.len() == 0,
    decreases s.len(),
{
    if s.len() > 1 {
        lemma_blank_end(s.drop_last());
    }
}

// ─── Paths ──────────────────────────────────────────────────────────────────

/// The components of a Unix path: the root where the path begins with it, or else a
/// dot where the path begins with one as a part; and the other parts, without those
/// that are empty or a dot.
pub open spec fn path_components(path: Seq<char>) -> Seq<Seq<char>> {
    let parts = split_on(path, '/');
    (if path.len() > 0 && path[0] == '/' {
        seq!["/"@]
    } else if parts[0] == "."@ {
        seq!["."@]
    } else {
        Seq::empty()
    }) + parts.filter(|part: Seq<char>| part.len() > 0 && part != "."@)
}

/// The components of a Unix path.
fn components(path: &str) -> (r: Vec<String>)
    ensures
        r.deep_view() == path_components(path@),
{
    let parts = split(path, '/');
    let ghost all = parts.deep_view();
    let ghost keep = |part: Seq<char>| part.len() > 0 && part != "."@;
    let mut r: Vec<String> = Vec::new();
    proof {
        reveal_strlit("/");
        reveal_strlit("");
        assert(all.len() > 0);
        assert(all[0] == parts@[0]@);
        assert("/"@ =~= seq!['/']);
        if path@.len() > 0 && path@[0] == '/' {
            assert("/"@ =~= path@.subrange(0, 1));
        }
    }
    if starts_with(path, "/") {
        assert(path@[0] == path@.subrange(0, 1)[0]);
        r.push("/".to_string());
        assert(r.deep_view() =~= seq!["/"@]);
    } else if same(parts[0].as_str(), ".") {
        r.push(".".to_string());
        assert(r.deep_view() =~= seq!["."@]);
    }
    let ghost start = r.deep_view();
    assert(start =~= (if path@.len() > 0 && path@[0] == '/' {
        seq!["/"@]
    } else if all[0] == "."@ {
        seq!["."@]
    } else {
        Seq::empty()
    }));
    let mut i: usize = 0;
    proof {
        reveal(Seq::filter);
        assert(start + all.take(0).filter(keep) =~= start);
    }
    while i < parts.len()
        invariant
            i <= parts.len(),
            all == parts.deep_view(),
            keep == (|part: Seq<char>| part.len() > 0 && part != "."@),
            r.deep_view() == start + all.take(i as int).filter(keep),
        decreases parts.len() - i,
    {
        let ghost before = r.deep_view();
        proof {
            reveal(Seq::filter);
            reveal_strlit("");
            assert(all.take(i + 1).drop_last() =~= all.take(i as int));
            assert(all[i as int] == parts@[i as int]@);
            assert(all[i as int].len() == 0 <==> all[i as int] =~= ""@);
        }
        let part = parts[i].as_str();
        if !same(part, "") && !same(part, ".") {
            r.push(parts[i].clone());
            assert(r.deep_view() =~= before.push(all[i as int]));
            assert(r.deep_view() =~= start + all.take(i + 1).filter(keep));
        }
        i = i + 1;
    }
    proof {
        assert(all.take(i as int) =~= all);
        assert(keep =~= |part: Seq<char>| part.len() > 0 && part != "."@);
    }
    r
}

/// Whether the two Unix paths have the same components.
pub fn same_path(a: &str, b: &str) -> (r: bool)
    ensures
        r == (path_components(a@) == path_components(b@)),
{
    let left = components(a);
    let right = components(b);
    let ghost x = left.deep_view();
    let ghost y = right.deep_view();
    assert(x.len() == left@.len() && y.len() == right@.len());
    if left.len() != right.len() {
        return false;
    }
    let mut i: usize = 0;
    while i < left.len()
        invariant
            i <= left.len(),
            left.len() == right.len(),
            x == left.deep_view(),
            y == right.deep_view(),
            x == path_components(a@),
            y == path_components(b@),
            forall|k: int| 0 <= k < i ==> x[k] == y[k],
        decreases left.len() - i,
    {
        assert(x[i as int] == left@[i as int]@ && y[i as int] == right@[i as int]@);
        if !same(left[i].as_str(), right[i].as_str()) {
            return false;
        }
        i = i + 1;
    }
    assert(x =~= y);
    true
}

/// One of the paths has the components of `path`.
pub open spec fn holds_path(paths: Seq<Seq<char>>, path: Seq<char>) -> bool {
    exists|i: int|
        0 <= i < paths.len() && path_components(#[trigger] paths[i]) == path_components(path)
}

/// Whether one of the paths has the components of `path`.
pub fn list_holds_path(paths: &Vec<String>, path: &str) -> (r: bool)
    ensures
        r == holds_path(paths.deep_view(), path@),
{
    let ghost all = paths.deep_view();
    let mut i: usize = 0;
    while i < paths.len()
        invariant
            i <= paths.len(),
            all == paths.deep_view(),
            forall|k: int|
                0 <= k < i ==> path_components(#[trigger] all[k]) != path_components(path@),
        decreases paths.len() - i,
    {
        assert(all[i as int] == paths@[i as int]@);
        if same_path(paths[i].as_str(), path) {
            return true;
        }
        i = i + 1;
    }
    false
}

// ─── What the operations on texts keep ──────────────────────────────────────

/// The first place where the text to replace can begin is where it stands, where what
/// stands before it has no character that it begins with.
pub proof fn lemma_replaced_at(a: Seq<char>, from: Seq<char>, b: Seq<char>, to: Seq<char>)
    requires
        from.len() > 0,
        !a.contains(from[0]),
    ensures
        replaced(a + from + b, from, to) == a + to + replaced(b, from, to),
    decreases a.len(),
{
    let s = a + from + b;
    if a.len() == 0 {
        assert(from =~= s.take(from.len() as int));
        assert(s.skip(from.len() as int) =~= b);
        assert(a + to + replaced(b, from, to) =~= to + replaced(b, from, to));
    } else {
        let rest = a.drop_first();
        assert(s[0] == a[0]);
        assert(a.contains(a[0]));
        assert(!from.is_prefix_of(s)) by {
            if from.is_prefix_of(s) {
                assert(s[0] == s.take(from.len() as int)[0]);
            }
        }
        assert(!rest.contains(from[0])) by {
            if rest.contains(from[0]) {
                let i = choose|i: int| 0 <= i < rest.len() && rest[i] == from[0];
                assert(a[i + 1] == from[0]);
            }
        }
        lemma_replaced_at(rest, from, b, to);
        assert(s.drop_first() =~= rest + from + b);
        assert(seq![s[0]] + (rest + to + replaced(b, from, to)) =~= a + to + replaced(
            b,
            from,
            to,
        ));
    }
}

/// A text without the character that the text to replace begins with stays as it is.
pub proof fn lemma_nothing_replaced(s: Seq<char>, from: Seq<char>, to: Seq<char>)
    requires
        from.len() > 0,
        !s.contains(from[0]),
    ensures
        replaced(s, from, to) == s,
    decreases s.len(),
{
    if s.len() >= from.len() {
        let rest = s.drop_first();
        assert(s.contains(s[0]));
        assert(!from.is_prefix_of(s)) by {
            if from.is_prefix_of(s) {
                assert(s[0] == s.take(from.len() as int)[0]);
            }
        }
        assert(!rest.contains(from[0])) by {
            if rest.contains(from[0]) {
                let i = choose|i: int| 0 <= i < rest.len() && rest[i] == from[0];
                assert(s[i + 1] == from[0]);
            }
        }
        lemma_nothing_replaced(rest, from, to);
        assert(seq![s[0]] + rest =~= s);
    }
}


/// White space around a text is taken off, and nothing else; of white space alone nothing
/// stays.
pub proof fn law_trimmed(before: Seq<char>, s: Seq<char>, after: Seq<char>)
    requires
        forall|i: int| 0 <= i < before.len() ==> white_space(#[trigger] before[i]),
        forall|i: int| 0 <= i < after.len() ==> white_space(#[trigger] after[i]),
        s.len() > 0 ==> !white_space(s[0]) && !white_space(s.last()),
    ensures
        trimmed(before + s + after) == s,
        s.len() > 0 ==> trimmed_start(before + s + after) == s + after,
        s.len() > 0 ==> trimmed_end(before + s + after) == before + s,
{
    let whole = before + s + after;
    if s.len() > 0 {
        lemma_start_taken_off(before, s + after);
        assert(before + (s + after) =~= whole);
        lemma_end_taken_off(s, after);
        lemma_end_taken_off(before + s, after);
    } else {
        assert forall|i: int| 0 <= i < whole.len() implies white_space(#[trigger] whole[i]) by {
            if i < before.len() {
                assert(whole[i] == before[i]);
            } else {
                assert(whole[i] == after[i - before.len()]);
            }
        }
        lemma_start_taken_off(whole, Seq::empty());
        assert(whole + Seq::<char>::empty() =~= whole);
        assert(s =~= Seq::<char>::empty());
    }
}

proof fn lemma_start_taken_off(before: Seq<char>, s: Seq<char>)
    requires
        forall|i: int| 0 <= i < before.len() ==> white_space(#[trigger] before[i]),
        s.len() > 0 ==> !white_space(s[0]),
    ensures
        trimmed_start(before + s) == s,
    decreases before.len(),
{
    let whole = before + s;
    if before.len() > 0 {
        let rest = before.drop_first();
        assert forall|i: int| 0 <= i < rest.len() implies white_space(#[trigger] rest[i]) by {
            assert(rest[i] == before[i + 1]);
        }
        assert(white_space(before[0]));
        assert(whole[0] == before[0]);
        assert(whole.drop_first() =~= rest + s);
        lemma_start_taken_off(rest, s);
    } else {
        assert(whole =~= s);
    }
}

proof fn lemma_end_taken_off(s: Seq<char>, after: Seq<char>)
    requires
        forall|i: int| 0 <= i < after.len() ==> white_space(#[trigger] after[i]),
        s.len() > 0 ==> !white_space(s.last()),
    ensures
        trimmed_end(s + after) == s,
    decreases after.len(),
{
    let whole = s + after;
    if after.len() > 0 {
        let rest = after.drop_last();
        assert forall|i: int| 0 <= i < rest.len() implies white_space(#[trigger] rest[i]) by {
            assert(rest[i] == after[i]);
        }
        assert(white_space(after[after.len() - 1]));
        assert(whole.last() == after.last());
        assert(whole.drop_last() =~= s + rest);
        lemma_end_taken_off(s, rest);
    } else {
        assert(whole =~= s);
    }
}

/// A line ends before its line break: the lines of a text that begins with one are that
/// line, without a carriage return at its end, and the lines of what follows the break. A
/// last line needs no break, and no text has no lines.
pub proof fn law_lines(line: Seq<char>, rest: Seq<char>)
    requires
        !line.contains('\n'),
    ensures
        line_seq(line + seq!['\n'] + rest) == seq![without_return(line)] + line_seq(rest),
        line.len() > 0 ==> line_seq(line) == seq![line],
        line_seq(Seq::empty()).len() == 0,
        without_return(line.push('\r')) == line,
        line.len() == 0 || line.last() != '\r' ==> without_return(line) == line,
{
    let whole = line + seq!['\n'] + rest;
    let n = line.len() as int;
    assert forall|i: int| 0 <= i < n implies whole[i] != '\n' by {
        assert(whole[i] == line[i]);
        assert(line.contains(line[i]));
    }
    lemma_before_first(whole, '\n', n);
    assert(whole.take(n) =~= line);
    assert(whole.skip(n + 1) =~= rest);
    assert forall|i: int| 0 <= i < n implies line[i] != '\n' by {
        assert(line.contains(line[i]));
    }
    lemma_before_first(line, '\n', n);
    assert(line.push('\r').drop_last() =~= line);
}

/// A text that is split holds no separator in any part, and joined with the separator again
/// the parts give the text.
pub proof fn law_split_and_joined(s: Seq<char>, c: char)
    ensures
        joined(split_on(s, c), seq![c]) == s,
        split_on(s, c).len() > 0,
        forall|i: int| 0 <= i < split_on(s, c).len() ==> !(#[trigger] split_on(s, c)[i]).contains(c),
    decreases s.len(),
{
    let n = before_first(s, c) as int;
    let parts = split_on(s, c);
    lemma_before_first_bounds(s, c);
    if n < s.len() {
        let rest = s.skip(n + 1);
        let others = split_on(rest, c);
        law_split_and_joined(rest, c);
        lemma_joined_front(s.take(n), others, seq![c]);
        assert(s.take(n) + seq![c] + rest =~= s);
        assert forall|i: int| 0 <= i < parts.len() implies !(#[trigger] parts[i]).contains(c) by {
            if i > 0 {
                assert(parts[i] == others[i - 1]);
            }
        }
    }
}

proof fn lemma_joined_front(first: Seq<char>, parts: Seq<Seq<char>>, sep: Seq<char>)
    requires
        parts.len() > 0,
    ensures
        joined(seq![first] + parts, sep) == first + sep + joined(parts, sep),
    decreases parts.len(),
{
    let all = seq![first] + parts;
    assert(all.last() == parts.last());
    if parts.len() == 1 {
        assert(all.drop_last() =~= seq![first]);
        assert(joined(all.drop_last(), sep) == first);
    } else {
        let front = parts.drop_last();
        lemma_joined_front(first, front, sep);
        assert(all.drop_last() =~= seq![first] + front);
        assert(joined(all, sep) =~= first + sep + joined(parts, sep));
    }
}

/// The text of parts grows by the separator and the part that is added; one part is its
/// own text.
pub proof fn law_joined(parts: Seq<Seq<char>>, sep: Seq<char>, part: Seq<char>)
    ensures
        joined(Seq::empty(), sep).len() == 0,
        joined(seq![part], sep) == part,
        parts.len() > 0 ==> joined(parts.push(part), sep) == joined(parts, sep) + sep + part,
{
    assert(parts.push(part).drop_last() =~= parts);
}

/// What stands for the text to replace is put in its place, and all else stays.
pub proof fn law_replaced(a: Seq<char>, from: Seq<char>, b: Seq<char>, to: Seq<char>)
    requires
        from.len() > 0,
        !a.contains(from[0]),
        !b.contains(from[0]),
    ensures
        replaced(a + from + b, from, to) == a + to + b,
        replaced(a, from, to) == a,
{
    lemma_replaced_at(a, from, b, to);
    lemma_nothing_replaced(b, from, to);
    lemma_nothing_replaced(a, from, to);
}

/// The decimal digits of a number: one digit below ten, and else those of its tenth part
/// and one more.
pub proof fn law_digits(n: nat, d: nat)
    requires
        d < 10,
    ensures
        digits(d).len() == 1,
        digits(d)[0] as u32 == '0' as u32 + d,
        n > 0 ==> digits(10 * n + d) == digits(n) + digits(d),
        n > 0 ==> digits(n)[0] != '0',
    decreases n,
{
    if n > 0 {
        assert((10 * n + d) / 10 == n && (10 * n + d) % 10 == d);
        assert(digits(10 * n + d) =~= digits(n) + digits(d));
        if n >= 10 {
            law_digits(n / 10, n % 10);
            assert(digits(n).len() > 0);
            assert(digits(n / 10).len() > 0) by {
                lemma_some_digit(n / 10);
            }
            assert(digits(n)[0] == digits(n / 10)[0]);
        }
    }
}

proof fn lemma_some_digit(n: nat)
    ensures
        digits(n).len() > 0,
{
}

/// Of two texts that differ first at one place, that with the smaller character there comes
/// first; and a text comes before every longer one that it begins.
pub proof fn law_order_of_texts(
    common: Seq<char>,
    x: char,
    y: char,
    a: Seq<char>,
    b: Seq<char>,
)
    requires
        x != y,
    ensures
        text_before(common + seq![x] + a, common + seq![y] + b) <==> x < y,
        text_before(common, common + seq![y] + b),
        !text_before(common + seq![y] + b, common),
    decreases common.len(),
{
    let one = common + seq![x] + a;
    let two = common + seq![y] + b;
    if common.len() > 0 {
        let rest = common.drop_first();
        law_order_of_texts(rest, x, y, a, b);
        assert(one[0] == common[0] && two[0] == common[0]);
        assert(one.drop_first() =~= rest + seq![x] + a);
        assert(two.drop_first() =~= rest + seq![y] + b);
    } else {
        assert(one[0] == x && two[0] == y);
    }
}

/// The copies of a word at the beginning or the end of a text are all taken off, and
/// nothing else.
pub proof fn law_copies_are_taken_off(s: Seq<char>, word: Seq<char>)
    requires
        word.len() > 0,
    ensures
        without_prefixes(word + s, word) == without_prefixes(s, word),
        !word.is_prefix_of(s) ==> without_prefixes(s, word) == s,
        without_suffixes(s + word, word) == without_suffixes(s, word),
        !word.is_suffix_of(s) ==> without_suffixes(s, word) == s,
{
    assert((word + s).take(word.len() as int) =~= word);
    assert(word.is_prefix_of(word + s));
    assert((word + s).skip(word.len() as int) =~= s);
    assert((s + word).skip(s.len() as int) =~= word);
    assert(word.is_suffix_of(s + word));
    assert((s + word).take(s.len() as int) =~= s);
}

/// A character around a text is taken off as often as it stands there, and nothing else.
pub proof fn law_character_is_taken_off(s: Seq<char>, c: char)
    ensures
        trimmed_start_of(seq![c] + s, c) == trimmed_start_of(s, c),
        trimmed_end_of(s.push(c), c) == trimmed_end_of(s, c),
        s.len() == 0 || s[0] != c && s.last() != c ==> trimmed_of(s, c) == s,
        trimmed_of(seq![c] + s, c) == trimmed_of(s, c),
{
    assert((seq![c] + s).drop_first() =~= s);
    assert(s.push(c).drop_last() =~= s);
}

/// In lower case each capital letter is the small one, 32 places behind it, and in upper
/// case the other way round; all other characters stay.
pub proof fn law_cases_of_letters(s: Seq<char>, i: int)
    requires
        0 <= i < s.len(),
    ensures
        ascii_lowered(s).len() == s.len(),
        ascii_uppered(s).len() == s.len(),
        'A' <= s[i] && s[i] <= 'Z' ==> ascii_lowered(s)[i] as u32 == s[i] as u32 + 32,
        'a' <= s[i] && s[i] <= 'z' ==> ascii_uppered(s)[i] as u32 == s[i] as u32 - 32,
        !('A' <= s[i] && s[i] <= 'Z') ==> ascii_lowered(s)[i] == s[i],
        !('a' <= s[i] && s[i] <= 'z') ==> ascii_uppered(s)[i] == s[i],
{
}

} // verus!
