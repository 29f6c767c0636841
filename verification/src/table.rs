//! Collections keyed by text.

use vstd::prelude::*;
use vstd::string::*;

use crate::order::{
    lemma_lex_irreflexive, lemma_lex_transitive, lemma_text_key_order, lex_less, lex_lt,
    push_text_key, text_key, text_lt,
};
use crate::text::same_text;

verus! {

/// No text comes before itself.
pub proof fn lemma_text_irreflexive(a: Seq<char>)
    ensures
        !text_lt(a, a),
{
    lemma_text_order(a, a);
    lemma_lex_irreflexive(text_key(a));
}

/// Text order is transitive.
pub proof fn lemma_text_transitive(a: Seq<char>, b: Seq<char>, c: Seq<char>)
    requires
        text_lt(a, b),
        text_lt(b, c),
    ensures
        text_lt(a, c),
{
    lemma_text_order(a, b);
    lemma_text_order(b, c);
    lemma_text_order(a, c);
    lemma_lex_transitive(text_key(a), text_key(b), text_key(c));
}

/// Of two different texts one comes before the other.
pub proof fn lemma_text_total(a: Seq<char>, b: Seq<char>)
    ensures
        a == b || text_lt(a, b) || text_lt(b, a),
    decreases a.len(),
{
    if a.len() > 0 && b.len() > 0 && a[0] == b[0] {
        lemma_text_total(a.skip(1), b.skip(1));
        if a.skip(1) == b.skip(1) {
            assert(a =~= seq![a[0]] + a.skip(1));
            assert(b =~= seq![b[0]] + b.skip(1));
        }
    } else if a.len() == 0 && b.len() == 0 {
        assert(a =~= b);
    }
}

/// Text order is the order of the sort keys.
pub proof fn lemma_text_order(a: Seq<char>, b: Seq<char>)
    ensures
        text_lt(a, b) == lex_lt(text_key(a), text_key(b)),
{
    let none = Seq::<u32>::empty();
    lemma_text_key_order(a, none, b, none);
    assert(text_key(a) + none =~= text_key(a));
    assert(text_key(b) + none =~= text_key(b));
}

/// Whether `a` comes strictly before `b` in the order of their code points.
pub fn text_less(a: &str, b: &str) -> (yes: bool)
    ensures
        yes == text_lt(a@, b@),
{
    let mut x: Vec<u32> = Vec::new();
    push_text_key(&mut x, a);
    let mut y: Vec<u32> = Vec::new();
    push_text_key(&mut y, b);
    proof {
        lemma_text_order(a@, b@);
        assert(x@ =~= text_key(a@));
        assert(y@ =~= text_key(b@));
    }
    lex_less(x.as_slice(), y.as_slice())
}

/// A set of texts.
#[derive(Debug)]
pub struct TextSet {
    items: Vec<String>,
}

impl View for TextSet {
    type V = Set<Seq<char>>;

    closed spec fn view(&self) -> Set<Seq<char>> {
        Set::new(|k: Seq<char>| exists|i: int| 0 <= i < self.items@.len() && #[trigger] self.items@[i]@ == k)
    }
}

impl TextSet {
    /// The empty set.
    pub fn new() -> (out: Self)
        ensures
            out@ == Set::<Seq<char>>::empty(),
    {
        let out = TextSet { items: Vec::new() };
        assert(out@ =~= Set::<Seq<char>>::empty());
        out
    }

    /// Whether `text` is in the set.
    pub fn contains(&self, text: &str) -> (yes: bool)
        ensures
            yes == self@.contains(text@),
    {
        let n: usize = self.items.len();
        let mut i: usize = 0;
        while i < n
            invariant
                i <= n,
                n == self.items@.len(),
                forall|j: int| 0 <= j < i ==> #[trigger] self.items@[j]@ != text@,
            decreases n - i,
        {
            if same_text(self.items[i].as_str(), text) {
                assert(self.items@[i as int]@ == text@);
                return true;
            }
            i = i + 1;
        }
        false
    }

    /// Add `text` to the set.
    pub fn insert(&mut self, text: String)
        ensures
            final(self)@ == old(self)@.insert(text@),
    {
        let ghost before = self.items@;
        self.items.push(text);
        proof {
            assert forall|k: Seq<char>| self@.contains(k) == old(self)@.insert(text@).contains(k) by {
                if exists|i: int| 0 <= i < before.len() && #[trigger] before[i]@ == k {
                    let i = choose|i: int| 0 <= i < before.len() && #[trigger] before[i]@ == k;
                    assert(self.items@[i]@ == k);
                }
                if k == text@ {
                    assert(self.items@[before.len() as int]@ == k);
                }
                if exists|i: int| 0 <= i < self.items@.len() && #[trigger] self.items@[i]@ == k {
                    let i = choose|i: int| 0 <= i < self.items@.len() && #[trigger] self.items@[i]@ == k;
                    if i < before.len() {
                        assert(before[i]@ == k);
                    }
                }
            }
            assert(self@ =~= old(self)@.insert(text@));
        }
    }
}

/// A table from text to values, held in ascending order of its keys.
#[derive(Debug)]
pub struct TextTable<V> {
    entries: Vec<(String, V)>,
}

/// The keys of `entries` ascend strictly.
pub open spec fn ascending<V>(entries: Seq<(String, V)>) -> bool {
    forall|i: int, j: int|
        0 <= i < j < entries.len() ==> text_lt(#[trigger] entries[i].0@, #[trigger] entries[j].0@)
}

/// The value of `key` in `entries`: that of its first occurrence.
pub open spec fn lookup<V>(entries: Seq<(String, V)>, key: Seq<char>) -> Option<V>
    decreases entries.len(),
{
    if entries.len() == 0 {
        None
    } else if entries[0].0@ == key {
        Some(entries[0].1)
    } else {
        lookup(entries.skip(1), key)
    }
}

/// Passing over entries with other keys does not change what is found.
proof fn lemma_lookup_skip<V>(entries: Seq<(String, V)>, key: Seq<char>, n: int)
    requires
        0 <= n <= entries.len(),
        forall|i: int| 0 <= i < n ==> #[trigger] entries[i].0@ != key,
    ensures
        lookup(entries, key) == lookup(entries.skip(n), key),
    decreases n,
{
    if n == 0 {
        assert(entries.skip(0) =~= entries);
    } else {
        assert forall|i: int| 0 <= i < n - 1 implies #[trigger] entries.skip(1)[i].0@ != key by {
            assert(entries[i + 1].0@ != key);
        }
        lemma_lookup_skip(entries.skip(1), key, n - 1);
        assert(entries.skip(1).skip(n - 1) =~= entries.skip(n));
    }
}

proof fn lemma_lookup_at<V>(entries: Seq<(String, V)>, i: int)
    requires
        0 <= i < entries.len(),
        forall|j: int| 0 <= j < i ==> #[trigger] entries[j].0@ != entries[i].0@,
    ensures
        lookup(entries, entries[i].0@) == Some(entries[i].1),
{
    lemma_lookup_skip(entries, entries[i].0@, i);
    assert(entries.skip(i)[0] == entries[i]);
}

proof fn lemma_lookup_none<V>(entries: Seq<(String, V)>, key: Seq<char>)
    requires
        forall|j: int| 0 <= j < entries.len() ==> #[trigger] entries[j].0@ != key,
    ensures
        lookup(entries, key) is None,
{
    lemma_lookup_skip(entries, key, entries.len() as int);
}

/// What is found stands somewhere in the entries.
pub proof fn lemma_lookup_some<V>(entries: Seq<(String, V)>, key: Seq<char>) -> (i: int)
    requires
        lookup(entries, key) is Some,
    ensures
        0 <= i < entries.len(),
        entries[i].0@ == key,
        lookup(entries, key) == Some(entries[i].1),
    decreases entries.len(),
{
    if entries[0].0@ == key {
        0
    } else {
        let j = lemma_lookup_some(entries.skip(1), key);
        assert(entries.skip(1)[j] == entries[j + 1]);
        j + 1
    }
}

/// In ascending entries no key occurs twice.
pub proof fn lemma_ascending_distinct<V>(entries: Seq<(String, V)>, i: int, j: int)
    requires
        ascending(entries),
        0 <= i < entries.len(),
        0 <= j < entries.len(),
        entries[i].0@ == entries[j].0@,
    ensures
        i == j,
{
    lemma_text_irreflexive(entries[i].0@);
}

/// One more entry at the end is found where nothing before it is.
pub proof fn lemma_lookup_push<V>(entries: Seq<(String, V)>, entry: (String, V), key: Seq<char>)
    ensures
        lookup(entries.push(entry), key) == match lookup(entries, key) {
            Some(value) => Some(value),
            None => if entry.0@ == key {
                Some(entry.1)
            } else {
                None
            },
        },
    decreases entries.len(),
{
    if entries.len() == 0 {
        reveal_with_fuel(lookup, 2);
    } else {
        assert(entries.push(entry).skip(1) =~= entries.skip(1).push(entry));
        if entries[0].0@ != key {
            lemma_lookup_push(entries.skip(1), entry, key);
        }
    }
}

/// Every entry of ascending entries is found under its key.
pub proof fn lemma_lookup_entry<V>(entries: Seq<(String, V)>, i: int)
    requires
        ascending(entries),
        0 <= i < entries.len(),
    ensures
        lookup(entries, entries[i].0@) == Some(entries[i].1),
{
    assert forall|j: int| 0 <= j < i implies #[trigger] entries[j].0@ != entries[i].0@ by {
        if entries[j].0@ == entries[i].0@ {
            lemma_ascending_distinct(entries, i, j);
        }
    }
    lemma_lookup_at(entries, i);
}

impl<V> TextTable<V> {
    #[verifier::type_invariant]
    spec fn inv(self) -> bool {
        ascending(self.entries@)
    }

    /// The entries, in ascending order of their keys.
    pub closed spec fn rows(self) -> Seq<(String, V)> {
        self.entries@
    }

    /// The empty table.
    pub fn new() -> (out: Self)
        ensures
            out.rows() == Seq::<(String, V)>::empty(),
    {
        TextTable { entries: Vec::new() }
    }

    /// The number of keys.
    pub fn len(&self) -> (n: usize)
        ensures
            n == self.rows().len(),
            ascending(self.rows()),
    {
        proof {
            use_type_invariant(self);
        }
        self.entries.len()
    }

    /// Whether the table has no key.
    pub fn is_empty(&self) -> (yes: bool)
        ensures
            yes == (self.rows().len() == 0),
    {
        self.entries.len() == 0
    }

    /// Row `i`: a key and its value.
    pub fn row_at(&self, i: usize) -> (row: &(String, V))
        requires
            i < self.rows().len(),
        ensures
            *row == self.rows()[i as int],
    {
        &self.entries[i]
    }

    /// The value of `key`.
    pub fn get(&self, key: &str) -> (value: Option<&V>)
        ensures
            match value {
                Some(v) => lookup(self.rows(), key@) == Some(*v),
                None => lookup(self.rows(), key@) is None,
            },
    {
        let n: usize = self.entries.len();
        let mut i: usize = 0;
        while i < n
            invariant
                i <= n,
                n == self.entries@.len(),
                forall|j: int| 0 <= j < i ==> #[trigger] self.entries@[j].0@ != key@,
            decreases n - i,
        {
            if same_text(self.entries[i].0.as_str(), key) {
                proof {
                    lemma_lookup_at(self.entries@, i as int);
                }
                return Some(&self.entries[i].1);
            }
            i = i + 1;
        }
        proof {
            lemma_lookup_none(self.entries@, key@);
        }
        None
    }

    /// Set the value of `key`, leaving every other key as it was.
    pub fn insert(&mut self, key: String, value: V)
        ensures
            lookup(final(self).rows(), key@) == Some(value),
            forall|k: Seq<char>|
                k != key@ ==> lookup(final(self).rows(), k) == #[trigger] lookup(old(self).rows(), k),
            ascending(final(self).rows()),
    {
        proof {
            use_type_invariant(&*self);
        }
        let ghost before = self.entries@;
        let mut entries: Vec<(String, V)> = Vec::new();
        std::mem::swap(&mut entries, &mut self.entries);
        let n: usize = entries.len();
        let mut p: usize = 0;
        while p < n && text_less(entries[p].0.as_str(), key.as_str())
            invariant
                p <= n,
                n == entries@.len(),
                entries@ == before,
                ascending(before),
                forall|j: int| 0 <= j < p ==> text_lt(#[trigger] before[j].0@, key@),
            ensures
                p <= n,
                forall|j: int| 0 <= j < p ==> text_lt(#[trigger] before[j].0@, key@),
                p < n ==> !text_lt(before[p as int].0@, key@),
            decreases n - p,
        {
            p = p + 1;
        }
        let ghost k = key@;
        if p < n && same_text(entries[p].0.as_str(), key.as_str()) {
            entries.set(p, (key, value));
            proof {
                lemma_replaced(before, p as int, entries@);
            }
        } else {
            entries.insert(p, (key, value));
            proof {
                lemma_inserted(before, p as int, entries@);
            }
        }
        self.entries = entries;
    }
}

/// A copy of a table: the same keys, and a copy of every value.
impl<V: Clone> Clone for TextTable<V> {
    fn clone(&self) -> (out: Self)
        ensures
            out.rows().len() == self.rows().len(),
            forall|i: int|
                0 <= i < out.rows().len() ==> (#[trigger] out.rows()[i]).0 == self.rows()[i].0
                    && cloned::<V>(self.rows()[i].1, out.rows()[i].1),
    {
        proof {
            use_type_invariant(self);
        }
        let n: usize = self.entries.len();
        let mut entries: Vec<(String, V)> = Vec::new();
        let mut i: usize = 0;
        while i < n
            invariant
                i <= n,
                n == self.entries@.len(),
                entries@.len() == i,
                forall|j: int|
                    0 <= j < i ==> (#[trigger] entries@[j]).0 == self.entries@[j].0 && cloned::<V>(
                        self.entries@[j].1,
                        entries@[j].1,
                    ),
            decreases n - i,
        {
            entries.push((self.entries[i].0.clone(), self.entries[i].1.clone()));
            i = i + 1;
        }
        proof {
            assert forall|a: int, b: int| 0 <= a < b < entries@.len() implies text_lt(
                #[trigger] entries@[a].0@,
                #[trigger] entries@[b].0@,
            ) by {
                assert(text_lt(self.entries@[a].0@, self.entries@[b].0@));
            }
        }
        TextTable { entries }
    }
}

proof fn lemma_replaced<V>(before: Seq<(String, V)>, p: int, after: Seq<(String, V)>)
    requires
        ascending(before),
        0 <= p < before.len(),
        after.len() == before.len(),
        after[p].0@ == before[p].0@,
        forall|j: int| 0 <= j < before.len() && j != p ==> #[trigger] after[j] == before[j],
    ensures
        ascending(after),
        lookup(after, before[p].0@) == Some(after[p].1),
        forall|k: Seq<char>|
            k != before[p].0@ ==> lookup(after, k) == #[trigger] lookup(before, k),
{
    assert forall|i: int, j: int| 0 <= i < j < after.len() implies text_lt(
        #[trigger] after[i].0@,
        #[trigger] after[j].0@,
    ) by {
        assert(text_lt(before[i].0@, before[j].0@));
    }
    lemma_lookup_entry(after, p);
    assert forall|k: Seq<char>| k != before[p].0@ implies lookup(after, k) == #[trigger] lookup(
        before,
        k,
    ) by {
        if lookup(before, k) is Some {
            let i = lemma_lookup_some(before, k);
            assert(after[i] == before[i]);
            lemma_lookup_entry(after, i);
        } else if lookup(after, k) is Some {
            let i = lemma_lookup_some(after, k);
            assert(after[i] == before[i]);
            lemma_lookup_entry(before, i);
        }
    }
}

proof fn lemma_inserted<V>(before: Seq<(String, V)>, p: int, after: Seq<(String, V)>)
    requires
        ascending(before),
        0 <= p <= before.len(),
        after.len() == before.len() + 1,
        after == before.insert(p, after[p]),
        forall|j: int| 0 <= j < p ==> text_lt(#[trigger] before[j].0@, after[p].0@),
        p < before.len() ==> !text_lt(before[p].0@, after[p].0@),
        p < before.len() ==> before[p].0@ != after[p].0@,
    ensures
        ascending(after),
        lookup(after, after[p].0@) == Some(after[p].1),
        forall|k: Seq<char>|
            k != after[p].0@ ==> lookup(after, k) == #[trigger] lookup(before, k),
{
    let key = after[p].0@;
    assert forall|i: int, j: int| 0 <= i < j < after.len() implies text_lt(
        #[trigger] after[i].0@,
        #[trigger] after[j].0@,
    ) by {
        let x = if i < p { i } else { i - 1 };
        let y = if j < p { j } else { j - 1 };
        if i == p {
            assert(after[j] == before[y]);
            lemma_text_total(before[p].0@, key);
            if y > p {
                assert(text_lt(before[p].0@, before[y].0@));
                lemma_text_transitive(key, before[p].0@, before[y].0@);
            }
        } else if j == p {
            assert(after[i] == before[x]);
        } else {
            assert(after[i] == before[x]);
            assert(after[j] == before[y]);
            assert(text_lt(before[x].0@, before[y].0@));
        }
    }
    lemma_lookup_entry(after, p);
    assert forall|k: Seq<char>| k != key implies lookup(after, k) == #[trigger] lookup(
        before,
        k,
    ) by {
        if lookup(before, k) is Some {
            let i = lemma_lookup_some(before, k);
            let q = if i < p { i } else { i + 1 };
            assert(after[q] == before[i]);
            lemma_lookup_entry(after, q);
        } else if lookup(after, k) is Some {
            let q = lemma_lookup_some(after, k);
            let i = if q < p { q } else { q - 1 };
            assert(after[q] == before[i]);
            lemma_lookup_entry(before, i);
        }
    }
}

} // verus!
