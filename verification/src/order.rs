//! Lexicographic order and stable sorting.
//!
//! A sort key is a sequence of numbers. Texts become such sequences through
//! [`text_key`], whose closing zero keeps a concatenation of several texts in
//! the order of the tuple of those texts.

use vstd::prelude::*;

use crate::text::chars_of;

verus! {

/// `a` comes strictly before `b` in lexicographic order.
pub open spec fn lex_lt(a: Seq<u32>, b: Seq<u32>) -> bool
    decreases a.len(),
{
    if b.len() == 0 {
        false
    } else if a.len() == 0 {
        true
    } else if a[0] != b[0] {
        a[0] < b[0]
    } else {
        lex_lt(a.skip(1), b.skip(1))
    }
}

/// No sequence comes before itself.
pub proof fn lemma_lex_irreflexive(a: Seq<u32>)
    ensures
        !lex_lt(a, a),
    decreases a.len(),
{
    if a.len() > 0 {
        lemma_lex_irreflexive(a.skip(1));
    }
}

/// Of two different sequences one comes before the other.
pub proof fn lemma_lex_total(a: Seq<u32>, b: Seq<u32>)
    ensures
        a == b || lex_lt(a, b) || lex_lt(b, a),
    decreases a.len(),
{
    if a.len() > 0 && b.len() > 0 && a[0] == b[0] {
        lemma_lex_total(a.skip(1), b.skip(1));
        if a.skip(1) == b.skip(1) {
            assert(a =~= seq![a[0]] + a.skip(1));
            assert(b =~= seq![b[0]] + b.skip(1));
        }
    } else if a.len() == 0 && b.len() == 0 {
        assert(a =~= b);
    }
}

/// Lexicographic order is transitive.
pub proof fn lemma_lex_transitive(a: Seq<u32>, b: Seq<u32>, c: Seq<u32>)
    requires
        lex_lt(a, b),
        lex_lt(b, c),
    ensures
        lex_lt(a, c),
    decreases a.len(),
{
    if a.len() > 0 && b.len() > 0 && c.len() > 0 && a[0] == b[0] && b[0] == c[0] {
        lemma_lex_transitive(a.skip(1), b.skip(1), c.skip(1));
    }
}

/// Whether `a` comes strictly before `b` in lexicographic order.
pub fn lex_less(a: &[u32], b: &[u32]) -> (yes: bool)
    ensures
        yes == lex_lt(a@, b@),
{
    let mut i: usize = 0;
    assert(a@.skip(0) =~= a@);
    assert(b@.skip(0) =~= b@);
    while i < a.len() && i < b.len()
        invariant
            i <= a@.len(),
            i <= b@.len(),
            lex_lt(a@, b@) == lex_lt(a@.skip(i as int), b@.skip(i as int)),
        decreases a@.len() - i,
    {
        if a[i] != b[i] {
            return a[i] < b[i];
        }
        assert(a@.skip(i as int).skip(1) =~= a@.skip(i as int + 1));
        assert(b@.skip(i as int).skip(1) =~= b@.skip(i as int + 1));
        i = i + 1;
    }
    i < b.len()
}

/// A text as a sort key: its code points moved up by one, then a zero.
pub open spec fn text_key(s: Seq<char>) -> Seq<u32> {
    s.map_values(|c: char| (c as u32 + 1) as u32).push(0)
}

/// Append the sort key of `s` to `key`.
pub fn push_text_key(key: &mut Vec<u32>, s: &str)
    ensures
        final(key)@ == old(key)@ + text_key(s@),
{
    let chars: Vec<char> = chars_of(s);
    let ghost start = key@;
    let n: usize = chars.len();
    let mut i: usize = 0;
    while i < n
        invariant
            i <= n,
            n == chars@.len(),
            chars@ == s@,
            key@ =~= start + text_key(s@).take(i as int),
        decreases n - i,
    {
        let c: char = chars[i];
        proof {
            vstd::utf8::char_is_scalar(c);
        }
        key.push(c as u32 + 1);
        assert(text_key(s@).take(i as int + 1) =~= text_key(s@).take(i as int).push(
            text_key(s@)[i as int],
        ));
        i = i + 1;
    }
    key.push(0);
    assert(key@ =~= start + text_key(s@));
}

/// `a` comes strictly before `b` in the order of their code points.
pub open spec fn text_lt(a: Seq<char>, b: Seq<char>) -> bool
    decreases a.len(),
{
    if b.len() == 0 {
        false
    } else if a.len() == 0 {
        true
    } else if a[0] != b[0] {
        a[0] < b[0]
    } else {
        text_lt(a.skip(1), b.skip(1))
    }
}

/// Sorting by `text_key(a) + x` sorts by the text `a` first and by `x` among
/// equal texts.
pub proof fn lemma_text_key_order(a: Seq<char>, x: Seq<u32>, b: Seq<char>, y: Seq<u32>)
    ensures
        lex_lt(text_key(a) + x, text_key(b) + y) == (text_lt(a, b) || (a == b && lex_lt(x, y))),
    decreases a.len(),
{
    let l = text_key(a) + x;
    let r = text_key(b) + y;
    assert(l[0] == text_key(a)[0]);
    assert(r[0] == text_key(b)[0]);
    if a.len() > 0 {
        vstd::utf8::char_is_scalar(a[0]);
        assert(l[0] == a[0] as u32 + 1);
    }
    if b.len() > 0 {
        vstd::utf8::char_is_scalar(b[0]);
        assert(r[0] == b[0] as u32 + 1);
    }
    if a.len() > 0 && b.len() > 0 {
        assert(l.skip(1) =~= text_key(a.skip(1)) + x);
        assert(r.skip(1) =~= text_key(b.skip(1)) + y);
        if a[0] == b[0] {
            lemma_text_key_order(a.skip(1), x, b.skip(1), y);
            if a.skip(1) == b.skip(1) {
                assert(a =~= seq![a[0]] + a.skip(1));
                assert(b =~= seq![b[0]] + b.skip(1));
                assert(a == b);
            }
            assert((a == b) == (a.skip(1) == b.skip(1)));
            assert(text_lt(a, b) == text_lt(a.skip(1), b.skip(1)));
            assert(lex_lt(l, r) == lex_lt(l.skip(1), r.skip(1)));
        } else {
            vstd::utf8::char_u32_cast(a[0], a[0] as u32);
            vstd::utf8::char_u32_cast(b[0], b[0] as u32);
            assert(l[0] != r[0]);
        }
    } else if a.len() == 0 && b.len() == 0 {
        assert(a =~= b);
        assert(l.skip(1) =~= x);
        assert(r.skip(1) =~= y);
        assert(lex_lt(l, r) == lex_lt(x, y));
    } else if a.len() == 0 {
        assert(l[0] == 0 && r[0] > 0);
        assert(lex_lt(l, r));
    } else {
        assert(l[0] > 0 && r[0] == 0);
        assert(!lex_lt(l, r));
    }
}

/// Item `i` belongs before item `j`: by key, and by position among equal keys.
pub open spec fn before(keys: Seq<Seq<u32>>, i: int, j: int) -> bool {
    lex_lt(keys[i], keys[j]) || (keys[i] == keys[j] && i < j)
}

/// `perm` lists the positions of `keys` in stable ascending order.
pub open spec fn stable_order(keys: Seq<Seq<u32>>, perm: Seq<usize>) -> bool {
    &&& perm.len() == keys.len()
    &&& forall|i: int| 0 <= i < perm.len() ==> 0 <= #[trigger] perm[i] < keys.len()
    &&& forall|i: int, j: int|
        0 <= i < j < perm.len() ==> before(keys, #[trigger] perm[i] as int, #[trigger] perm[j] as int)
    &&& forall|k: int| 0 <= k < keys.len() ==> perm.contains(#[trigger] (k as usize))
}

/// The keys as sequences.
pub open spec fn key_views(keys: Seq<Vec<u32>>) -> Seq<Seq<u32>> {
    keys.map_values(|k: Vec<u32>| k@)
}

/// There is only one stable order of given keys.
pub proof fn lemma_stable_order_unique(keys: Seq<Seq<u32>>, p: Seq<usize>, q: Seq<usize>)
    requires
        stable_order(keys, p),
        stable_order(keys, q),
    ensures
        p == q,
{
    assert forall|i: int| 0 <= i < p.len() implies p[i] == q[i] by {
        lemma_same_rank(keys, p, q, i);
    }
    assert(p =~= q);
}

proof fn lemma_before_asymmetric(keys: Seq<Seq<u32>>, i: int, j: int)
    ensures
        !(before(keys, i, j) && before(keys, j, i)),
{
    if before(keys, i, j) && before(keys, j, i) {
        lemma_lex_irreflexive(keys[i]);
        if lex_lt(keys[i], keys[j]) && lex_lt(keys[j], keys[i]) {
            lemma_lex_transitive(keys[i], keys[j], keys[i]);
        }
    }
}

proof fn lemma_same_rank(keys: Seq<Seq<u32>>, p: Seq<usize>, q: Seq<usize>, i: int)
    requires
        stable_order(keys, p),
        stable_order(keys, q),
        0 <= i < p.len(),
    ensures
        p[i] == q[i],
    decreases i,
{
    assert forall|j: int| 0 <= j < i implies p[j] == q[j] by {
        lemma_same_rank(keys, p, q, j);
    }
    if p[i] != q[i] {
        assert(q.contains((p[i] as int) as usize));
        assert(p.contains((q[i] as int) as usize));
        let a = choose|a: int| 0 <= a < q.len() && q[a] == p[i];
        let b = choose|b: int| 0 <= b < p.len() && p[b] == q[i];
        if a < i {
            assert(p[a] == p[i]);
            assert(before(keys, p[a] as int, p[i] as int));
            lemma_before_asymmetric(keys, p[i] as int, p[i] as int);
        }
        if b < i {
            assert(q[b] == q[i]);
            assert(before(keys, q[b] as int, q[i] as int));
            lemma_before_asymmetric(keys, q[i] as int, q[i] as int);
        }
        assert(before(keys, q[i] as int, q[a] as int));
        assert(before(keys, p[i] as int, p[b] as int));
        lemma_before_asymmetric(keys, p[i] as int, q[i] as int);
    }
}

/// The positions of `keys` in stable ascending order.
pub fn sorted_positions(keys: &Vec<Vec<u32>>) -> (perm: Vec<usize>)
    ensures
        stable_order(key_views(keys@), perm@),
{
    let ghost kv = key_views(keys@);
    let n: usize = keys.len();
    let mut perm: Vec<usize> = Vec::new();
    let mut i: usize = 0;
    while i < n
        invariant
            i <= n,
            n == keys@.len(),
            kv == key_views(keys@),
            perm@.len() == i,
            forall|a: int| 0 <= a < i ==> 0 <= #[trigger] perm@[a] < i,
            forall|a: int, b: int|
                0 <= a < b < i ==> before(kv, #[trigger] perm@[a] as int, #[trigger] perm@[b] as int),
            forall|k: int| 0 <= k < i ==> perm@.contains(#[trigger] (k as usize)),
        decreases n - i,
    {
        let mut p: usize = 0;
        while p < i && !lex_less(keys[i].as_slice(), keys[perm[p]].as_slice())
            invariant
                p <= i < n,
                n == keys@.len(),
                kv == key_views(keys@),
                perm@.len() == i,
                forall|a: int| 0 <= a < i ==> 0 <= #[trigger] perm@[a] < i,
                forall|a: int| 0 <= a < p ==> !lex_lt(kv[i as int], kv[#[trigger] perm@[a] as int]),
            ensures
                p <= i,
                forall|a: int| 0 <= a < p ==> !lex_lt(kv[i as int], kv[#[trigger] perm@[a] as int]),
                p < i ==> lex_lt(kv[i as int], kv[perm@[p as int] as int]),
            decreases i - p,
        {
            p = p + 1;
        }
        let ghost old_perm = perm@;
        perm.insert(p, i);
        proof {
            assert forall|a: int, b: int| 0 <= a < b < perm@.len() implies before(
                kv,
                #[trigger] perm@[a] as int,
                #[trigger] perm@[b] as int,
            ) by {
                if a < p && b == p {
                    assert(perm@[a] == old_perm[a]);
                    lemma_lex_total(kv[i as int], kv[old_perm[a] as int]);
                } else if a == p && b > p {
                    assert(perm@[b] == old_perm[b - 1]);
                    if b - 1 > p {
                        assert(before(kv, old_perm[p as int] as int, old_perm[b - 1] as int));
                        if lex_lt(kv[old_perm[p as int] as int], kv[old_perm[b - 1] as int]) {
                            lemma_lex_transitive(
                                kv[i as int],
                                kv[old_perm[p as int] as int],
                                kv[old_perm[b - 1] as int],
                            );
                        }
                    }
                } else {
                    let x = if a < p { a } else { a - 1 };
                    let y = if b < p { b } else { b - 1 };
                    assert(perm@[a] == old_perm[x]);
                    assert(perm@[b] == old_perm[y]);
                    assert(before(kv, old_perm[x] as int, old_perm[y] as int));
                }
            }
            assert forall|a: int| 0 <= a < perm@.len() implies 0 <= #[trigger] perm@[a] < i + 1 by {
                if a < p {
                    assert(perm@[a] == old_perm[a]);
                } else if a > p {
                    assert(perm@[a] == old_perm[a - 1]);
                }
            }
            assert forall|k: int| 0 <= k < i + 1 implies perm@.contains(#[trigger] (k as usize)) by {
                if k == i {
                    assert(perm@[p as int] == k as usize);
                } else {
                    assert(old_perm.contains(k as usize));
                    let a = choose|a: int| 0 <= a < old_perm.len() && old_perm[a] == k as usize;
                    if a < p {
                        assert(perm@[a] == k as usize);
                    } else {
                        assert(perm@[a + 1] == k as usize);
                    }
                }
            }
        }
        i = i + 1;
    }
    perm
}

} // verus!
