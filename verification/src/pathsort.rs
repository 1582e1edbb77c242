//! Paths in the order `Path` compares them: component by component, which for paths without
//! repeated or trailing separators is the character order with the separator below every other
//! character.
use vstd::prelude::*;
use vstd::relations::{sorted_by, total_ordering};
use crate::text::texts;

verus! {

broadcast use vstd::seq_lib::group_to_multiset_ensures;

/// A character's place in the order: the separator first, then every other by its code.
pub open spec fn rank(c: char) -> int {
    if c == '/' {
        0
    } else {
        c as int + 1
    }
}

/// Whether `a` comes no later than `b`.
pub open spec fn path_le(a: Seq<char>, b: Seq<char>) -> bool
    decreases a.len(),
{
    if a.len() == 0 {
        true
    } else if b.len() == 0 {
        false
    } else if rank(a[0]) != rank(b[0]) {
        rank(a[0]) < rank(b[0])
    } else {
        path_le(a.drop_first(), b.drop_first())
    }
}

/// The order as a relation.
pub open spec fn path_order() -> spec_fn(Seq<char>, Seq<char>) -> bool {
    |a: Seq<char>, b: Seq<char>| path_le(a, b)
}

proof fn lemma_same_rank(c: char, d: char)
    requires
        rank(c) == rank(d),
    ensures
        c == d,
{
    if c != '/' && d != '/' {
        assert(c as int == d as int);
    }
}

proof fn lemma_reflexive(a: Seq<char>)
    ensures
        path_le(a, a),
    decreases a.len(),
{
    if a.len() > 0 {
        lemma_reflexive(a.drop_first());
    }
}

proof fn lemma_antisymmetric(a: Seq<char>, b: Seq<char>)
    requires
        path_le(a, b),
        path_le(b, a),
    ensures
        a == b,
    decreases a.len(),
{
    if a.len() > 0 && b.len() > 0 {
        lemma_antisymmetric(a.drop_first(), b.drop_first());
        lemma_same_rank(a[0], b[0]);
        assert(a =~= seq![a[0]] + a.drop_first());
        assert(b =~= seq![b[0]] + b.drop_first());
    } else {
        assert(a.len() == 0 && b.len() == 0);
        assert(a =~= b);
    }
}

proof fn lemma_transitive(a: Seq<char>, b: Seq<char>, c: Seq<char>)
    requires
        path_le(a, b),
        path_le(b, c),
    ensures
        path_le(a, c),
    decreases a.len(),
{
    if a.len() > 0 && b.len() > 0 && c.len() > 0 {
        if rank(a[0]) == rank(b[0]) && rank(b[0]) == rank(c[0]) {
            lemma_transitive(a.drop_first(), b.drop_first(), c.drop_first());
        }
    }
}

proof fn lemma_connected(a: Seq<char>, b: Seq<char>)
    ensures
        path_le(a, b) || path_le(b, a),
    decreases a.len(),
{
    if a.len() > 0 && b.len() > 0 && rank(a[0]) == rank(b[0]) {
        lemma_connected(a.drop_first(), b.drop_first());
    }
}

/// The order is total.
pub proof fn lemma_path_order_total()
    ensures
        total_ordering(path_order()),
{
    assert forall|a: Seq<char>| #[trigger] path_order()(a, a) by {
        lemma_reflexive(a);
    }
    assert forall|a: Seq<char>, b: Seq<char>| #[trigger] path_order()(a, b) && #[trigger] path_order()(b, a) implies a == b by {
        lemma_antisymmetric(a, b);
    }
    assert forall|a: Seq<char>, b: Seq<char>, c: Seq<char>| #[trigger] path_order()(a, b) && #[trigger] path_order()(b, c) implies path_order()(a, c) by {
        lemma_transitive(a, b, c);
    }
    assert forall|a: Seq<char>, b: Seq<char>| #[trigger] path_order()(a, b) || #[trigger] path_order()(b, a) by {
        lemma_connected(a, b);
    }
}

fn rank_of(c: char) -> (r: u32)
    ensures
        r == rank(c),
{
    if c == '/' {
        0
    } else {
        c as u32 + 1
    }
}

/// Whether `a` comes no later than `b`.
pub fn path_precedes(a: &str, b: &str) -> (le: bool)
    ensures
        le == path_le(a@, b@),
{
    let n = a.unicode_len();
    let m = b.unicode_len();
    let mut i: usize = 0;
    assert(a@.subrange(0, n as int) =~= a@);
    assert(b@.subrange(0, m as int) =~= b@);
    while i < n && i < m
        invariant
            i <= n,
            i <= m,
            n == a@.len(),
            m == b@.len(),
            path_le(a@, b@) == path_le(a@.subrange(i as int, n as int), b@.subrange(i as int, m as int)),
        decreases n - i,
    {
        let x = rank_of(a.get_char(i));
        let y = rank_of(b.get_char(i));
        assert(a@.subrange(i as int, n as int)[0] == a@[i as int]);
        assert(b@.subrange(i as int, m as int)[0] == b@[i as int]);
        if x != y {
            return x < y;
        }
        assert(a@.subrange(i as int, n as int).drop_first() =~= a@.subrange(i + 1, n as int));
        assert(b@.subrange(i as int, m as int).drop_first() =~= b@.subrange(i + 1, m as int));
        i = i + 1;
    }
    i == n
}

/// Texts in path order: the same texts, each as often, sorted.
pub fn sort_paths(paths: &Vec<String>) -> (sorted: Vec<String>)
    ensures
        texts(sorted@) == texts(paths@).sort_by(path_order()),
{
    let ghost input = texts(paths@);
    let mut out: Vec<String> = Vec::new();
    let mut i: usize = 0;
    assert(input.subrange(0, 0).to_multiset() =~= texts(out@).to_multiset());
    while i < paths.len()
        invariant
            i <= paths.len(),
            input == texts(paths@),
            sorted_by(texts(out@), path_order()),
            texts(out@).to_multiset() == input.subrange(0, i as int).to_multiset(),
        decreases paths.len() - i,
    {
        let item = paths[i].clone();
        let ghost o = texts(out@);
        let mut p: usize = 0;
        while p < out.len() && path_precedes(out[p].as_str(), item.as_str())
            invariant
                p <= out.len(),
                o == texts(out@),
                forall|k: int| 0 <= k < p ==> path_le(#[trigger] o[k], item@),
            decreases out.len() - p,
        {
            p = p + 1;
        }
        proof {
            lemma_path_order_total();
            assert forall|k: int| p <= k < o.len() implies path_le(item@, #[trigger] o[k]) by {
                lemma_connected(o[p as int], item@);
                if k > p {
                    assert(path_order()(o[p as int], o[k]));
                    lemma_transitive(item@, o[p as int], o[k]);
                }
            }
        }
        out.insert(p, item);
        proof {
            let n = texts(out@);
            assert(n =~= o.insert(p as int, paths@[i as int]@));
            assert forall|a: int, b: int| 0 <= a < b < n.len() implies #[trigger] path_order()(n[a], n[b]) by {
                if b < p {
                    assert(path_order()(o[a], o[b]));
                } else if b == p {
                } else if a < p {
                    assert(path_le(o[a], item@));
                    assert(path_le(item@, o[b - 1]));
                    lemma_transitive(o[a], item@, o[b - 1]);
                } else if a == p {
                } else {
                    assert(path_order()(o[a - 1], o[b - 1]));
                }
            }
            vstd::seq_lib::to_multiset_insert(o, p as int, paths@[i as int]@);
            assert(input.subrange(0, i + 1) =~= input.subrange(0, i as int).push(input[i as int]));
            vstd::seq_lib::to_multiset_build(input.subrange(0, i as int), input[i as int]);
        }
        i = i + 1;
    }
    proof {
        lemma_path_order_total();
        assert(input.subrange(0, input.len() as int) =~= input);
        input.lemma_sort_by_ensures(path_order());
        vstd::seq_lib::lemma_sorted_unique(texts(out@), input.sort_by(path_order()), path_order());
    }
    out
}

} // verus!
