use vstd::prelude::*;
use crate::text::{seq_lt, str_lt};

verus! {

/// `a` does not come after `b`.
pub open spec fn seq_le(a: Seq<char>, b: Seq<char>) -> bool {
    !seq_lt(b, a)
}

/// `p` lists each of `0..n` exactly once.
pub open spec fn is_permutation(p: Seq<usize>, n: nat) -> bool {
    &&& p.len() == n
    &&& forall|i: int| 0 <= i < n ==> #[trigger] p[i] < n
    &&& forall|i: int, j: int| 0 <= i < n && 0 <= j < n && i != j ==> p[i] != p[j]
}

/// Reading `keys` in the order `p` gives non-decreasing keys.
pub open spec fn sorted_by(keys: Seq<Seq<char>>, p: Seq<usize>) -> bool {
    forall|i: int, j: int|
        0 <= i < j < p.len() ==> seq_le(#[trigger] keys[p[i] as int], #[trigger] keys[p[j] as int])
}

/// Positions with equal keys keep their original relative order in `p`.
pub open spec fn stable_by(keys: Seq<Seq<char>>, p: Seq<usize>) -> bool {
    forall|i: int, j: int|
        0 <= i < j < p.len() && #[trigger] keys[p[i] as int] == #[trigger] keys[p[j] as int]
            ==> p[i] < p[j]
}

/// `p` is the order in which a stable sort by `keys` lists the positions of `keys`.
pub open spec fn is_stable_order(keys: Seq<Seq<char>>, p: Seq<usize>) -> bool {
    &&& is_permutation(p, keys.len())
    &&& sorted_by(keys, p)
    &&& stable_by(keys, p)
}

pub proof fn lemma_seq_lt_irreflexive(a: Seq<char>)
    ensures
        !seq_lt(a, a),
    decreases a.len(),
{
    if a.len() > 0 {
        lemma_seq_lt_irreflexive(a.drop_first());
    }
}

pub proof fn lemma_seq_lt_asymmetric(a: Seq<char>, b: Seq<char>)
    ensures
        seq_lt(a, b) ==> !seq_lt(b, a),
    decreases a.len(),
{
    if a.len() > 0 && b.len() > 0 && a[0] == b[0] {
        lemma_seq_lt_asymmetric(a.drop_first(), b.drop_first());
    }
}

pub proof fn lemma_seq_lt_transitive(a: Seq<char>, b: Seq<char>, c: Seq<char>)
    ensures
        seq_lt(a, b) && seq_lt(b, c) ==> seq_lt(a, c),
    decreases a.len(),
{
    if a.len() > 0 && b.len() > 0 && c.len() > 0 {
        lemma_seq_lt_transitive(a.drop_first(), b.drop_first(), c.drop_first());
    }
}

pub proof fn lemma_seq_lt_total(a: Seq<char>, b: Seq<char>)
    ensures
        a != b ==> seq_lt(a, b) || seq_lt(b, a),
    decreases a.len(),
{
    if a.len() > 0 && b.len() > 0 && a[0] == b[0] {
        lemma_seq_lt_total(a.drop_first(), b.drop_first());
        if a.drop_first() == b.drop_first() {
            assert(a =~= seq![a[0]] + a.drop_first());
            assert(b =~= seq![b[0]] + b.drop_first());
        }
    } else if a.len() > 0 && b.len() > 0 && a[0] != b[0] {
        vstd::utf8::char_u32_cast(a[0], a[0] as u32);
        vstd::utf8::char_u32_cast(b[0], b[0] as u32);
    } else if a.len() == 0 && b.len() == 0 {
        assert(a =~= b);
    }
}

/// `seq_le` chains.
pub proof fn lemma_seq_le_transitive(a: Seq<char>, b: Seq<char>, c: Seq<char>)
    ensures
        seq_le(a, b) && seq_le(b, c) ==> seq_le(a, c),
{
    lemma_seq_lt_total(a, b);
    lemma_seq_lt_total(b, c);
    lemma_seq_lt_transitive(c, b, a);
    lemma_seq_lt_transitive(c, a, b);
    lemma_seq_lt_transitive(b, c, a);
    lemma_seq_lt_irreflexive(a);
    lemma_seq_lt_irreflexive(b);
}

/// The positions of `keys` in the order of a stable sort by key: the first
/// position comes first among equal keys, and keys never decrease.
pub fn stable_order(keys: &Vec<String>) -> (p: Vec<usize>)
    ensures
        is_stable_order(keys@.map_values(|k: String| k@), p@),
{
    let ghost ks = keys@.map_values(|k: String| k@);
    let n = keys.len();
    let mut p: Vec<usize> = Vec::new();
    let mut i: usize = 0;
    while i < n
        invariant
            n == keys@.len(),
            ks == keys@.map_values(|k: String| k@),
            i <= n,
            p@.len() == i,
            forall|a: int| 0 <= a < i ==> #[trigger] p@[a] < i,
            forall|a: int, b: int| 0 <= a < i && 0 <= b < i && a != b ==> p@[a] != p@[b],
            sorted_by(ks, p@),
            stable_by(ks, p@),
        decreases n - i,
    {
        let ghost old_p = p@;
        let mut j: usize = i;
        while j > 0 && str_lt(keys[i].as_str(), keys[p[j - 1]].as_str())
            invariant
                n == keys@.len(),
                ks == keys@.map_values(|k: String| k@),
                i < n,
                p@ == old_p,
                p@.len() == i,
                j <= i,
                forall|a: int| 0 <= a < i ==> #[trigger] p@[a] < i,
                forall|a: int| j <= a < i ==> seq_lt(ks[i as int], #[trigger] ks[p@[a] as int]),
            decreases j,
        {
            j = j - 1;
        }
        proof {
            if j > 0 {
                assert(!seq_lt(ks[i as int], ks[p@[j - 1] as int]));
                assert forall|a: int| 0 <= a < j implies seq_le(#[trigger] ks[p@[a] as int], ks[i as int]) by {
                    if a < j - 1 {
                        assert(seq_le(ks[p@[a] as int], ks[p@[j - 1] as int]));
                        lemma_seq_le_transitive(ks[p@[a] as int], ks[p@[j - 1] as int], ks[i as int]);
                    }
                }
            }
            assert forall|a: int| j <= a < i implies ks[i as int] != #[trigger] ks[p@[a] as int] by {
                lemma_seq_lt_irreflexive(ks[i as int]);
            }
            assert forall|a: int| j <= a < i implies seq_le(ks[i as int], #[trigger] ks[p@[a] as int]) by {
                lemma_seq_lt_asymmetric(ks[i as int], ks[p@[a] as int]);
            }
        }
        p.insert(j, i);
        proof {
            let q = p@;
            assert(q == old_p.insert(j as int, i));
            assert forall|a: int| 0 <= a < i + 1 implies #[trigger] q[a] < i + 1 by {
                if a < j {
                    assert(q[a] == old_p[a]);
                } else if a > j {
                    assert(q[a] == old_p[a - 1]);
                }
            }
            assert forall|a: int, b: int| 0 <= a < i + 1 && 0 <= b < i + 1 && a != b implies q[a] != q[b] by {
                if a < j {
                    assert(q[a] == old_p[a]);
                } else if a > j {
                    assert(q[a] == old_p[a - 1]);
                }
                if b < j {
                    assert(q[b] == old_p[b]);
                } else if b > j {
                    assert(q[b] == old_p[b - 1]);
                }
            }
            assert forall|a: int, b: int| 0 <= a < b < q.len() implies
                seq_le(#[trigger] ks[q[a] as int], #[trigger] ks[q[b] as int]) by {
                if a < j {
                    assert(q[a] == old_p[a]);
                } else if a > j {
                    assert(q[a] == old_p[a - 1]);
                }
                if b < j {
                    assert(q[b] == old_p[b]);
                } else if b > j {
                    assert(q[b] == old_p[b - 1]);
                }
                if a != j && b != j {
                    let a0 = if a < j { a } else { a - 1 };
                    let b0 = if b < j { b } else { b - 1 };
                    assert(seq_le(ks[old_p[a0] as int], ks[old_p[b0] as int]));
                }
            }
            assert forall|a: int, b: int| 0 <= a < b < q.len() && #[trigger] ks[q[a] as int] == #[trigger] ks[q[b] as int]
                implies q[a] < q[b] by {
                if a < j {
                    assert(q[a] == old_p[a]);
                } else if a > j {
                    assert(q[a] == old_p[a - 1]);
                }
                if b < j {
                    assert(q[b] == old_p[b]);
                } else if b > j {
                    assert(q[b] == old_p[b - 1]);
                }
                if a != j && b != j {
                    let a0 = if a < j { a } else { a - 1 };
                    let b0 = if b < j { b } else { b - 1 };
                    assert(ks[old_p[a0] as int] == ks[old_p[b0] as int]);
                }
            }
        }
        i = i + 1;
    }
    p
}

} // verus!

verus! {

/// `output` lists the elements of `input` in the order of a stable sort by `keys`
/// (one key per element of `input`).
pub open spec fn is_stable_sort_of<V>(input: Seq<V>, keys: Seq<Seq<char>>, output: Seq<V>) -> bool {
    exists|p: Seq<usize>|
        {
            &&& #[trigger] is_stable_order(keys, p)
            &&& output.len() == input.len()
            &&& forall|i: int| 0 <= i < output.len() ==> output[i] == input[p[i] as int]
        }
}

} // verus!
