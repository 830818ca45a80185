//! Header-table helpers.
//!
//! The host keeps each message's headers in a table keyed by lowercased
//! header name; under a name, the values sit under small integer indexes in
//! arbitrary table order. Looking a header up therefore lowercases the
//! query name, sorts the (index, value) pairs by index, and keeps the
//! values.

use vstd::prelude::*;
use vstd::multiset::group_multiset_axioms;
use vstd::seq_lib::{to_multiset_contains, to_multiset_insert, to_multiset_remove};

verus! {

/// An ASCII byte with an upper-case letter folded to lower case.
pub open spec fn lower_byte(b: u8) -> u8 {
    if 65 <= b && b <= 90 {
        (b + 32) as u8
    } else {
        b
    }
}

/// A byte string with every ASCII letter folded to lower case.
pub open spec fn lowered(s: Seq<u8>) -> Seq<u8> {
    s.map(|_i: int, b: u8| lower_byte(b))
}

/// Folds a header name to ASCII lower case, the form the host's header
/// tables are keyed by.
pub fn ascii_lowercase(name: &[u8]) -> (out: Vec<u8>)
    ensures
        out@ == lowered(name@),
{
    let len = name.len();
    let mut out: Vec<u8> = Vec::new();
    proof {
        assert(out@ =~= lowered(name@.subrange(0, 0)));
    }
    let mut i: usize = 0;
    while i < len
        invariant
            i <= len,
            len == name@.len(),
            out@ == lowered(name@.subrange(0, i as int)),
        decreases len - i,
    {
        let b = name[i];
        let lb: u8 = if b >= 65 && b <= 90 {
            b + 32
        } else {
            b
        };
        proof {
            assert(lowered(name@.subrange(0, i + 1)) =~= lowered(
                name@.subrange(0, i as int),
            ).push(lower_byte(name@[i as int])));
        }
        out.push(lb);
        i = i + 1;
    }
    proof {
        assert(name@.subrange(0, len as int) =~= name@);
    }
    out
}

/// The pairs are ordered by their integer index, duplicates allowed.
pub open spec fn sorted_by_key<V>(s: Seq<(i32, V)>) -> bool {
    forall|a: int, b: int| 0 <= a < b < s.len() ==> (#[trigger] s[a]).0 <= (#[trigger] s[b]).0
}

/// Sorts (index, value) pairs by their integer index: afterwards the pairs
/// are in index order and are exactly the pairs that were there before.
pub fn sort_pairs<V>(pairs: &mut Vec<(i32, V)>)
    ensures
        sorted_by_key(final(pairs)@),
        final(pairs)@.to_multiset() == old(pairs)@.to_multiset(),
{
    broadcast use group_multiset_axioms;

    let ghost orig = pairs@;
    if pairs.len() <= 1 {
        return ;
    }
    let mut i: usize = 1;
    while i < pairs.len()
        invariant
            1 <= i <= pairs@.len(),
            pairs@.len() == orig.len(),
            sorted_by_key(pairs@.subrange(0, i as int)),
            pairs@.to_multiset() == orig.to_multiset(),
        decreases pairs@.len() - i,
    {
        let ghost before = pairs@;
        let x = pairs.remove(i);
        proof {
            assert(before.contains(before[i as int]));
            assert(pairs@.subrange(0, i as int) =~= before.subrange(0, i as int));
        }
        let mut p: usize = i;
        while p > 0 && pairs[p - 1].0 > x.0
            invariant
                p <= i,
                i <= pairs@.len(),
                pairs@ == before.remove(i as int),
                sorted_by_key(pairs@.subrange(0, i as int)),
                x == before[i as int],
                forall|a: int| p <= a < i ==> (#[trigger] pairs@[a]).0 > x.0,
            decreases p,
        {
            p = p - 1;
        }
        let ghost gap = pairs@;
        pairs.insert(p, x);
        proof {
            to_multiset_remove::<(i32, V)>(before, i as int);
            assert(before.contains(x)) by {
                assert(before[i as int] == x);
            }
            to_multiset_contains::<(i32, V)>(before, x);
            to_multiset_insert::<(i32, V)>(gap, p as int, x);
            assert(gap.to_multiset() == before.to_multiset().remove(x));
            assert(pairs@.to_multiset() == before.to_multiset().remove(x).insert(x));
            assert(pairs@.to_multiset() =~= before.to_multiset());
            gap.insert_ensures(p as int, x);
            assert forall|a: int, b: int|
                0 <= a < b < i + 1 implies (#[trigger] pairs@.subrange(0, i + 1)[a]).0 <= (
            #[trigger] pairs@.subrange(0, i + 1)[b]).0 by {
                let t = pairs@;
                assert(t.subrange(0, i + 1)[a] == t[a]);
                assert(t.subrange(0, i + 1)[b] == t[b]);
                if b < p {
                    assert(gap.subrange(0, i as int)[a] == gap[a]);
                } else if b == p {
                    if a < p {
                        assert(t[a] == gap[a]);
                        assert(gap[p - 1].0 <= x.0);
                        assert(gap.subrange(0, i as int)[a] == gap[a]);
                    }
                } else {
                    assert(t[b] == gap[b - 1]);
                    assert(gap[b - 1].0 > x.0 || gap[b - 1].0 >= gap[p as int].0) by {
                        if p <= b - 1 && b - 1 < i {
                            assert((gap[b - 1]).0 > x.0);
                        }
                    }
                    if a < p {
                        assert(t[a] == gap[a]);
                        if a < b - 1 {
                            assert(gap.subrange(0, i as int)[a] == gap[a]);
                            assert(gap.subrange(0, i as int)[b - 1] == gap[b - 1]);
                        }
                    } else if a == p {
                        assert(t[a] == x);
                        assert((gap[b - 1]).0 > x.0);
                    } else {
                        assert(t[a] == gap[a - 1]);
                        assert(gap.subrange(0, i as int)[a - 1] == gap[a - 1]);
                        assert(gap.subrange(0, i as int)[b - 1] == gap[b - 1]);
                    }
                }
            }
        }
        i = i + 1;
    }
    proof {
        assert(pairs@.subrange(0, pairs@.len() as int) =~= pairs@);
    }
}

/// The values of the pairs, in the pairs' order.
pub open spec fn pair_values_of<V>(s: Seq<(i32, V)>) -> Seq<V> {
    Seq::new(s.len(), |i: int| s[i].1)
}

/// Strips the indexes off sorted (index, value) pairs, keeping the values
/// in order.
pub fn pair_values<V>(pairs: Vec<(i32, V)>) -> (out: Vec<V>)
    ensures
        out@ == pair_values_of(pairs@),
{
    let ghost orig = pairs@;
    let ghost vals = pair_values_of(orig);
    let mut pairs = pairs;
    let mut rev: Vec<V> = Vec::new();
    proof {
        assert(orig.subrange(0, orig.len() as int) =~= orig);
        assert(rev@ =~= vals.subrange(orig.len() as int, orig.len() as int).reverse());
    }
    while pairs.len() > 0
        invariant
            vals == pair_values_of(orig),
            vals.len() == orig.len(),
            pairs@.len() <= orig.len(),
            pairs@ == orig.subrange(0, pairs@.len() as int),
            rev@ == vals.subrange(pairs@.len() as int, orig.len() as int).reverse(),
        decreases pairs@.len(),
    {
        let ghost k = pairs@.len() as int;
        let p = pairs.pop().unwrap();
        proof {
            assert(pairs@ =~= orig.subrange(0, k - 1));
            assert(p == orig[k - 1]);
            assert(vals[k - 1] == orig[k - 1].1);
            assert(p.1 == vals[k - 1]);
            let n = orig.len() as int;
            let s_new = vals.subrange(k - 1, n);
            let s_old = vals.subrange(k, n);
            assert forall|j: int| 0 <= j < s_new.len() implies #[trigger] s_new.reverse()[j] == (
            if j < s_old.len() {
                s_old.reverse()[j]
            } else {
                vals[k - 1]
            }) by {
                assert(s_new.reverse()[j] == s_new[s_new.len() - 1 - j]);
                if j < s_old.len() {
                    assert(s_old.reverse()[j] == s_old[s_old.len() - 1 - j]);
                }
            }
            assert(rev@.push(p.1) =~= s_new.reverse());
        }
        rev.push(p.1);
    }
    let mut out: Vec<V> = Vec::new();
    proof {
        assert(rev@ == vals.reverse()) by {
            assert(vals.subrange(0, orig.len() as int) =~= vals);
        }
        assert(out@ =~= vals.subrange(0, 0));
    }
    let ghost full = rev@;
    proof {
        assert(full.subrange(0, full.len() as int) =~= full);
    }
    while rev.len() > 0
        invariant
            full == vals.reverse(),
            vals.len() == full.len(),
            rev@.len() <= full.len(),
            rev@ == full.subrange(0, rev@.len() as int),
            out@ == vals.subrange(0, vals.len() - rev@.len()),
        decreases rev@.len(),
    {
        let ghost k = rev@.len() as int;
        let v = rev.pop().unwrap();
        proof {
            assert(rev@ =~= full.subrange(0, k - 1));
            assert(v == full[k - 1]);
            assert(full[k - 1] == vals[vals.len() - k]);
            assert(out@.push(v) =~= vals.subrange(0, vals.len() - (k - 1)));
        }
        out.push(v);
    }
    proof {
        assert(out@ =~= vals);
    }
    out
}

} // verus!
