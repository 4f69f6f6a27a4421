//! Broad-phase pair enumeration. Contacts are solved in the order of this
//! list, so its order is part of what peers must agree on: every unordered
//! pair of bodies once, the earlier body first, ordered by the earlier body
//! and then by the later one, all in storage order.
use vstd::prelude::*;

verus! {

/// Every pair `(ids[i], ids[j])` with `i < j`, ordered by `i`, then by `j`.
pub open spec fn pairs_from(ids: Seq<usize>) -> Seq<(usize, usize)>
    decreases ids.len(),
{
    if ids.len() == 0 {
        Seq::empty()
    } else {
        Seq::new((ids.len() - 1) as nat, |k: int| (ids[0], ids[k + 1])) + pairs_from(ids.drop_first())
    }
}

/// The candidate pairs of the broad phase over the bodies `ids`, listed in
/// storage order; the caller keeps those whose bounding boxes overlap.
pub fn candidate_pairs(ids: &Vec<usize>) -> (r: Vec<(usize, usize)>)
    ensures
        r@ == pairs_from(ids@),
{
    let n = ids.len();
    let mut out: Vec<(usize, usize)> = Vec::new();
    let mut i: usize = 0;
    proof {
        assert(ids@.subrange(0, n as int) =~= ids@);
    }
    while i < n
        invariant
            n == ids@.len(),
            i <= n,
            out@ + pairs_from(ids@.subrange(i as int, n as int)) == pairs_from(ids@),
        decreases n - i,
    {
        let ghost start = out@;
        let ghost rest = ids@.subrange(i as int, n as int);
        let mut j: usize = i + 1;
        while j < n
            invariant
                n == ids@.len(),
                i < n,
                i + 1 <= j <= n,
                rest == ids@.subrange(i as int, n as int),
                start + pairs_from(rest) == pairs_from(ids@),
                out@ == start + Seq::new((j - i - 1) as nat, |k: int| (ids@[i as int], ids@[i + 1 + k])),
            decreases n - j,
        {
            proof {
                assert(Seq::new((j + 1 - i - 1) as nat, |k: int| (ids@[i as int], ids@[i + 1 + k]))
                    =~= Seq::new((j - i - 1) as nat, |k: int| (ids@[i as int], ids@[i + 1 + k])).push(
                    (ids@[i as int], ids@[j as int]),
                ));
            }
            out.push((ids[i], ids[j]));
            j += 1;
        }
        proof {
            assert(rest.drop_first() =~= ids@.subrange(i + 1, n as int));
            assert(Seq::new((rest.len() - 1) as nat, |k: int| (rest[0], rest[k + 1]))
                =~= Seq::new((n - i - 1) as nat, |k: int| (ids@[i as int], ids@[i + 1 + k])));
            assert(pairs_from(rest) == Seq::new((rest.len() - 1) as nat, |k: int| (rest[0], rest[k + 1]))
                + pairs_from(rest.drop_first()));
            assert(out@ + pairs_from(ids@.subrange(i + 1, n as int)) =~= start + pairs_from(rest));
        }
        i += 1;
    }
    proof {
        assert(ids@.subrange(n as int, n as int) =~= Seq::<usize>::empty());
        assert(out@ + Seq::<(usize, usize)>::empty() =~= out@);
    }
    out
}

} // verus!
