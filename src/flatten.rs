//! Flattening of nested lists into (outer, inner) index pairs.

use vstd::prelude::*;

verus! {

/// The group of pairs `(i, 0) .. (i, n - 1)`.
pub open spec fn pair_group(i: int, n: usize) -> Seq<(usize, usize)> {
    Seq::new(n as nat, |j: int| (i as usize, j as usize))
}

/// Every `(i, j)` with `j < lens[i]`, ordered by `i` and then by `j`.
pub open spec fn index_pairs(lens: Seq<usize>) -> Seq<(usize, usize)> {
    Seq::new(lens.len(), |i: int| pair_group(i, lens[i])).flatten()
}

pub proof fn lemma_index_pairs_step(lens: Seq<usize>, n: int)
    requires
        0 <= n < lens.len(),
    ensures
        index_pairs(lens.take(n + 1)) == index_pairs(lens.take(n)) + pair_group(n, lens[n]),
{
    let g = Seq::new((n + 1) as nat, |i: int| pair_group(i, lens.take(n + 1)[i]));
    let h = Seq::new(n as nat, |i: int| pair_group(i, lens.take(n)[i]));
    assert(g =~= h.push(pair_group(n, lens[n])));
    h.lemma_flatten_push(pair_group(n, lens[n]));
}

/// Each pair of `index_pairs(lens)` indexes a valid position.
pub proof fn lemma_index_pairs_bounds(lens: Seq<usize>, p: int)
    requires
        0 <= p < index_pairs(lens).len(),
        lens.len() <= usize::MAX,
    ensures
        (index_pairs(lens)[p].0 as int) < lens.len(),
        (index_pairs(lens)[p].1 as int) < lens[index_pairs(lens)[p].0 as int],
    decreases lens.len(),
{
    let n = lens.len() - 1;
    assert(lens.take(n + 1) =~= lens);
    lemma_index_pairs_step(lens, n);
    let front = index_pairs(lens.take(n));
    if p < front.len() {
        lemma_index_pairs_bounds(lens.take(n), p);
        assert(index_pairs(lens)[p] == front[p]);
        assert(lens.take(n)[front[p].0 as int] == lens[front[p].0 as int]);
    } else {
        assert(index_pairs(lens)[p] == pair_group(n, lens[n])[p - front.len()]);
    }
}

/// Lists every `(i, j)` with `j < lens[i]`.
pub fn pairs_of(lens: &Vec<usize>) -> (r: Vec<(usize, usize)>)
    ensures
        r@ == index_pairs(lens@),
{
    let mut out: Vec<(usize, usize)> = Vec::new();
    let mut i: usize = 0;
    assert(index_pairs(lens@.take(0)) =~= Seq::<(usize, usize)>::empty());
    while i < lens.len()
        invariant
            i <= lens@.len(),
            out@ == index_pairs(lens@.take(i as int)),
        decreases lens@.len() - i,
    {
        let n = lens[i];
        let mut j: usize = 0;
        let ghost start = out@;
        while j < n
            invariant
                i < lens@.len(),
                n == lens@[i as int],
                j <= n,
                out@ == start + pair_group(i as int, j),
            decreases n - j,
        {
            out.push((i, j));
            assert(pair_group(i as int, (j + 1) as usize) =~= pair_group(i as int, j).push((i, j)));
            j += 1;
        }
        proof {
            lemma_index_pairs_step(lens@, i as int);
        }
        i += 1;
    }
    assert(lens@.take(lens@.len() as int) =~= lens@);
    out
}

} // verus!
