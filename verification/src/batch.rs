//! Partitioning the input list into fixed-size groups, each processed by
//! one independent pipeline run.

use vstd::prelude::*;

verus! {

/// The input list split into consecutive chunks of `k` elements; the last
/// chunk may be shorter. Order is kept within and across chunks.
pub open spec fn chunked(s: Seq<Seq<char>>, k: int) -> Seq<Seq<Seq<char>>>
    recommends
        k >= 1,
    decreases s.len(),
    when k >= 1
{
    if s.len() == 0 {
        Seq::empty()
    } else if s.len() <= k {
        seq![s]
    } else {
        seq![s.take(k)] + chunked(s.skip(k), k)
    }
}

/// Partitioning is order-preserving and exhaustive: concatenating all
/// groups reproduces the original input list exactly. Every group but the
/// last holds exactly `k` inputs, and none is empty.
pub proof fn lemma_chunked_exhaustive(s: Seq<Seq<char>>, k: int)
    requires
        k >= 1,
    ensures
        chunked(s, k).flatten() == s,
        forall|i: int| 0 <= i < chunked(s, k).len() - 1 ==> (#[trigger] chunked(s, k)[i]).len()
            == k,
        forall|i: int|
            0 <= i < chunked(s, k).len() ==> 1 <= (#[trigger] chunked(s, k)[i]).len() <= k,
    decreases s.len(),
{
    if s.len() == 0 {
        assert(chunked(s, k).flatten() =~= s);
    } else if s.len() <= k {
        assert(chunked(s, k) =~= seq![s]);
        seq![s].lemma_flatten_one_element();
        assert(seq![s].first() == s);
        assert(chunked(s, k).flatten() == s);
    } else {
        lemma_chunked_exhaustive(s.skip(k), k);
        let c = chunked(s, k);
        let rest = chunked(s.skip(k), k);
        assert(c == seq![s.take(k)] + rest);
        assert(c[0] == s.take(k));
        assert(c.first() == s.take(k));
        assert(c.drop_first() =~= rest);
        assert(c.flatten() == c.first().add(c.drop_first().flatten()));
        assert(s.take(k).add(s.skip(k)) =~= s);
        assert(c.flatten() == s);
        assert(c.len() == 1 + rest.len());
        assert forall|i: int| 0 <= i < c.len() implies 1 <= (#[trigger] c[i]).len() <= k by {
            if i > 0 {
                assert(c[i] == rest[i - 1]);
            }
        }
        assert forall|i: int| 0 <= i < c.len() - 1 implies (#[trigger] c[i]).len() == k by {
            if i > 0 {
                assert(c[i] == rest[i - 1]);
            }
        }
    }
}

/// Copy the elements of `v` with indices in `[start, end)`.
pub(crate) fn clone_range(v: &Vec<String>, start: usize, end: usize) -> (r: Vec<String>)
    requires
        start <= end <= v.len(),
    ensures
        r.deep_view() == v.deep_view().subrange(start as int, end as int),
{
    let mut r: Vec<String> = Vec::new();
    let mut i: usize = start;
    while i < end
        invariant
            start <= i <= end <= v.len(),
            r.deep_view() =~= v.deep_view().subrange(start as int, i as int),
        decreases end - i,
    {
        let ghost pre = r.deep_view();
        let s = v[i].clone();
        proof {
            assert(s@ == v@[i as int]@);
        }
        r.push(s);
        proof {
            assert(r.deep_view() =~= pre.push(v@[i as int]@));
            assert(r.deep_view() =~= v.deep_view().subrange(start as int, i as int + 1));
        }
        i = i + 1;
    }
    proof {
        assert(r.deep_view() =~= v.deep_view().subrange(start as int, end as int));
    }
    r
}

/// The groups of `inputs` from index `start` on.
fn partition_from(inputs: &Vec<String>, start: usize, k: usize) -> (r: Vec<Vec<String>>)
    requires
        k >= 1,
        start <= inputs.len(),
    ensures
        r.deep_view() == chunked(inputs.deep_view().skip(start as int), k as int),
    decreases inputs.len() - start,
{
    let n = inputs.len();
    if start == n {
        let r: Vec<Vec<String>> = Vec::new();
        proof {
            assert(r.deep_view() =~= chunked(inputs.deep_view().skip(start as int), k as int));
        }
        return r;
    }
    let end = if n - start <= k {
        n
    } else {
        start + k
    };
    let group = clone_range(inputs, start, end);
    let mut r = partition_from(inputs, end, k);
    r.insert(0, group);
    proof {
        let s = inputs.deep_view().skip(start as int);
        if n - start <= k {
            assert(group.deep_view() =~= s);
            assert(chunked(s, k as int) == seq![s]);
            assert(inputs.deep_view().skip(end as int) =~= Seq::<Seq<char>>::empty());
            assert(r.deep_view() =~= chunked(s, k as int));
        } else {
            assert(group.deep_view() =~= s.take(k as int));
            assert(inputs.deep_view().skip(end as int) =~= s.skip(k as int));
            assert(r.deep_view() =~= seq![s.take(k as int)] + chunked(s.skip(k as int), k as int));
        }
    }
    r
}

/// Split `inputs` into consecutive groups of `group_size`; the last group
/// may be shorter. Each group is handed to one independent pipeline run.
pub fn partition(inputs: &Vec<String>, group_size: usize) -> (r: Vec<Vec<String>>)
    requires
        group_size >= 1,
    ensures
        r.deep_view() == chunked(inputs.deep_view(), group_size as int),
{
    let r = partition_from(inputs, 0, group_size);
    proof {
        assert(inputs.deep_view().skip(0) =~= inputs.deep_view());
    }
    r
}

} // verus!
