//! 64-bit binary hash codes compared by the number of differing bits.
use vstd::prelude::*;

verus! {

/// The number of one bits among the lowest `k` bits of `x`.
pub open spec fn ones_in_low_bits(x: nat, k: nat) -> nat
    decreases k,
{
    if k == 0 {
        0
    } else {
        x % 2 + ones_in_low_bits(x / 2, (k - 1) as nat)
    }
}

proof fn lemma_ones_bounded(x: nat, k: nat)
    ensures
        ones_in_low_bits(x, k) <= k,
    decreases k,
{
    if k > 0 {
        lemma_ones_bounded(x / 2, (k - 1) as nat);
    }
}

/// The Hamming distance of two hash codes: the number of bit positions where they
/// differ, from 0 for equal codes to 64.
pub fn hamming_distance(a: u64, b: u64) -> (r: u32)
    ensures
        r == ones_in_low_bits((a ^ b) as nat, 64),
        r <= 64,
{
    let x: u64 = a ^ b;
    let mut v: u64 = x;
    let mut c: u32 = 0;
    let mut i: u32 = 0;
    while i < 64
        invariant
            i <= 64,
            c <= i,
            c + ones_in_low_bits(v as nat, (64 - i) as nat) == ones_in_low_bits(x as nat, 64),
        decreases 64 - i,
    {
        let bit: u64 = v % 2;
        c = c + (bit as u32);
        v = v / 2;
        i = i + 1;
    }
    proof {
        lemma_ones_bounded(x as nat, 64);
    }
    c
}

/// Whether bucket `b` lies within `max_dist` differing bits of the query code and
/// lists `idx`.
pub open spec fn listed_within(
    buckets: Seq<(u64, Vec<usize>)>,
    query_hash: u64,
    max_dist: u32,
    b: int,
    idx: usize,
) -> bool {
    &&& 0 <= b < buckets.len()
    &&& ones_in_low_bits((query_hash ^ buckets[b].0) as nat, 64) <= max_dist
    &&& buckets[b].1@.contains(idx)
}

/// Whether `idx` is a candidate: listed in some bucket near the query, and not the
/// excluded index.
pub open spec fn is_candidate(
    buckets: Seq<(u64, Vec<usize>)>,
    query_hash: u64,
    max_dist: u32,
    exclude: Option<usize>,
    idx: usize,
) -> bool {
    exclude != Some(idx) && exists|b: int| listed_within(buckets, query_hash, max_dist, b, idx)
}

/// Whether a bucket before position `bi` lies near the query and lists `idx`.
pub open spec fn listed_before(
    buckets: Seq<(u64, Vec<usize>)>,
    query_hash: u64,
    max_dist: u32,
    bi: int,
    idx: usize,
) -> bool {
    exists|b: int| 0 <= b < bi && listed_within(buckets, query_hash, max_dist, b, idx)
}

fn holds_index(v: &Vec<usize>, x: usize) -> (r: bool)
    ensures
        r == v@.contains(x),
{
    let mut i: usize = 0;
    while i < v.len()
        invariant
            i <= v@.len(),
            forall|j: int| 0 <= j < i ==> v@[j] != x,
        decreases v.len() - i,
    {
        if v[i] == x {
            return true;
        }
        i = i + 1;
    }
    false
}

/// The candidates of a query among hash buckets (code, indices listed under it):
/// every index listed in a bucket whose code is within `max_dist` bits of
/// `query_hash`, but `exclude`, each once.
pub fn bucket_candidates(
    query_hash: u64,
    buckets: &Vec<(u64, Vec<usize>)>,
    max_dist: u32,
    exclude: Option<usize>,
) -> (r: Vec<usize>)
    ensures
        forall|idx: usize|
            r@.contains(idx) <==> is_candidate(buckets@, query_hash, max_dist, exclude, idx),
        r@.no_duplicates(),
{
    let mut out: Vec<usize> = Vec::new();
    let mut bi: usize = 0;
    while bi < buckets.len()
        invariant
            bi <= buckets@.len(),
            out@.no_duplicates(),
            forall|idx: usize|
                #[trigger] out@.contains(idx) <==> (exclude != Some(idx) && listed_before(
                    buckets@,
                    query_hash,
                    max_dist,
                    bi as int,
                    idx,
                )),
        decreases buckets.len() - bi,
    {
        let code: u64 = buckets[bi].0;
        let near = hamming_distance(query_hash, code) <= max_dist;
        let ghost out0 = out@;
        let ghost bs = buckets@;
        if near {
            let list = &buckets[bi].1;
            let mut k: usize = 0;
            while k < list.len()
                invariant
                    k <= list@.len(),
                    out@.no_duplicates(),
                    forall|idx: usize|
                        #[trigger] out@.contains(idx) <==> (out0.contains(idx) || (exclude != Some(
                            idx,
                        ) && list@.take(k as int).contains(idx))),
                decreases list.len() - k,
            {
                let idx = list[k];
                let skip = match exclude {
                    Some(e) => e == idx,
                    None => false,
                };
                let ghost before = out@;
                if !skip && !holds_index(&out, idx) {
                    out.push(idx);
                    proof {
                        assert forall|a: int, c: int|
                            0 <= a < out@.len() && 0 <= c < out@.len() && a != c implies out@[a]
                            != out@[c] by {
                            if a < before.len() && c < before.len() {
                                assert(before[a] != before[c]);
                            } else if a < before.len() {
                                assert(before.contains(out@[a]));
                            } else {
                                assert(before.contains(out@[c]));
                            }
                        }
                    }
                }
                proof {
                    let seen = list@.take(k as int);
                    let seen2 = list@.take(k + 1);
                    assert(seen2 =~= seen.push(idx));
                    assert forall|y: usize|
                        #[trigger] out@.contains(y) <==> (out0.contains(y) || (exclude != Some(y)
                            && seen2.contains(y))) by {
                        assert(before.contains(y) <==> (out0.contains(y) || (exclude != Some(y)
                            && seen.contains(y))));
                        if seen2.contains(y) && y != idx {
                            let m = choose|m: int| 0 <= m < seen2.len() && seen2[m] == y;
                            assert(seen[m] == y);
                        }
                        if seen.contains(y) {
                            let m = choose|m: int| 0 <= m < seen.len() && seen[m] == y;
                            assert(seen2[m] == y);
                        }
                        assert(seen2[k as int] == idx);
                        if before.contains(y) {
                            let m = choose|m: int| 0 <= m < before.len() && before[m] == y;
                            assert(out@[m] == y);
                        }
                        if out@.contains(y) && !before.contains(y) {
                            let m = choose|m: int| 0 <= m < out@.len() && out@[m] == y;
                            assert(m == before.len());
                        }
                        if y == idx && exclude != Some(y) && !before.contains(y) {
                            assert(out@[before.len() as int] == y);
                        }
                    }
                }
                k = k + 1;
            }
            proof {
                assert(list@.take(k as int) =~= list@);
                assert forall|idx: usize|
                    #[trigger] out@.contains(idx) <==> (exclude != Some(idx) && listed_before(
                        bs,
                        query_hash,
                        max_dist,
                        bi + 1,
                        idx,
                    )) by {
                    assert(out0.contains(idx) <==> (exclude != Some(idx) && listed_before(
                        bs,
                        query_hash,
                        max_dist,
                        bi as int,
                        idx,
                    )));
                    if list@.contains(idx) {
                        assert(listed_within(bs, query_hash, max_dist, bi as int, idx));
                    }
                    if listed_before(bs, query_hash, max_dist, bi + 1, idx) {
                        let b = choose|b: int|
                            0 <= b < bi + 1 && listed_within(bs, query_hash, max_dist, b, idx);
                        if b < bi {
                            assert(listed_before(bs, query_hash, max_dist, bi as int, idx));
                        }
                    }
                    if listed_before(bs, query_hash, max_dist, bi as int, idx) {
                        let b = choose|b: int|
                            0 <= b < bi && listed_within(bs, query_hash, max_dist, b, idx);
                        assert(0 <= b < bi + 1 && listed_within(bs, query_hash, max_dist, b, idx));
                    }
                }
            }
        } else {
            proof {
                assert forall|idx: usize|
                    #[trigger] out@.contains(idx) <==> (exclude != Some(idx) && listed_before(
                        bs,
                        query_hash,
                        max_dist,
                        bi + 1,
                        idx,
                    )) by {
                    if listed_before(bs, query_hash, max_dist, bi + 1, idx) {
                        let b = choose|b: int|
                            0 <= b < bi + 1 && listed_within(bs, query_hash, max_dist, b, idx);
                        assert(b != bi as int);
                        assert(listed_before(bs, query_hash, max_dist, bi as int, idx));
                    }
                    if listed_before(bs, query_hash, max_dist, bi as int, idx) {
                        let b = choose|b: int|
                            0 <= b < bi && listed_within(bs, query_hash, max_dist, b, idx);
                        assert(0 <= b < bi + 1 && listed_within(bs, query_hash, max_dist, b, idx));
                    }
                }
            }
        }
        bi = bi + 1;
    }
    proof {
        assert forall|idx: usize|
            #[trigger] out@.contains(idx) <==> is_candidate(
                buckets@,
                query_hash,
                max_dist,
                exclude,
                idx,
            ) by {
            if exists|b: int| listed_within(buckets@, query_hash, max_dist, b, idx) {
                let b = choose|b: int| listed_within(buckets@, query_hash, max_dist, b, idx);
                assert(0 <= b < bi && listed_within(buckets@, query_hash, max_dist, b, idx));
            }
            if listed_before(buckets@, query_hash, max_dist, bi as int, idx) {
                let b = choose|b: int|
                    0 <= b < bi && listed_within(buckets@, query_hash, max_dist, b, idx);
                assert(listed_within(buckets@, query_hash, max_dist, b, idx));
            }
        }
    }
    out
}

} // verus!
