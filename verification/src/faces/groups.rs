//! Face groups: the result of detecting faces in a file, the choice of clustering
//! strategy, and the merging of two groups (the members they hold together, and which
//! of the two keeps its representative face).
use vstd::prelude::*;

use crate::membership::{add_all_unique, id_views, with_all};
use crate::text::{decimal, push_decimal};

verus! {

/// Adds the members of the source group to the target group, each file once, and
/// tells whether the source group, being the larger, gives the merged group its
/// representative face.
pub fn merge_group_members(target: &mut Vec<String>, source: &Vec<String>) -> (take_source: bool)
    ensures
        id_views(final(target)@) == with_all(id_views(old(target)@), id_views(source@)),
        take_source == (source@.len() > old(target)@.len()),
{
    let take_source = source.len() > target.len();
    add_all_unique(target, source);
    take_source
}

/// Up to this many faces, clustering compares every pair.
pub const BRUTE_FORCE_THRESHOLD: usize = 200;

/// Up to this many faces (and above `BRUTE_FORCE_THRESHOLD`), clustering propagates
/// labels; above it, clustering uses hash buckets.
pub const LABEL_PROPAGATION_LIMIT: usize = 1000;

/// The faces found in one file and the groups they were assigned to.
pub struct FaceDetectionResult {
    pub file_id: String,
    pub faces_detected: usize,
    pub face_group_ids: Vec<String>,
    pub strategy_used: String,
}

/// How faces are clustered.
#[derive(Debug, Clone, Copy, PartialEq, Eq, Structural)]
pub enum ClusteringStrategy {
    /// Compare every pair: exact, for small sets.
    BruteForce,
    /// Compare only candidates from hash buckets: approximate, for large sets.
    SimHash,
    /// Propagate labels over a nearest-neighbour graph.
    ChineseWhispers,
    /// Cut a minimum spanning tree of mutual reachability distances.
    HDBSCAN,
}

/// The strategy a request names: `bruteforce`, `simhash`, `chinese_whispers` or
/// `hdbscan`; none (the automatic choice) for anything else.
pub open spec fn strategy_named(name: Option<Seq<char>>) -> Option<ClusteringStrategy> {
    match name {
        Some(n) => if n == "bruteforce"@ {
            Some(ClusteringStrategy::BruteForce)
        } else if n == "simhash"@ {
            Some(ClusteringStrategy::SimHash)
        } else if n == "chinese_whispers"@ {
            Some(ClusteringStrategy::ChineseWhispers)
        } else if n == "hdbscan"@ {
            Some(ClusteringStrategy::HDBSCAN)
        } else {
            None
        },
        None => None,
    }
}

fn same_text(a: &str, lit: &str) -> (r: bool)
    ensures
        r == (a@ == lit@),
{
    let c = crate::text::chars_of(a);
    crate::text::eq_lit(&c, lit)
}

/// The strategy a request names, if any.
pub fn strategy_from_name(name: Option<&str>) -> (r: Option<ClusteringStrategy>)
    ensures
        r == strategy_named(
            match name {
                Some(n) => Some(n@),
                None => None,
            },
        ),
{
    match name {
        Some(n) => {
            if same_text(n, "bruteforce") {
                Some(ClusteringStrategy::BruteForce)
            } else if same_text(n, "simhash") {
                Some(ClusteringStrategy::SimHash)
            } else if same_text(n, "chinese_whispers") {
                Some(ClusteringStrategy::ChineseWhispers)
            } else if same_text(n, "hdbscan") {
                Some(ClusteringStrategy::HDBSCAN)
            } else {
                None
            }
        },
        None => None,
    }
}

/// The strategy chosen for `n` faces when none is named: every pair up to
/// `BRUTE_FORCE_THRESHOLD`, label propagation up to `LABEL_PROPAGATION_LIMIT`, hash
/// buckets beyond.
pub fn auto_strategy(n: usize) -> (r: ClusteringStrategy)
    ensures
        r == (if n <= BRUTE_FORCE_THRESHOLD {
            ClusteringStrategy::BruteForce
        } else if n <= LABEL_PROPAGATION_LIMIT {
            ClusteringStrategy::ChineseWhispers
        } else {
            ClusteringStrategy::SimHash
        }),
{
    if n <= BRUTE_FORCE_THRESHOLD {
        ClusteringStrategy::BruteForce
    } else if n <= LABEL_PROPAGATION_LIMIT {
        ClusteringStrategy::ChineseWhispers
    } else {
        ClusteringStrategy::SimHash
    }
}

/// The name a strategy is recorded under.
pub open spec fn strategy_label(s: ClusteringStrategy) -> Seq<char> {
    match s {
        ClusteringStrategy::BruteForce => "BruteForce"@,
        ClusteringStrategy::SimHash => "SimHash"@,
        ClusteringStrategy::ChineseWhispers => "ChineseWhispers"@,
        ClusteringStrategy::HDBSCAN => "HDBSCAN"@,
    }
}

/// The name a strategy is recorded under.
pub fn strategy_name(s: ClusteringStrategy) -> (r: String)
    ensures
        r@ == strategy_label(s),
{
    match s {
        ClusteringStrategy::BruteForce => String::from_str("BruteForce"),
        ClusteringStrategy::SimHash => String::from_str("SimHash"),
        ClusteringStrategy::ChineseWhispers => String::from_str("ChineseWhispers"),
        ClusteringStrategy::HDBSCAN => String::from_str("HDBSCAN"),
    }
}

/// The name of the group made from the cluster at position `idx`: "Person " and
/// its number counted from one.
pub fn person_name(idx: u64) -> (r: String)
    requires
        idx < u64::MAX,
    ensures
        r@ == "Person "@ + decimal((idx + 1) as nat),
{
    let mut s = String::from_str("Person ");
    push_decimal(&mut s, idx + 1);
    s
}

} // verus!
