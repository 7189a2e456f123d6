//! The audit log: which entries a query returns, newest first.
//!
//! Timestamps compare as strings (their UTF-8 bytes in lexicographic order); entries
//! with equal timestamps keep their stored order.
use vstd::prelude::*;
use vstd::seq_lib::to_multiset_insert;

use crate::keystore::{lex_less, str_greater, str_less};
use crate::text::{chars_of, eq_lit};

verus! {

/// How many entries a query returns when it names no limit.
pub const DEFAULT_AUDIT_LIMIT: u32 = 100;

/// What a query looks at in an audit entry: its entity type and its timestamp.
pub struct AuditKey {
    pub entity_type: String,
    pub timestamp: String,
}

/// Whether an entry has the requested entity type (every entry does when none is
/// requested).
pub open spec fn of_type(k: AuditKey, entity_type: Option<Seq<char>>) -> bool {
    match entity_type {
        Some(t) => k.entity_type@ == t,
        None => true,
    }
}

/// The positions of the entries of the requested type, in stored order.
pub open spec fn kept(keys: Seq<AuditKey>, entity_type: Option<Seq<char>>) -> Seq<int>
    decreases keys.len(),
{
    if keys.len() == 0 {
        Seq::empty()
    } else {
        let rest = kept(keys.drop_last(), entity_type);
        if of_type(keys.last(), entity_type) {
            rest.push(keys.len() - 1)
        } else {
            rest
        }
    }
}

/// Whether entry `a` is strictly older than entry `b`.
pub open spec fn older(keys: Seq<AuditKey>, a: int, b: int) -> bool {
    str_less(keys[a].timestamp@, keys[b].timestamp@)
}

/// Where entry `x` goes in a list kept newest first: before the first entry strictly
/// older than it.
pub open spec fn place_of(keys: Seq<AuditKey>, s: Seq<int>, x: int) -> int
    decreases s.len(),
{
    if s.len() == 0 {
        0
    } else if older(keys, s[0], x) {
        0
    } else {
        1 + place_of(keys, s.drop_first(), x)
    }
}

/// The positions `s` ordered newest first, equal timestamps in the order of `s`.
pub open spec fn newest_first(keys: Seq<AuditKey>, s: Seq<int>) -> Seq<int>
    decreases s.len(),
{
    if s.len() == 0 {
        s
    } else {
        let r = newest_first(keys, s.drop_last());
        r.insert(place_of(keys, r, s.last()), s.last())
    }
}

/// The number of entries a query returns at most.
pub open spec fn limit_of(limit: Option<u32>) -> int {
    match limit {
        Some(l) => l as int,
        None => DEFAULT_AUDIT_LIMIT as int,
    }
}

/// The positions a query returns: the entries of the requested type, newest first,
/// at most `limit` of them.
pub open spec fn audit_selection(
    keys: Seq<AuditKey>,
    limit: Option<u32>,
    entity_type: Option<Seq<char>>,
) -> Seq<int> {
    let sorted = newest_first(keys, kept(keys, entity_type));
    sorted.take(if limit_of(limit) < sorted.len() {
        limit_of(limit)
    } else {
        sorted.len() as int
    })
}

/// The positions as integers.
pub open spec fn as_ints(v: Seq<usize>) -> Seq<int> {
    v.map_values(|x: usize| x as int)
}

proof fn lemma_lex_asym(a: Seq<u8>, b: Seq<u8>)
    ensures
        lex_less(a, b) ==> !lex_less(b, a),
    decreases a.len(),
{
    if a.len() > 0 && b.len() > 0 && a[0] == b[0] {
        lemma_lex_asym(a.drop_first(), b.drop_first());
    }
}

proof fn lemma_lex_trans(a: Seq<u8>, b: Seq<u8>, c: Seq<u8>)
    ensures
        lex_less(a, b) && lex_less(b, c) ==> lex_less(a, c),
    decreases a.len(),
{
    if a.len() > 0 && b.len() > 0 && c.len() > 0 && a[0] == b[0] && b[0] == c[0] {
        lemma_lex_trans(a.drop_first(), b.drop_first(), c.drop_first());
    }
}

proof fn lemma_older_asym(keys: Seq<AuditKey>, a: int, b: int)
    ensures
        older(keys, a, b) ==> !older(keys, b, a),
{
    lemma_lex_asym(
        vstd::utf8::encode_utf8(keys[a].timestamp@),
        vstd::utf8::encode_utf8(keys[b].timestamp@),
    );
}

proof fn lemma_older_trans(keys: Seq<AuditKey>, a: int, b: int, c: int)
    ensures
        older(keys, a, b) && older(keys, b, c) ==> older(keys, a, c),
{
    lemma_lex_trans(
        vstd::utf8::encode_utf8(keys[a].timestamp@),
        vstd::utf8::encode_utf8(keys[b].timestamp@),
        vstd::utf8::encode_utf8(keys[c].timestamp@),
    );
}

/// Whether the positions are newest first: no entry is strictly older than one after it.
pub open spec fn is_newest_first(keys: Seq<AuditKey>, s: Seq<int>) -> bool {
    forall|i: int, j: int| 0 <= i < j < s.len() ==> !older(keys, #[trigger] s[i], #[trigger] s[j])
}

proof fn lemma_place_bounds(keys: Seq<AuditKey>, s: Seq<int>, x: int)
    ensures
        0 <= place_of(keys, s, x) <= s.len(),
        forall|q: int| 0 <= q < place_of(keys, s, x) ==> !older(keys, #[trigger] s[q], x),
        place_of(keys, s, x) < s.len() ==> older(keys, s[place_of(keys, s, x)], x),
    decreases s.len(),
{
    if s.len() > 0 && !older(keys, s[0], x) {
        let t = s.drop_first();
        lemma_place_bounds(keys, t, x);
        assert forall|q: int| 0 <= q < place_of(keys, s, x) implies !older(keys, #[trigger] s[q], x) by {
            if q > 0 {
                assert(s[q] == t[q - 1]);
            }
        }
    }
}

proof fn lemma_place_at(keys: Seq<AuditKey>, s: Seq<int>, x: int, p: int)
    requires
        0 <= p <= s.len(),
        forall|q: int| 0 <= q < p ==> !older(keys, #[trigger] s[q], x),
        p < s.len() ==> older(keys, s[p], x),
    ensures
        place_of(keys, s, x) == p,
    decreases p,
{
    if p > 0 {
        let t = s.drop_first();
        assert(!older(keys, s[0], x));
        assert forall|q: int| 0 <= q < p - 1 implies !older(keys, #[trigger] t[q], x) by {
            assert(t[q] == s[q + 1]);
        }
        if p - 1 < t.len() {
            assert(t[p - 1] == s[p]);
        }
        lemma_place_at(keys, t, x, p - 1);
    }
}

proof fn lemma_insert_keeps_order(keys: Seq<AuditKey>, s: Seq<int>, x: int)
    requires
        is_newest_first(keys, s),
    ensures
        is_newest_first(keys, s.insert(place_of(keys, s, x), x)),
{
    let p = place_of(keys, s, x);
    lemma_place_bounds(keys, s, x);
    let r = s.insert(p, x);
    assert forall|i: int, j: int| 0 <= i < j < r.len() implies !older(keys, #[trigger] r[i], #[trigger] r[j]) by {
        if j < p {
            assert(r[i] == s[i] && r[j] == s[j]);
        } else if j == p {
            assert(r[i] == s[i] && r[j] == x);
        } else if i < p {
            assert(r[i] == s[i] && r[j] == s[j - 1]);
        } else if i == p {
            assert(r[i] == x && r[j] == s[j - 1]);
            lemma_older_asym(keys, s[p], x);
            lemma_older_trans(keys, s[p], x, s[j - 1]);
            if j - 1 > p {
                assert(!older(keys, s[p], s[j - 1]));
            }
        } else {
            assert(r[i] == s[i - 1] && r[j] == s[j - 1]);
        }
    }
}

/// Ordering newest first gives a list in which no entry is strictly older than one
/// after it, holding each position as often as the given list does.
pub proof fn newest_first_is_sorted_permutation(keys: Seq<AuditKey>, s: Seq<int>)
    ensures
        is_newest_first(keys, newest_first(keys, s)),
        newest_first(keys, s).to_multiset() == s.to_multiset(),
        newest_first(keys, s).len() == s.len(),
    decreases s.len(),
{
    if s.len() > 0 {
        let prev = s.drop_last();
        newest_first_is_sorted_permutation(keys, prev);
        let r = newest_first(keys, prev);
        lemma_insert_keeps_order(keys, r, s.last());
        lemma_place_bounds(keys, r, s.last());
        to_multiset_insert(r, place_of(keys, r, s.last()), s.last());
        vstd::seq_lib::to_multiset_build(prev, s.last());
        assert(prev.push(s.last()) =~= s);
    }
}

proof fn lemma_kept_facts(keys: Seq<AuditKey>, entity_type: Option<Seq<char>>)
    ensures
        forall|k: int|
            0 <= k < kept(keys, entity_type).len() ==> 0 <= #[trigger] kept(keys, entity_type)[k] < keys.len()
                && of_type(keys[kept(keys, entity_type)[k]], entity_type),
        forall|a: int, b: int|
            0 <= a < b < kept(keys, entity_type).len() ==> #[trigger] kept(keys, entity_type)[a]
                < #[trigger] kept(keys, entity_type)[b],
    decreases keys.len(),
{
    if keys.len() > 0 {
        let prev = keys.drop_last();
        lemma_kept_facts(prev, entity_type);
        let kp = kept(prev, entity_type);
        assert forall|k: int| 0 <= k < kp.len() implies keys[kp[k]] == prev[kp[k]] by {}
    }
}

/// A query returns positions of entries of the requested type, each at most once,
/// newest first, and as many as there are such entries up to the limit.
pub proof fn audit_selection_laws(keys: Seq<AuditKey>, limit: Option<u32>, entity_type: Option<Seq<char>>)
    ensures
        ({
            let r = audit_selection(keys, limit, entity_type);
            &&& is_newest_first(keys, r)
            &&& r.no_duplicates()
            &&& forall|k: int| 0 <= k < r.len() ==> 0 <= #[trigger] r[k] < keys.len() && of_type(keys[r[k]], entity_type)
            &&& r.len() == if limit_of(limit) < kept(keys, entity_type).len() {
                limit_of(limit)
            } else {
                kept(keys, entity_type).len() as int
            }
        }),
{
    let s = kept(keys, entity_type);
    let sorted = newest_first(keys, s);
    newest_first_is_sorted_permutation(keys, s);
    lemma_kept_facts(keys, entity_type);
    let r = audit_selection(keys, limit, entity_type);
    assert forall|k: int| 0 <= k < r.len() implies 0 <= #[trigger] r[k] < keys.len() && of_type(keys[r[k]], entity_type) by {
        assert(r[k] == sorted[k]);
        vstd::seq_lib::to_multiset_contains(sorted, sorted[k]);
        vstd::seq_lib::to_multiset_contains(s, sorted[k]);
        assert(sorted.contains(sorted[k]));
        assert(s.contains(sorted[k]));
    }
    assert(s.no_duplicates()) by {
        assert forall|a: int, b: int| 0 <= a < s.len() && 0 <= b < s.len() && a != b implies s[a] != s[b] by {
            if a < b {
                assert(s[a] < s[b]);
            } else {
                assert(s[b] < s[a]);
            }
        }
    }
    s.lemma_multiset_has_no_duplicates();
    sorted.lemma_multiset_has_no_duplicates_conv();
    assert(r.no_duplicates()) by {
        assert forall|a: int, b: int| 0 <= a < r.len() && 0 <= b < r.len() && a != b implies r[a] != r[b] by {
            assert(r[a] == sorted[a] && r[b] == sorted[b]);
        }
    }
    assert forall|i: int, j: int| 0 <= i < j < r.len() implies !older(keys, #[trigger] r[i], #[trigger] r[j]) by {
        assert(r[i] == sorted[i] && r[j] == sorted[j]);
    }
}

fn same_text(a: &str, b: &str) -> (r: bool)
    ensures
        r == (a@ == b@),
{
    let x = chars_of(a);
    eq_lit(&x, b)
}

/// The positions of the audit entries a query returns: those of the requested entity
/// type, newest first (equal timestamps in stored order), at most `limit` of them
/// (`DEFAULT_AUDIT_LIMIT` when none is given).
pub fn select_audit(keys: &Vec<AuditKey>, limit: Option<u32>, entity_type: Option<&str>) -> (r: Vec<usize>)
    ensures
        as_ints(r@) == audit_selection(
            keys@,
            limit,
            match entity_type {
                Some(t) => Some(t@),
                None => None,
            },
        ),
{
    let ghost et = match entity_type {
        Some(t) => Some(t@),
        None => None::<Seq<char>>,
    };
    let mut sorted: Vec<usize> = Vec::new();
    let mut i: usize = 0;
    assert(keys@.take(0) =~= Seq::<AuditKey>::empty());
    while i < keys.len()
        invariant
            i <= keys@.len(),
            et == match entity_type {
                Some(t) => Some(t@),
                None => None::<Seq<char>>,
            },
            forall|k: int| 0 <= k < sorted@.len() ==> (#[trigger] sorted@[k]) < keys@.len(),
            as_ints(sorted@) == newest_first(keys@, kept(keys@.take(i as int), et)),
        decreases keys.len() - i,
    {
        let take_it = match entity_type {
            Some(t) => same_text(keys[i].entity_type.as_str(), t),
            None => true,
        };
        proof {
            let t = keys@.take(i + 1);
            assert(t.drop_last() =~= keys@.take(i as int));
            assert(t.last() == keys@[i as int]);
        }
        if take_it {
            let mut p: usize = 0;
            let ghost s = as_ints(sorted@);
            while p < sorted.len() && !str_greater(keys[i].timestamp.as_str(), keys[sorted[p]].timestamp.as_str())
                invariant
                    i < keys@.len(),
                    p <= sorted@.len(),
                    s == as_ints(sorted@),
                    forall|k: int| 0 <= k < sorted@.len() ==> (#[trigger] sorted@[k]) < keys@.len(),
                    forall|q: int| 0 <= q < p ==> !older(keys@, #[trigger] s[q], i as int),
                decreases sorted.len() - p,
            {
                p = p + 1;
            }
            proof {
                lemma_place_at(keys@, s, i as int, p as int);
            }
            sorted.insert(p, i);
            proof {
                assert(as_ints(sorted@) =~= s.insert(p as int, i as int));
                let t = keys@.take(i + 1);
                assert(kept(t, et) == kept(keys@.take(i as int), et).push(i as int));
                assert(kept(t, et).drop_last() =~= kept(keys@.take(i as int), et));
            }
        }
        i = i + 1;
    }
    assert(keys@.take(keys@.len() as int) =~= keys@);
    let cap: usize = match limit {
        Some(l) => l as usize,
        None => DEFAULT_AUDIT_LIMIT as usize,
    };
    if cap < sorted.len() {
        sorted.truncate(cap);
    }
    proof {
        let full = newest_first(keys@, kept(keys@, et));
        assert(as_ints(sorted@) =~= full.take(
            if limit_of(limit) < full.len() {
                limit_of(limit)
            } else {
                full.len() as int
            },
        ));
    }
    sorted
}

} // verus!
