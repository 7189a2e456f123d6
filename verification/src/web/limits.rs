//! Per-client request rate limiting over fixed windows.
use vstd::prelude::*;

use crate::text::{chars_of, string_of};

verus! {

/// Requests a client may make in one window.
pub const RATE_LIMIT_MAX: u32 = 100;
/// Length of a rate-limit window, in seconds.
pub const RATE_LIMIT_WINDOW_SECS: u64 = 60;

/// The count of one client in its current window.
#[derive(Debug, Clone)]
pub struct RateEntry {
    pub client: String,
    pub count: u32,
    /// Clock reading (seconds) when the window started.
    pub window_start: u64,
}

/// The abstract entry: client, count and window start.
pub type EntryModel = (Seq<char>, u32, u64);

/// Seconds from `start` to `now`, or 0 when `now` is earlier.
pub open spec fn elapsed(now: u64, start: u64) -> int {
    if now >= start {
        now - start
    } else {
        0
    }
}

/// The entries still remembered at `now`: those whose window started less than two
/// windows ago.
pub open spec fn fresh_entries(entries: Seq<EntryModel>, now: u64) -> Seq<EntryModel>
    decreases entries.len(),
{
    if entries.len() == 0 {
        entries
    } else if elapsed(now, entries.last().2) < 2 * RATE_LIMIT_WINDOW_SECS {
        fresh_entries(entries.drop_last(), now).push(entries.last())
    } else {
        fresh_entries(entries.drop_last(), now)
    }
}

/// `i` is the first entry of the client.
pub open spec fn is_first_entry(entries: Seq<EntryModel>, client: Seq<char>, i: int) -> bool {
    0 <= i < entries.len() && entries[i].0 == client && forall|j: int| 0 <= j < i ==> (#[trigger] entries[j]).0 != client
}

/// The count after one more request of an entry: restarted when its window is over.
pub open spec fn counted(e: EntryModel, now: u64) -> EntryModel {
    if elapsed(now, e.2) >= RATE_LIMIT_WINDOW_SECS {
        (e.0, 1u32, now)
    } else {
        (e.0, if e.1 == u32::MAX { u32::MAX } else { (e.1 + 1) as u32 }, e.2)
    }
}

/// The entries after a request of `client` at `now`: stale entries are forgotten, then the
/// client's entry counts the request (a new client starts a window with count 1).
pub open spec fn after_request(entries: Seq<EntryModel>, client: Seq<char>, now: u64) -> Seq<EntryModel> {
    let kept = fresh_entries(entries, now);
    if exists|i: int| is_first_entry(kept, client, i) {
        let i = choose|i: int| is_first_entry(kept, client, i);
        kept.update(i, counted(kept[i], now))
    } else {
        kept.push((client, 1u32, now))
    }
}

/// The count of the client's entry after its request.
pub open spec fn count_after(entries: Seq<EntryModel>, client: Seq<char>, now: u64) -> u32 {
    let kept = fresh_entries(entries, now);
    if exists|i: int| is_first_entry(kept, client, i) {
        counted(kept[choose|i: int| is_first_entry(kept, client, i)], now).1
    } else {
        1
    }
}

/// Request counts of the clients, each in its own window.
pub struct RateLimiter {
    entries: Vec<RateEntry>,
}

/// The abstract form of an entry.
pub open spec fn entry_model(e: RateEntry) -> EntryModel {
    (e.client@, e.count, e.window_start)
}

/// The abstract forms of entries.
pub open spec fn entry_models(v: Seq<RateEntry>) -> Seq<EntryModel> {
    v.map_values(|e: RateEntry| entry_model(e))
}

impl RateLimiter {
    /// The entries, in the order clients first appeared.
    pub closed spec fn entries(&self) -> Seq<EntryModel> {
        entry_models(self.entries@)
    }

    /// A limiter that has seen no request.
    pub fn new() -> (r: RateLimiter)
        ensures
            r.entries() == Seq::<EntryModel>::empty(),
    {
        let r = RateLimiter { entries: Vec::new() };
        assert(r.entries() =~= Seq::<EntryModel>::empty());
        r
    }

    /// Count a request of `client_ip` at clock reading `now` (seconds) and say whether it is
    /// within the limit: at most `RATE_LIMIT_MAX` requests per window.
    pub fn check_rate_limit(&mut self, client_ip: &str, now: u64) -> (r: bool)
        ensures
            final(self).entries() == after_request(old(self).entries(), client_ip@, now),
            r == (count_after(old(self).entries(), client_ip@, now) <= RATE_LIMIT_MAX),
    {
        let ghost old_entries = self.entries();
        let mut kept: Vec<RateEntry> = Vec::new();
        let n = self.entries.len();
        let mut i: usize = 0;
        assert(old_entries.take(0) =~= Seq::<EntryModel>::empty());
        while i < n
            invariant
                n == self.entries@.len(),
                i <= n,
                old_entries == self.entries(),
                entry_models(kept@) == fresh_entries(old_entries.take(i as int), now),
            decreases n - i,
        {
            let e = &self.entries[i];
            let age: u64 = if now >= e.window_start { now - e.window_start } else { 0 };
            proof {
                assert(old_entries.take(i + 1).drop_last() =~= old_entries.take(i as int));
                assert(old_entries.take(i + 1).last() == entry_model(*e));
            }
            if age < 2 * RATE_LIMIT_WINDOW_SECS {
                let ghost before = kept@;
                kept.push(RateEntry { client: e.client.clone(), count: e.count, window_start: e.window_start });
                assert(entry_models(kept@) =~= entry_models(before).push(entry_model(*e)));
            }
            i = i + 1;
        }
        assert(old_entries.take(n as int) =~= old_entries);
        let ghost kept_model = fresh_entries(old_entries, now);
        let c = chars_of(client_ip);
        let found = find_client(&kept, &c);
        assert(entry_models(kept@) == kept_model);
        let count: u32 = match found {
            Some(j) => {
                proof {
                    assert(kept_model[j as int] == entry_model(kept@[j as int]));
                    assert(is_first_entry(kept_model, client_ip@, j as int));
                    let w = choose|w: int| is_first_entry(kept_model, client_ip@, w);
                    assert(w == j as int) by {
                        if w < j {
                        } else if w > j {
                            assert(kept_model[j as int].0 == client_ip@);
                        }
                    }
                }
                let start = kept[j].window_start;
                let age: u64 = if now >= start { now - start } else { 0 };
                let old_count = kept[j].count;
                let entry = if age >= RATE_LIMIT_WINDOW_SECS {
                    RateEntry { client: kept[j].client.clone(), count: 1, window_start: now }
                } else {
                    RateEntry { client: kept[j].client.clone(), count: old_count.saturating_add(1), window_start: start }
                };
                let nc = entry.count;
                let ghost before = kept@;
                kept.set(j, entry);
                assert(entry_models(kept@) =~= kept_model.update(
                    j as int,
                    counted(kept_model[j as int], now),
                ));
                nc
            },
            None => {
                assert(!exists|w: int| is_first_entry(kept_model, client_ip@, w));
                let ghost before = kept@;
                kept.push(RateEntry { client: string_of(c.as_slice()), count: 1, window_start: now });
                assert(entry_models(kept@) =~= kept_model.push((client_ip@, 1u32, now)));
                1
            },
        };
        self.entries = kept;
        count <= RATE_LIMIT_MAX
    }
}

fn find_client(kept: &Vec<RateEntry>, c: &Vec<char>) -> (r: Option<usize>)
    ensures
        match r {
            Some(j) => is_first_entry(entry_models(kept@), c@, j as int),
            None => forall|j: int|
                0 <= j < kept@.len() ==> (#[trigger] entry_models(kept@)[j]).0 != c@,
        },
{
    let ghost m = entry_models(kept@);
    let mut k: usize = 0;
    while k < kept.len()
        invariant
            m == entry_models(kept@),
            k <= kept@.len(),
            forall|j: int| 0 <= j < k ==> (#[trigger] m[j]).0 != c@,
        decreases kept.len() - k,
    {
        let kc = chars_of(kept[k].client.as_str());
        assert(m[k as int].0 == kc@);
        if same(&kc, c) {
            return Some(k);
        }
        k = k + 1;
    }
    None
}

fn same(a: &Vec<char>, b: &Vec<char>) -> (r: bool)
    ensures
        r == (a@ == b@),
{
    if a.len() != b.len() {
        return false;
    }
    let mut i: usize = 0;
    while i < a.len()
        invariant
            a@.len() == b@.len(),
            i <= a@.len(),
            forall|j: int| 0 <= j < i ==> a@[j] == b@[j],
        decreases a.len() - i,
    {
        if a[i] != b[i] {
            return false;
        }
        i = i + 1;
    }
    assert(a@ =~= b@);
    true
}

/// Within a window, a client that has already made `RATE_LIMIT_MAX` requests is refused;
/// a client with no remembered entry is accepted.
pub proof fn limit_is_enforced(entries: Seq<EntryModel>, client: Seq<char>, now: u64)
    ensures
        (forall|i: int| 0 <= i < fresh_entries(entries, now).len() ==> (#[trigger] fresh_entries(entries, now)[i]).0
            != client) ==> count_after(entries, client, now) <= RATE_LIMIT_MAX,
        forall|i: int|
            is_first_entry(fresh_entries(entries, now), client, i) && elapsed(now, fresh_entries(entries, now)[i].2)
                < RATE_LIMIT_WINDOW_SECS && fresh_entries(entries, now)[i].1 >= RATE_LIMIT_MAX ==> count_after(
                entries,
                client,
                now,
            ) > RATE_LIMIT_MAX,
{
    let kept = fresh_entries(entries, now);
    assert forall|i: int|
        is_first_entry(kept, client, i) && elapsed(now, kept[i].2) < RATE_LIMIT_WINDOW_SECS && kept[i].1
            >= RATE_LIMIT_MAX implies count_after(entries, client, now) > RATE_LIMIT_MAX by {
        let w = choose|w: int| is_first_entry(kept, client, w);
        assert(w == i) by {
            if w < i {
            } else if w > i {
                assert(kept[i].0 == client);
            }
        }
    }
}

} // verus!
