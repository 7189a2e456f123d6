//! Lists of ids kept on records (a collection's items, a file's collections, a folder's
//! children in the parent index): adding without repeats and removing every occurrence.
use vstd::prelude::*;

use crate::crypto::primitives::new_uuid_v4;
use crate::schema::{Collection, CollectionItem};
use crate::text::chars_of;

verus! {

/// The views of strings.
pub open spec fn id_views(v: Seq<String>) -> Seq<Seq<char>> {
    v.map_values(|s: String| s@)
}

/// The ids after adding `id`: appended unless already present.
pub open spec fn with_id(ids: Seq<Seq<char>>, id: Seq<char>) -> Seq<Seq<char>> {
    if ids.contains(id) {
        ids
    } else {
        ids.push(id)
    }
}

/// The test that keeps every id but `id`.
pub open spec fn not_id(id: Seq<char>) -> spec_fn(Seq<char>) -> bool {
    |x: Seq<char>| x != id
}

/// The ids without any occurrence of `id`, the others in order.
pub open spec fn without_id(ids: Seq<Seq<char>>, id: Seq<char>) -> Seq<Seq<char>> {
    ids.filter(not_id(id))
}

fn same_text(a: &str, b: &Vec<char>) -> (r: bool)
    ensures
        r == (a@ == b@),
{
    let c = chars_of(a);
    if c.len() != b.len() {
        return false;
    }
    let mut i: usize = 0;
    while i < c.len()
        invariant
            c@ == a@,
            c@.len() == b@.len(),
            i <= c@.len(),
            forall|j: int| 0 <= j < i ==> c@[j] == b@[j],
        decreases c.len() - i,
    {
        if c[i] != b[i] {
            return false;
        }
        i = i + 1;
    }
    assert(c@ =~= b@);
    true
}

/// Whether the list holds `id`.
pub fn contains_id(ids: &Vec<String>, id: &str) -> (r: bool)
    ensures
        r == id_views(ids@).contains(id@),
{
    let target = chars_of(id);
    let mut i: usize = 0;
    while i < ids.len()
        invariant
            i <= ids@.len(),
            target@ == id@,
            forall|j: int| 0 <= j < i ==> id_views(ids@)[j] != id@,
        decreases ids.len() - i,
    {
        if same_text(ids[i].as_str(), &target) {
            assert(id_views(ids@)[i as int] == id@);
            return true;
        }
        i = i + 1;
    }
    false
}

/// Add `id` to the list unless it is already there.
pub fn add_unique(ids: &mut Vec<String>, id: &str)
    ensures
        id_views(final(ids)@) == with_id(id_views(old(ids)@), id@),
{
    if contains_id(ids, id) {
        return;
    }
    let ghost before = ids@;
    ids.push(String::from_str(id));
    assert(id_views(ids@) =~= id_views(before).push(id@));
}

/// Remove every occurrence of `id` from the list, keeping the others in order.
pub fn remove_id(ids: &mut Vec<String>, id: &str)
    ensures
        id_views(final(ids)@) == without_id(id_views(old(ids)@), id@),
{
    let target = chars_of(id);
    let ghost old_views = id_views(ids@);
    let mut kept: Vec<String> = Vec::new();
    let n = ids.len();
    assert(old_views.take(0) =~= Seq::<Seq<char>>::empty());
    for i in 0..n
        invariant
            n == ids@.len(),
            old_views == id_views(ids@),
            target@ == id@,
            id_views(kept@) == without_id(old_views.take(i as int), id@),
    {
        let ghost before = kept@;
        proof {
            assert(old_views.take(i + 1).drop_last() =~= old_views.take(i as int));
            assert(old_views.take(i + 1).last() == ids@[i as int]@);
            reveal_with_fuel(Seq::filter, 1);
        }
        if !same_text(ids[i].as_str(), &target) {
            kept.push(ids[i].clone());
            assert(id_views(kept@) =~= id_views(before).push(ids@[i as int]@));
        }
    }
    assert(old_views.take(n as int) =~= old_views);
    *ids = kept;
}

/// The ids after adding each of `extra` in turn, each unless already present.
pub open spec fn with_all(ids: Seq<Seq<char>>, extra: Seq<Seq<char>>) -> Seq<Seq<char>>
    decreases extra.len(),
{
    if extra.len() == 0 {
        ids
    } else {
        with_id(with_all(ids, extra.drop_last()), extra.last())
    }
}

/// Adds each id of `extra` in order, skipping those already present.
pub fn add_all_unique(ids: &mut Vec<String>, extra: &Vec<String>)
    ensures
        id_views(final(ids)@) == with_all(id_views(old(ids)@), id_views(extra@)),
{
    let ghost start = id_views(ids@);
    let ghost ev = id_views(extra@);
    assert(ev.take(0) =~= Seq::<Seq<char>>::empty());
    for i in 0..extra.len()
        invariant
            ev == id_views(extra@),
            id_views(ids@) == with_all(start, ev.take(i as int)),
    {
        proof {
            assert(ev.take(i + 1).drop_last() =~= ev.take(i as int));
            assert(ev.take(i + 1).last() == extra@[i as int]@);
        }
        add_unique(ids, extra[i].as_str());
    }
    assert(ev.take(extra@.len() as int) =~= ev);
}

/// Moves a reference: every occurrence of `from` leaves the list and `to` is added
/// unless already present.
pub fn relink(ids: &mut Vec<String>, from: &str, to: &str)
    ensures
        id_views(final(ids)@) == with_id(without_id(id_views(old(ids)@), from@), to@),
{
    remove_id(ids, from);
    add_unique(ids, to);
}

/// After adding a list of ids, the list holds exactly the ids it held and the added
/// ones; a list free of repeats stays so.
pub proof fn add_all_is_union(ids: Seq<Seq<char>>, extra: Seq<Seq<char>>, x: Seq<char>)
    ensures
        with_all(ids, extra).contains(x) <==> (ids.contains(x) || extra.contains(x)),
        ids.no_duplicates() ==> with_all(ids, extra).no_duplicates(),
    decreases extra.len(),
{
    if extra.len() > 0 {
        let prev = extra.drop_last();
        add_all_is_union(ids, prev, x);
        add_is_idempotent(with_all(ids, prev), extra.last());
        if extra.contains(x) && x != extra.last() {
            let i = choose|i: int| 0 <= i < extra.len() && extra[i] == x;
            assert(prev[i] == x);
        }
        if prev.contains(x) {
            let i = choose|i: int| 0 <= i < prev.len() && prev[i] == x;
            assert(extra[i] == x);
        }
        assert(extra[extra.len() - 1] == extra.last());
        let w = with_all(ids, prev);
        if !w.contains(extra.last()) && w.push(extra.last()).contains(x) && x != extra.last() {
            let i = choose|i: int| 0 <= i < w.push(extra.last()).len() && w.push(extra.last())[i] == x;
            assert(w[i] == x);
        }
        if w.contains(x) {
            let i = choose|i: int| 0 <= i < w.len() && w[i] == x;
            assert(w.push(extra.last())[i] == x);
        }
    }
}

/// After a reference moves, the list no longer holds the old one (unless it is also
/// the new one) and holds the new one exactly once when it held it at most once.
pub proof fn relink_moves_reference(ids: Seq<Seq<char>>, from: Seq<char>, to: Seq<char>)
    ensures
        with_id(without_id(ids, from), to).contains(to),
        from != to ==> !with_id(without_id(ids, from), to).contains(from),
        ids.no_duplicates() ==> with_id(without_id(ids, from), to).no_duplicates(),
{
    remove_drops_only_id(ids, from, to);
    add_is_idempotent(without_id(ids, from), to);
    let w = without_id(ids, from);
    if from != to && w.push(to).contains(from) {
        let i = choose|i: int| 0 <= i < w.push(to).len() && w.push(to)[i] == from;
        assert(w[i] == from);
    }
    if ids.no_duplicates() {
        lemma_filter_keeps_distinct(ids, from);
    }
}

proof fn lemma_filter_keeps_distinct(ids: Seq<Seq<char>>, id: Seq<char>)
    requires
        ids.no_duplicates(),
    ensures
        without_id(ids, id).no_duplicates(),
    decreases ids.len(),
{
    reveal_with_fuel(Seq::filter, 1);
    if ids.len() > 0 {
        let prev = ids.drop_last();
        assert(prev.no_duplicates()) by {
            assert forall|a: int, b: int| 0 <= a < prev.len() && 0 <= b < prev.len() && a != b implies prev[a] != prev[b] by {
                assert(prev[a] == ids[a] && prev[b] == ids[b]);
            }
        }
        lemma_filter_keeps_distinct(prev, id);
        let f = without_id(prev, id);
        if ids.last() != id {
            assert(!f.contains(ids.last())) by {
                if f.contains(ids.last()) {
                    let i = choose|i: int| 0 <= i < f.len() && f[i] == ids.last();
                    prev.lemma_filter_contains_rev(not_id(id), f[i]);
                    let k = choose|k: int| 0 <= k < prev.len() && prev[k] == ids.last();
                    assert(ids[k] == ids[ids.len() - 1]);
                }
            }
        }
    }
}

/// Adding an id twice adds it once; after adding it the list holds it; adding keeps a list
/// free of repeats.
pub proof fn add_is_idempotent(ids: Seq<Seq<char>>, id: Seq<char>)
    ensures
        with_id(with_id(ids, id), id) == with_id(ids, id),
        with_id(ids, id).contains(id),
        ids.no_duplicates() ==> with_id(ids, id).no_duplicates(),
{
    if !ids.contains(id) {
        assert(ids.push(id)[ids.len() as int] == id);
    }
}

/// After removing an id the list no longer holds it, and every other id it held stays.
pub proof fn remove_drops_only_id(ids: Seq<Seq<char>>, id: Seq<char>, other: Seq<char>)
    ensures
        !without_id(ids, id).contains(id),
        other != id ==> (without_id(ids, id).contains(other) <==> ids.contains(other)),
{
    let f = without_id(ids, id);
    if f.contains(id) {
        let i = choose|i: int| 0 <= i < f.len() && f[i] == id;
        ids.lemma_filter_pred(not_id(id), i);
    }
    if other != id {
        if f.contains(other) {
            ids.lemma_filter_contains_rev(not_id(id), other);
        }
        if ids.contains(other) {
            let i = choose|i: int| 0 <= i < ids.len() && ids[i] == other;
            ids.lemma_filter_contains(not_id(id), i);
        }
    }
}

/// Removing an id that was just added to a list not holding it gives the list back.
pub proof fn remove_undoes_add(ids: Seq<Seq<char>>, id: Seq<char>)
    requires
        !ids.contains(id),
    ensures
        without_id(with_id(ids, id), id) == ids,
    decreases ids.len(),
{
    lemma_filter_absent(ids, id);
    reveal_with_fuel(Seq::filter, 1);
    assert(ids.push(id).drop_last() =~= ids);
}

proof fn lemma_filter_absent(ids: Seq<Seq<char>>, id: Seq<char>)
    requires
        !ids.contains(id),
    ensures
        without_id(ids, id) == ids,
    decreases ids.len(),
{
    reveal_with_fuel(Seq::filter, 1);
    if ids.len() > 0 {
        assert(!ids.drop_last().contains(id)) by {
            if ids.drop_last().contains(id) {
                let i = choose|i: int| 0 <= i < ids.drop_last().len() && ids.drop_last()[i] == id;
                assert(ids[i] == id);
            }
        }
        lemma_filter_absent(ids.drop_last(), id);
        assert(ids.last() != id) by {
            assert(ids[ids.len() - 1] == ids.last());
        }
        assert(ids.drop_last().push(ids.last()) =~= ids);
    }
}

/// What to store under a parent after removing a child: nothing (the entry is deleted) when
/// no child remains, else the remaining children.
#[derive(Debug, Clone)]
pub enum IndexEntry {
    Delete,
    Store(Vec<String>),
}

/// The parent-index entry after removing `child` from `children`.
pub fn entry_without(children: Vec<String>, child: &str) -> (r: IndexEntry)
    ensures
        match r {
            IndexEntry::Delete => without_id(id_views(children@), child@).len() == 0,
            IndexEntry::Store(v) => id_views(v@) == without_id(id_views(children@), child@) && v@.len() > 0,
        },
{
    let mut ids = children;
    remove_id(&mut ids, child);
    if ids.len() == 0 {
        IndexEntry::Delete
    } else {
        IndexEntry::Store(ids)
    }
}

/// Whether a collection item links the collection and the file.
pub open spec fn links(item: CollectionItem, collection_id: Seq<char>, file_id: Seq<char>) -> bool {
    item.collection_id@ == collection_id && item.file_id@ == file_id
}

/// The position of the first item linking the collection and the file.
pub fn find_collection_item(items: &Vec<CollectionItem>, collection_id: &str, file_id: &str) -> (r: Option<usize>)
    ensures
        match r {
            Some(i) => i < items@.len() && links(items@[i as int], collection_id@, file_id@) && forall|j: int|
                0 <= j < i ==> !links(#[trigger] items@[j], collection_id@, file_id@),
            None => forall|j: int| 0 <= j < items@.len() ==> !links(#[trigger] items@[j], collection_id@, file_id@),
        },
{
    let c = chars_of(collection_id);
    let f = chars_of(file_id);
    let mut i: usize = 0;
    while i < items.len()
        invariant
            i <= items@.len(),
            c@ == collection_id@,
            f@ == file_id@,
            forall|j: int| 0 <= j < i ==> !links(#[trigger] items@[j], collection_id@, file_id@),
        decreases items.len() - i,
    {
        if same_text(items[i].collection_id.as_str(), &c) && same_text(items[i].file_id.as_str(), &f) {
            return Some(i);
        }
        i = i + 1;
    }
    None
}

/// A new, empty collection stamped with the given time.
pub fn new_collection(
    name: String,
    collection_type: String,
    color: String,
    description: Option<String>,
    now: String,
) -> (r: Collection)
    ensures
        r.name == name,
        r.collection_type == collection_type,
        r.color == color,
        r.description == description,
        r.item_ids@.len() == 0,
        r.created_at == now,
        r.updated_at == now,
        r.id@.len() == 36,
{
    Collection {
        id: new_uuid_v4(),
        name,
        collection_type,
        color,
        description,
        item_ids: Vec::new(),
        created_at: now.clone(),
        updated_at: now,
    }
}

} // verus!
