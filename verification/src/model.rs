//! The mathematical model of the store and the effect of each operation on it.

use vstd::prelude::*;

use crate::record::RecordView;

verus! {

/// The mathematical model of the store: the current records, keyed by
/// identifier, and the identifier the allocator will hand out next.
pub ghost struct StoreView {
    pub records: Map<u64, RecordView>,
    pub next_id: u64,
}

impl StoreView {
    /// Every well-formed store has finitely many records, every stored
    /// identifier lies strictly below the allocator counter (so a fresh
    /// identifier never collides with a stored one), and every record
    /// carries the identifier it is stored under.
    pub open spec fn wf(self) -> bool {
        &&& self.records.dom().finite()
        &&& forall|id: u64| #[trigger] self.records.contains_key(id)
                ==> id < self.next_id && self.records[id].id == id
    }

    /// The store of a freshly initialized service: no records, counter at 0.
    pub open spec fn initial() -> StoreView {
        StoreView { records: Map::empty(), next_id: 0 }
    }
}

/// What a point lookup observes: the record stored under `id`, if any.
pub open spec fn lookup(s: StoreView, id: u64) -> Option<RecordView> {
    if s.records.contains_key(id) {
        Some(s.records[id])
    } else {
        None
    }
}

/// The record that a create against store `s` builds: it carries the next
/// free identifier, the given texts, and the given creation time.
pub open spec fn created_record(
    s: StoreView,
    title: Seq<char>,
    content: Seq<char>,
    now: i64,
) -> RecordView {
    RecordView { id: s.next_id, title, content, created_at: now }
}

/// The store after a create: the new record is inserted under its
/// identifier and the allocator counter advances by one. Allocation and
/// insertion form one atomic step; no store state ever holds an allocated
/// but missing identifier.
pub open spec fn create_post(
    s: StoreView,
    title: Seq<char>,
    content: Seq<char>,
    now: i64,
) -> StoreView {
    StoreView {
        records: s.records.insert(s.next_id, created_record(s, title, content, now)),
        next_id: (s.next_id + 1) as u64,
    }
}

/// The record that a successful update of `id` leaves in the store: both
/// texts are replaced together, while the identifier and the creation time
/// of the existing record are kept.
pub open spec fn updated_record(
    s: StoreView,
    id: u64,
    title: Seq<char>,
    content: Seq<char>,
) -> RecordView {
    RecordView { id, title, content, created_at: s.records[id].created_at }
}

/// The store after an update: the record under `id` is replaced, or the
/// store is unchanged when `id` is absent (the operation reports NotFound).
pub open spec fn update_post(
    s: StoreView,
    id: u64,
    title: Seq<char>,
    content: Seq<char>,
) -> StoreView {
    if s.records.contains_key(id) {
        StoreView { records: s.records.insert(id, updated_record(s, id, title, content)), ..s }
    } else {
        s
    }
}

/// The store after a delete: the record under `id` is gone, but the
/// allocator counter keeps its value, so the identifier is retired for
/// good. When `id` is absent the store is unchanged (NotFound).
pub open spec fn delete_post(s: StoreView, id: u64) -> StoreView {
    if s.records.contains_key(id) {
        StoreView { records: s.records.remove(id), ..s }
    } else {
        s
    }
}

/// The store of a freshly initialized service is well-formed.
pub proof fn lemma_initial_wf()
    ensures
        StoreView::initial().wf(),
{
    broadcast use vstd::set::group_set_axioms;

    assert(StoreView::initial().records.dom() =~= Set::<u64>::empty());
}

/// A create keeps the store well-formed and grows it by exactly one record.
pub proof fn lemma_create_post_wf(s: StoreView, title: Seq<char>, content: Seq<char>, now: i64)
    requires
        s.wf(),
        s.next_id < u64::MAX,
    ensures
        create_post(s, title, content, now).wf(),
        create_post(s, title, content, now).records.len() == s.records.len() + 1,
{
    broadcast use vstd::set::group_set_axioms;

    assert(!s.records.contains_key(s.next_id));
}

/// An update keeps the store well-formed and keeps the number of records.
pub proof fn lemma_update_post_wf(s: StoreView, id: u64, title: Seq<char>, content: Seq<char>)
    requires
        s.wf(),
    ensures
        update_post(s, id, title, content).wf(),
        update_post(s, id, title, content).records.len() == s.records.len(),
{
    broadcast use vstd::set::group_set_axioms;

    if s.records.contains_key(id) {
        assert(s.records.insert(id, updated_record(s, id, title, content)).dom()
            =~= s.records.dom());
    }
}

/// A delete keeps the store well-formed; a successful one removes exactly
/// one record.
pub proof fn lemma_delete_post_wf(s: StoreView, id: u64)
    requires
        s.wf(),
    ensures
        delete_post(s, id).wf(),
        delete_post(s, id).records.len() == if s.records.contains_key(id) {
            s.records.len() - 1
        } else {
            s.records.len() as int
        },
{
    broadcast use vstd::set::group_set_axioms;
}

} // verus!
