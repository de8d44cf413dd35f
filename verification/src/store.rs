//! The record store: atomic create, list, get, update, and delete operations.

use vstd::prelude::*;

use crate::allocator::IdentifierAllocator;
use crate::clock;
use crate::model::StoreView;
use crate::model::create_post;
use crate::model::created_record;
use crate::model::delete_post;
use crate::model::lookup;
use crate::model::update_post;
use crate::model::updated_record;
use crate::record::NotFound;
use crate::record::Record;
use crate::record::RecordView;

verus! {

/// True when no two records in `s` carry the same identifier.
spec fn ids_distinct(s: Seq<Record>) -> bool {
    forall|i: int, j: int|
        0 <= i < s.len() && 0 <= j < s.len() && i != j
            ==> #[trigger] s[i].id != #[trigger] s[j].id
}

/// The association of identifiers to record values that `s` holds.
spec fn records_map(s: Seq<Record>) -> Map<u64, RecordView>
    decreases s.len(),
{
    if s.len() == 0 {
        Map::empty()
    } else {
        records_map(s.drop_last()).insert(s.last().id, s.last()@)
    }
}

/// Dropping the last record keeps the remaining identifiers distinct.
proof fn lemma_ids_distinct_drop_last(s: Seq<Record>)
    requires
        ids_distinct(s),
        s.len() > 0,
    ensures
        ids_distinct(s.drop_last()),
{
    let s0 = s.drop_last();
    assert forall|i: int, j: int|
        0 <= i < s0.len() && 0 <= j < s0.len() && i != j implies #[trigger] s0[i].id
        != #[trigger] s0[j].id by {
        assert(s0[i] == s[i]);
        assert(s0[j] == s[j]);
    }
}

/// With distinct identifiers, `records_map` is a faithful picture of the
/// sequence: it is finite, has one entry per record, maps each record's
/// identifier to its value, and holds no other identifiers.
proof fn lemma_records_map_props(s: Seq<Record>)
    requires
        ids_distinct(s),
    ensures
        records_map(s).dom().finite(),
        records_map(s).len() == s.len(),
        forall|i: int|
            0 <= i < s.len() ==> records_map(s).contains_key(#[trigger] s[i].id)
                && records_map(s)[s[i].id] == s[i]@,
        forall|id: u64| #[trigger] records_map(s).contains_key(id)
            ==> exists|i: int| 0 <= i < s.len() && s[i].id == id,
    decreases s.len(),
{
    broadcast use vstd::set::group_set_axioms;

    if s.len() > 0 {
        let s0 = s.drop_last();
        let last = s.last();
        lemma_ids_distinct_drop_last(s);
        lemma_records_map_props(s0);
        assert(!records_map(s0).contains_key(last.id)) by {
            if records_map(s0).contains_key(last.id) {
                let i = choose|i: int| 0 <= i < s0.len() && s0[i].id == last.id;
                assert(s[i] == s0[i]);
                assert(s[i].id != s[s.len() - 1].id);
            }
        }
        assert forall|i: int|
            0 <= i < s.len() implies records_map(s).contains_key(#[trigger] s[i].id)
            && records_map(s)[s[i].id] == s[i]@ by {
            if i < s.len() - 1 {
                assert(s0[i] == s[i]);
                assert(s[i].id != last.id);
            } else {
                assert(s[i] == last);
            }
        }
        assert forall|id: u64| #[trigger] records_map(s).contains_key(id) implies exists|i: int|
            0 <= i < s.len() && s[i].id == id by {
            if id == last.id {
                assert(s[s.len() - 1].id == id);
            } else {
                let i = choose|i: int| 0 <= i < s0.len() && s0[i].id == id;
                assert(s[i] == s0[i]);
                assert(s[i].id == id);
            }
        }
    }
}

/// Appending a record with a fresh identifier inserts it into the map.
proof fn lemma_records_map_push(s: Seq<Record>, r: Record)
    ensures
        records_map(s.push(r)) == records_map(s).insert(r.id, r@),
{
    assert(s.push(r).drop_last() =~= s);
    assert(s.push(r).last() == r);
}

/// Replacing the record at `k` by one with the same identifier updates
/// that identifier's entry and nothing else.
proof fn lemma_records_map_update(s: Seq<Record>, k: int, r: Record)
    requires
        ids_distinct(s),
        0 <= k < s.len(),
        r.id == s[k].id,
    ensures
        records_map(s.update(k, r)) == records_map(s).insert(r.id, r@),
    decreases s.len(),
{
    let t = s.update(k, r);
    let s0 = s.drop_last();
    let last = s.last();
    lemma_ids_distinct_drop_last(s);
    if k == s.len() - 1 {
        assert(t.drop_last() =~= s0);
        assert(t.last() == r);
        assert(records_map(s).insert(r.id, r@) =~= records_map(s0).insert(r.id, r@));
    } else {
        assert(t.drop_last() =~= s0.update(k, r));
        assert(t.last() == last);
        assert(s0[k] == s[k]);
        lemma_records_map_update(s0, k, r);
        assert(r.id != last.id) by {
            assert(s[k].id != s[s.len() - 1].id);
        }
        assert(records_map(s0).insert(r.id, r@).insert(last.id, last@) =~= records_map(
            s0,
        ).insert(last.id, last@).insert(r.id, r@));
    }
}

/// Removing the record at `k` removes exactly its identifier's entry.
proof fn lemma_records_map_remove(s: Seq<Record>, k: int)
    requires
        ids_distinct(s),
        0 <= k < s.len(),
    ensures
        records_map(s.remove(k)) == records_map(s).remove(s[k].id),
    decreases s.len(),
{
    let t = s.remove(k);
    let s0 = s.drop_last();
    let last = s.last();
    lemma_ids_distinct_drop_last(s);
    lemma_records_map_props(s0);
    if k == s.len() - 1 {
        assert(t =~= s0);
        assert(!records_map(s0).contains_key(last.id)) by {
            if records_map(s0).contains_key(last.id) {
                let i = choose|i: int| 0 <= i < s0.len() && s0[i].id == last.id;
                assert(s[i] == s0[i]);
                assert(s[i].id != s[s.len() - 1].id);
            }
        }
        assert(records_map(s0).insert(last.id, last@).remove(last.id) =~= records_map(s0));
    } else {
        assert(t.drop_last() =~= s0.remove(k));
        assert(t.last() == last) by {
            assert(t[t.len() - 1] == s[s.len() - 1]);
        }
        assert(s0[k] == s[k]);
        lemma_records_map_remove(s0, k);
        assert(s[k].id != last.id) by {
            assert(s[k].id != s[s.len() - 1].id);
        }
        assert(records_map(s0).remove(s[k].id).insert(last.id, last@) =~= records_map(
            s0,
        ).insert(last.id, last@).remove(s[k].id));
    }
}

/// The in-memory record store: an exclusively owned mapping from identifier
/// to record, together with the allocator that numbers new records. Each
/// operation is atomic as long as callers serialize their access to the
/// store, for instance behind one mutual-exclusion lock; the contracts
/// describe the effect of one whole operation on the abstract store.
pub struct RecordStore {
    allocator: IdentifierAllocator,
    records: Vec<Record>,
}

impl View for RecordStore {
    type V = StoreView;

    closed spec fn view(&self) -> StoreView {
        StoreView { records: records_map(self.records@), next_id: self.allocator@ }
    }
}

impl RecordStore {
    /// The store's internal invariant: record identifiers are pairwise
    /// distinct and all lie strictly below the allocator counter, so the
    /// next allocated identifier is always fresh. Constructors establish
    /// it and every operation preserves it.
    pub closed spec fn wf(self) -> bool {
        &&& ids_distinct(self.records@)
        &&& forall|i: int|
            0 <= i < self.records@.len() ==> (#[trigger] self.records@[i]).id < self.allocator@
    }

    /// A well-formed store has a well-formed abstract view.
    pub proof fn lemma_view_wf(self)
        requires
            self.wf(),
        ensures
            self@.wf(),
    {
        lemma_records_map_props(self.records@);
        assert forall|id: u64| #[trigger] self@.records.contains_key(id) implies id
            < self@.next_id && self@.records[id].id == id by {
            let i = choose|i: int| 0 <= i < self.records@.len() && self.records@[i].id == id;
            assert(records_map(self.records@)[self.records@[i].id] == self.records@[i]@);
        }
    }

    /// A freshly initialized store: no records, and 0 as the first
    /// identifier to be assigned.
    pub fn new() -> (r: RecordStore)
        ensures
            r.wf(),
            r@ == StoreView::initial(),
    {
        let r = RecordStore { allocator: IdentifierAllocator::new(), records: Vec::new() };
        proof {
            assert(r@.records =~= Map::<u64, RecordView>::empty());
        }
        r
    }

    /// The identifier the next create will assign. A caller that cannot
    /// track the abstract store can test this against `u64::MAX` before a
    /// create.
    pub fn next_id(&self) -> (r: u64)
        ensures
            r == self@.next_id,
    {
        self.allocator.peek()
    }

    /// The position of the record carrying `id`, if any.
    fn index_of(&self, id: u64) -> (r: Option<usize>)
        ensures
            match r {
                Some(i) => i < self.records@.len() && self.records@[i as int].id == id,
                None => forall|j: int| 0 <= j < self.records@.len() ==> self.records@[j].id != id,
            },
    {
        let n = self.records.len();
        let mut i: usize = 0;
        while i < n
            invariant
                n == self.records@.len(),
                i <= n,
                forall|j: int| 0 <= j < i ==> self.records@[j].id != id,
            decreases n - i,
        {
            if self.records[i].id == id {
                return Some(i);
            }
            i += 1;
        }
        None
    }

    /// Creates a record with the given creation time: assigns the next
    /// free identifier, inserts the record, and returns a copy of it.
    /// Allocation and insertion form one step of the abstract store, so no
    /// observer of the resulting state ever finds an allocated identifier
    /// without its record.
    pub fn create_with_time(&mut self, title: String, content: String, now: i64) -> (r: Record)
        requires
            old(self).wf(),
            old(self)@.next_id < u64::MAX,
        ensures
            final(self).wf(),
            r@ == created_record(old(self)@, title@, content@, now),
            final(self)@ == create_post(old(self)@, title@, content@, now),
    {
        let ghost pre = self.records@;
        let id = self.allocator.next();
        let rec = Record { id, title, content, created_at: now };
        let stored = rec.clone();
        self.records.push(stored);
        proof {
            assert(self.records@ == pre.push(rec));
            lemma_records_map_push(pre, rec);
            assert forall|i: int, j: int|
                0 <= i < self.records@.len() && 0 <= j < self.records@.len() && i != j
                implies #[trigger] self.records@[i].id != #[trigger] self.records@[j].id by {
                if i < pre.len() && j < pre.len() {
                    assert(pre[i].id != pre[j].id);
                } else if i < pre.len() {
                    assert(pre[i].id < rec.id);
                } else {
                    assert(pre[j].id < rec.id);
                }
            }
        }
        rec
    }

    /// Creates a record stamped with the current wall-clock time. The
    /// returned record carries the next free identifier and the given
    /// texts; its creation time is whatever the clock reported, and the
    /// stored record equals the returned one in full.
    pub fn create(&mut self, title: String, content: String) -> (r: Record)
        requires
            old(self).wf(),
            old(self)@.next_id < u64::MAX,
        ensures
            final(self).wf(),
            r@ == created_record(old(self)@, title@, content@, r@.created_at),
            final(self)@ == create_post(old(self)@, title@, content@, r@.created_at),
    {
        let now = clock::now_millis();
        self.create_with_time(title, content, now)
    }

    /// Point lookup: a copy of the record stored under `id`, or `NotFound`
    /// when no current record carries `id` (never assigned, or deleted).
    pub fn get(&self, id: u64) -> (r: Result<Record, NotFound>)
        requires
            self.wf(),
        ensures
            match r {
                Ok(rec) => lookup(self@, id) == Some(rec@),
                Err(_) => lookup(self@, id) is None,
            },
    {
        proof {
            lemma_records_map_props(self.records@);
        }
        match self.index_of(id) {
            Some(i) => Ok(self.records[i].clone()),
            None => Err(NotFound),
        }
    }

    /// Replaces the title and the content of the record under `id`
    /// together — never one without the other — keeping its identifier and
    /// creation time, and returns a copy of the updated record. Reports
    /// `NotFound`, leaving the store unchanged, when `id` is absent.
    pub fn update(&mut self, id: u64, title: String, content: String) -> (r: Result<
        Record,
        NotFound,
    >)
        requires
            old(self).wf(),
        ensures
            final(self).wf(),
            final(self)@ == update_post(old(self)@, id, title@, content@),
            match r {
                Ok(rec) => lookup(old(self)@, id) is Some && rec@ == updated_record(
                    old(self)@,
                    id,
                    title@,
                    content@,
                ),
                Err(_) => lookup(old(self)@, id) is None,
            },
    {
        proof {
            lemma_records_map_props(self.records@);
        }
        match self.index_of(id) {
            Some(i) => {
                let ghost pre = self.records@;
                let created_at = self.records[i].created_at;
                let rec = Record { id, title, content, created_at };
                let stored = rec.clone();
                self.records[i] = stored;
                proof {
                    assert(self.records@ == pre.update(i as int, rec));
                    lemma_records_map_update(pre, i as int, rec);
                    assert forall|x: int, y: int|
                        0 <= x < self.records@.len() && 0 <= y < self.records@.len() && x != y
                        implies #[trigger] self.records@[x].id
                        != #[trigger] self.records@[y].id by {
                        assert(pre[x].id != pre[y].id);
                    }
                }
                Ok(rec)
            },
            None => Err(NotFound),
        }
    }

    /// Removes the record under `id`; afterwards the identifier is
    /// permanently retired — lookups report `NotFound` and the allocator
    /// never hands it out again, since its counter is left untouched.
    /// Reports `NotFound`, leaving the store unchanged, when `id` is
    /// absent.
    pub fn delete(&mut self, id: u64) -> (r: Result<(), NotFound>)
        requires
            old(self).wf(),
        ensures
            final(self).wf(),
            final(self)@ == delete_post(old(self)@, id),
            match r {
                Ok(_) => lookup(old(self)@, id) is Some,
                Err(_) => lookup(old(self)@, id) is None,
            },
    {
        proof {
            lemma_records_map_props(self.records@);
        }
        match self.index_of(id) {
            Some(i) => {
                let ghost pre = self.records@;
                self.records.remove(i);
                proof {
                    lemma_records_map_remove(pre, i as int);
                    assert forall|x: int, y: int|
                        0 <= x < self.records@.len() && 0 <= y < self.records@.len() && x != y
                        implies #[trigger] self.records@[x].id
                        != #[trigger] self.records@[y].id by {
                        let px: int = if x < i { x } else { x + 1 };
                        let py: int = if y < i { y } else { y + 1 };
                        assert(self.records@[x] == pre[px]);
                        assert(self.records@[y] == pre[py]);
                        assert(pre[px].id != pre[py].id);
                    }
                }
                Ok(())
            },
            None => Err(NotFound),
        }
    }

    /// A snapshot of all current records, one copy per stored record, in
    /// unspecified order: every returned record is stored under its
    /// identifier, every stored identifier occurs, and no identifier
    /// occurs twice.
    pub fn list(&self) -> (r: Vec<Record>)
        requires
            self.wf(),
        ensures
            r@.len() == self@.records.len(),
            forall|i: int|
                0 <= i < r@.len() ==> lookup(self@, (#[trigger] r@[i]).id) == Some(r@[i]@),
            forall|id: u64| #[trigger] self@.records.contains_key(id)
                ==> exists|i: int| 0 <= i < r@.len() && r@[i].id == id,
            forall|i: int, j: int|
                0 <= i < r@.len() && 0 <= j < r@.len() && i != j
                    ==> #[trigger] r@[i].id != #[trigger] r@[j].id,
    {
        let n = self.records.len();
        let mut out: Vec<Record> = Vec::new();
        let mut i: usize = 0;
        while i < n
            invariant
                n == self.records@.len(),
                i <= n,
                out@.len() == i,
                forall|j: int| 0 <= j < i ==> out@[j] == self.records@[j],
            decreases n - i,
        {
            out.push(self.records[i].clone());
            i += 1;
        }
        proof {
            assert(out@ =~= self.records@);
            lemma_records_map_props(self.records@);
        }
        out
    }
}

} // verus!
