//! Properties of whole runs of store operations, proved once and for all.

use vstd::prelude::*;

use crate::model::StoreView;
use crate::model::create_post;
use crate::model::created_record;
use crate::model::delete_post;
use crate::model::lemma_create_post_wf;
use crate::model::lemma_delete_post_wf;
use crate::model::lookup;
use crate::model::update_post;
use crate::model::updated_record;

verus! {

/// One create against store `pre` produced store `post`: some pair of
/// texts and some creation time lead from `pre` to `post`. The create's
/// precondition — a counter below its machine limit — is part of the step.
pub open spec fn is_create_step(pre: StoreView, post: StoreView) -> bool {
    exists|title: Seq<char>, content: Seq<char>, now: i64|
        pre.next_id < u64::MAX && post == #[trigger] create_post(pre, title, content, now)
}

/// One successful delete against store `pre` produced store `post`: some
/// stored identifier was removed.
pub open spec fn is_successful_delete_step(pre: StoreView, post: StoreView) -> bool {
    exists|id: u64| pre.records.contains_key(id) && post == #[trigger] delete_post(pre, id)
}

/// How many entries of `kinds` are true.
pub open spec fn count_true(kinds: Seq<bool>) -> int
    decreases kinds.len(),
{
    if kinds.len() == 0 {
        0
    } else {
        count_true(kinds.drop_last()) + if kinds.last() {
            1int
        } else {
            0int
        }
    }
}

/// Along a run of creates, the allocator counter advances by one per step.
proof fn lemma_create_run_counter(vs: Seq<StoreView>, n: int)
    requires
        0 <= n < vs.len(),
        forall|i: int| 0 <= i < vs.len() - 1 ==> is_create_step(vs[i], #[trigger] vs[i + 1]),
    ensures
        vs[n].next_id == vs[0].next_id + n,
    decreases n,
{
    if n > 0 {
        lemma_create_run_counter(vs, n - 1);
        assert(vs[(n - 1) + 1] == vs[n]);
        assert(is_create_step(vs[n - 1], vs[n]));
        let (title, content, now) = choose|title: Seq<char>, content: Seq<char>, now: i64|
            vs[n - 1].next_id < u64::MAX && vs[n] == #[trigger] create_post(
                vs[n - 1],
                title,
                content,
                now,
            );
        assert(vs[n].next_id == vs[n - 1].next_id + 1);
    }
}

/// Law: a run of creates against a freshly initialized store returns the
/// identifiers 0, 1, ..., n-1, one per create and in that order — so the
/// returned identifiers are pairwise distinct and are exactly the set
/// {0, ..., n-1}. The requirement `ids[i] == vs[i].next_id` is what each
/// create's own contract guarantees about the record it returns.
pub proof fn lemma_fresh_creates_number_sequentially(vs: Seq<StoreView>, ids: Seq<u64>)
    requires
        vs.len() == ids.len() + 1,
        vs[0].next_id == 0,
        forall|i: int| 0 <= i < ids.len() ==> is_create_step(vs[i], #[trigger] vs[i + 1]),
        forall|i: int| 0 <= i < ids.len() ==> ids[i] == vs[i].next_id,
    ensures
        forall|i: int| 0 <= i < ids.len() ==> ids[i] == i,
        forall|i: int, j: int|
            0 <= i < ids.len() && 0 <= j < ids.len() && i != j ==> ids[i] != ids[j],
{
    assert forall|i: int| 0 <= i < ids.len() implies ids[i] == i by {
        lemma_create_run_counter(vs, i);
    }
}

/// Every state of a run of creates and successful deletes is well-formed.
proof fn lemma_run_wf(vs: Seq<StoreView>, kinds: Seq<bool>, n: int)
    requires
        vs.len() == kinds.len() + 1,
        vs[0].wf(),
        forall|i: int|
            0 <= i < kinds.len() ==> if kinds[i] {
                is_create_step(vs[i], #[trigger] vs[i + 1])
            } else {
                is_successful_delete_step(vs[i], vs[i + 1])
            },
        0 <= n < vs.len(),
    ensures
        vs[n].wf(),
    decreases n,
{
    if n > 0 {
        lemma_run_wf(vs, kinds, n - 1);
        assert(vs[(n - 1) + 1] == vs[n]);
        if kinds[n - 1] {
            assert(is_create_step(vs[n - 1], vs[n]));
            let (title, content, now) = choose|title: Seq<char>, content: Seq<char>, now: i64|
                vs[n - 1].next_id < u64::MAX && vs[n] == #[trigger] create_post(
                    vs[n - 1],
                    title,
                    content,
                    now,
                );
            lemma_create_post_wf(vs[n - 1], title, content, now);
        } else {
            assert(is_successful_delete_step(vs[n - 1], vs[n]));
            let id = choose|id: u64|
                vs[n - 1].records.contains_key(id) && vs[n] == #[trigger] delete_post(
                    vs[n - 1],
                    id,
                );
            lemma_delete_post_wf(vs[n - 1], id);
        }
    }
}

/// Law: after any interleaving of creates and successful deletes, the
/// number of stored records — which is what `list` returns the snapshot
/// of — equals the number of creates minus the number of deletes, on top
/// of whatever the run started from. `kinds[i]` is true for a create and
/// false for a successful delete.
pub proof fn lemma_interleaved_creates_deletes_count(vs: Seq<StoreView>, kinds: Seq<bool>)
    requires
        vs.len() == kinds.len() + 1,
        vs[0].wf(),
        forall|i: int|
            0 <= i < kinds.len() ==> if kinds[i] {
                is_create_step(vs[i], #[trigger] vs[i + 1])
            } else {
                is_successful_delete_step(vs[i], vs[i + 1])
            },
    ensures
        vs.last().records.len() == vs[0].records.len() + count_true(kinds) - (kinds.len()
            - count_true(kinds)),
    decreases kinds.len(),
{
    if kinds.len() > 0 {
        let vs0 = vs.drop_last();
        let kinds0 = kinds.drop_last();
        assert forall|i: int|
            0 <= i < kinds0.len() implies if kinds0[i] {
                is_create_step(vs0[i], #[trigger] vs0[i + 1])
            } else {
                is_successful_delete_step(vs0[i], vs0[i + 1])
            } by {
            assert(vs0[i] == vs[i]);
            assert(vs0[i + 1] == vs[i + 1]);
            assert(kinds0[i] == kinds[i]);
        }
        lemma_interleaved_creates_deletes_count(vs0, kinds0);
        let n = kinds.len() as int;
        let pre = vs[n - 1];
        let post = vs[n];
        assert(vs0.last() == pre);
        assert(vs.last() == post);
        lemma_run_wf(vs, kinds, n - 1);
        if kinds[n - 1] {
            assert(is_create_step(pre, post));
            let (title, content, now) = choose|title: Seq<char>, content: Seq<char>, now: i64|
                pre.next_id < u64::MAX && post == #[trigger] create_post(pre, title, content, now);
            lemma_create_post_wf(pre, title, content, now);
        } else {
            assert(is_successful_delete_step(pre, post));
            let id = choose|id: u64|
                pre.records.contains_key(id) && post == #[trigger] delete_post(pre, id);
            lemma_delete_post_wf(pre, id);
        }
    }
}

/// Law: a lookup immediately after a create finds exactly the record the
/// create returned — same identifier, the given title and content, and
/// the creation time the create captured.
pub proof fn lemma_get_after_create(s: StoreView, title: Seq<char>, content: Seq<char>, now: i64)
    requires
        s.wf(),
        s.next_id < u64::MAX,
    ensures
        ({
            let post = create_post(s, title, content, now);
            let r = created_record(s, title, content, now);
            lookup(post, r.id) == Some(r) && r.title == title && r.content == content
                && r.created_at == now
        }),
{
}

/// Law: a lookup immediately after a successful update finds a record
/// with the new title and content, while its identifier and creation time
/// are those of the record that was already stored.
pub proof fn lemma_get_after_update(s: StoreView, id: u64, title: Seq<char>, content: Seq<char>)
    requires
        s.records.contains_key(id),
    ensures
        ({
            let post = update_post(s, id, title, content);
            let r = updated_record(s, id, title, content);
            lookup(post, id) == Some(r) && r.title == title && r.content == content && r.id == id
                && r.created_at == s.records[id].created_at
        }),
{
}

/// Law: after a successful delete the identifier is gone for good — a
/// lookup finds nothing, and a second delete of the same identifier
/// leaves the store unchanged (and so, by `delete`'s contract, reports
/// `NotFound`).
pub proof fn lemma_delete_retires_identifier(s: StoreView, id: u64)
    requires
        s.records.contains_key(id),
    ensures
        ({
            let post = delete_post(s, id);
            lookup(post, id) is None && !post.records.contains_key(id) && delete_post(post, id)
                == post
        }),
{
}

} // verus!
