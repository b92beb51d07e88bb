//! Labels: the display name and the stable numeric identity of an entity.
//!
//! Ids are handed out by a monotonic allocator starting above a reserved
//! range; every id below `FIRST_LABEL_ID` is a sentinel that the picking
//! resolver reads as "nothing picked".

use vstd::prelude::*;

verus! {

/// The first id an allocator ever hands out. Ids below this value are
/// reserved as sentinels (the identity pass clears its target to 0).
pub const FIRST_LABEL_ID: u32 = 7;

/// A display name together with the numeric identity used by GPU picking.
pub struct Label {
    pub label: String,
    pub id: u32,
}

/// The monotonic id allocator. The embedding context owns one and every
/// `Label` is built through it, so ids are unique for the allocator's
/// whole lifetime.
pub struct LabelIds {
    next: u32,
    issued: Ghost<Seq<u32>>,
}

impl LabelIds {
    /// All ids handed out so far, in order.
    pub closed spec fn issued(self) -> Seq<u32> {
        self.issued@
    }

    /// The id the next allocation will return.
    pub closed spec fn next_id(self) -> u32 {
        self.next
    }

    pub open spec fn wf(self) -> bool {
        &&& self.next_id() >= FIRST_LABEL_ID
        &&& forall|i: int|
            0 <= i < self.issued().len() ==> FIRST_LABEL_ID <= #[trigger] self.issued()[i]
                < self.next_id()
        &&& forall|i: int, j: int|
            0 <= i < j < self.issued().len() ==> self.issued()[i] < self.issued()[j]
    }

    pub fn new() -> (r: LabelIds)
        ensures
            r.wf(),
            r.issued() =~= Seq::<u32>::empty(),
            r.next_id() == FIRST_LABEL_ID,
    {
        LabelIds { next: FIRST_LABEL_ID, issued: Ghost(Seq::empty()) }
    }
}

impl Label {
    /// Builds a label, drawing the next id from the allocator.
    pub fn new(label: String, ids: &mut LabelIds) -> (r: Label)
        requires
            old(ids).wf(),
            old(ids).next_id() < u32::MAX,
        ensures
            final(ids).wf(),
            r.label@ == label@,
            r.id == old(ids).next_id(),
            FIRST_LABEL_ID <= r.id,
            final(ids).next_id() == old(ids).next_id() + 1,
            final(ids).issued() =~= old(ids).issued().push(r.id),
    {
        let id = ids.next;
        ids.next = ids.next + 1;
        proof {
            let prev = ids.issued@;
            assert(prev == old(ids).issued());
            assert(id == old(ids).next_id());
            ids.issued@ = prev.push(id);
            assert forall|i: int|
                0 <= i < ids.issued@.len() implies FIRST_LABEL_ID <= #[trigger] ids.issued@[i]
                < ids.next by {
                if i < prev.len() {
                    assert(ids.issued@[i] == prev[i]);
                    assert(FIRST_LABEL_ID <= old(ids).issued()[i] < old(ids).next_id());
                } else {
                    assert(ids.issued@[i] == id);
                }
            }
            assert forall|i: int, j: int|
                0 <= i < j < ids.issued@.len() implies ids.issued@[i] < ids.issued@[j] by {
                assert(ids.issued@[i] == prev[i]);
                if j < prev.len() {
                    assert(ids.issued@[j] == prev[j]);
                } else {
                    assert(ids.issued@[j] == id);
                    assert(FIRST_LABEL_ID <= old(ids).issued()[i] < old(ids).next_id());
                }
            }
        }
        Label { label, id }
    }

    /// Builds a label from a borrowed name.
    pub fn from_str(label: &str, ids: &mut LabelIds) -> (r: Label)
        requires
            old(ids).wf(),
            old(ids).next_id() < u32::MAX,
        ensures
            final(ids).wf(),
            r.label@ == label@,
            r.id == old(ids).next_id(),
            FIRST_LABEL_ID <= r.id,
            final(ids).next_id() == old(ids).next_id() + 1,
            final(ids).issued() =~= old(ids).issued().push(r.id),
    {
        Label::new(label.to_string(), ids)
    }
}

/// Ids issued by one allocator are strictly increasing in allocation order,
/// hence pairwise distinct, and all of them lie above the sentinel range.
pub proof fn lemma_label_ids_unique(ids: LabelIds)
    requires
        ids.wf(),
    ensures
        forall|i: int, j: int| 0 <= i < j < ids.issued().len() ==> ids.issued()[i] < ids.issued()[j],
        forall|i: int, j: int|
            0 <= i < ids.issued().len() && 0 <= j < ids.issued().len() && i != j
                ==> ids.issued()[i] != ids.issued()[j],
        forall|i: int|
            0 <= i < ids.issued().len() ==> FIRST_LABEL_ID <= #[trigger] ids.issued()[i],
{
    assert forall|i: int, j: int|
        0 <= i < ids.issued().len() && 0 <= j < ids.issued().len() && i != j implies ids.issued()[i]
        != ids.issued()[j] by {
        if i < j {
            assert(ids.issued()[i] < ids.issued()[j]);
        } else {
            assert(ids.issued()[j] < ids.issued()[i]);
        }
    }
}

} // verus!
