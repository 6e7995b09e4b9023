//! One size class's allocation arena. A slab owns one file of fixed-size
//! slots (the file itself is handled by the caller), a monotonically growing
//! tip (the next never-used slot index) and a free list of reclaimed
//! indices. Reservations draw from the free list first and grow the tip only
//! when it is empty; an abandoned or failed reservation always returns its
//! index to the free list.

use vstd::prelude::*;

use crate::error::HeapError;
use crate::heap_id::{id_class, id_index, is_valid_heap_id, spec_compose, HeapId};
use crate::record::{decode_record, spec_decode};
use crate::size_class::{slab_id_to_size, spec_slot_size};

verus! {

/// The slot index the next reservation takes from a slab with free list
/// `free` and tip `tip`: the most recently freed index when there is one,
/// else the tip.
pub open spec fn next_index(free: Seq<u32>, tip: u32) -> u32 {
    if free.len() > 0 {
        free.last()
    } else {
        tip
    }
}

/// A short-lived token granting the exclusive right to write exactly one
/// slot. It is consumed by exactly one of `complete` (after the caller has
/// durably written the slot) or `abort`; both are terminal.
pub struct Reservation {
    class: u8,
    idx: u32,
    size: u64,
}

/// One size class's allocation state: the class, its slot size, the tip
/// (next never-used index) and the stack of freed indices.
pub struct Slab {
    class: u8,
    bs: u64,
    tip: u32,
    free: Vec<u32>,
}

impl Reservation {
    /// The size class this reservation allocates in.
    pub closed spec fn spec_class(&self) -> u8 {
        self.class
    }

    /// The slot index this reservation owns.
    pub closed spec fn spec_idx(&self) -> u32 {
        self.idx
    }

    /// The logical (requested) size recorded at reservation time.
    pub closed spec fn spec_size(&self) -> u64 {
        self.size
    }

    pub open spec fn wf(&self) -> bool {
        self.spec_class() < 32
    }

    /// The size class this reservation allocates in.
    pub fn class(&self) -> (c: u8)
        ensures
            c == self.spec_class(),
    {
        self.class
    }

    /// The slot index this reservation owns.
    pub fn idx(&self) -> (i: u32)
        ensures
            i == self.spec_idx(),
    {
        self.idx
    }

    /// The logical size the caller asked to store.
    pub fn size(&self) -> (s: u64)
        ensures
            s == self.spec_size(),
    {
        self.size
    }

    /// The exact number of bytes the committed record must have: the slot
    /// size of this reservation's class.
    pub fn slot_len(&self) -> (n: u64)
        requires
            self.wf(),
        ensures
            n == spec_slot_size(self.spec_class() as u64),
    {
        slab_id_to_size(self.class)
    }

    /// The byte offset of this reservation's slot in its slab file.
    pub fn offset(&self) -> (o: u64)
        requires
            self.wf(),
            self.spec_idx() as u64 * spec_slot_size(self.spec_class() as u64) <= u64::MAX,
        ensures
            o == self.spec_idx() as u64 * spec_slot_size(self.spec_class() as u64),
    {
        let bs = slab_id_to_size(self.class);
        self.idx as u64 * bs
    }

    /// The identifier this reservation turns into when completed.
    pub fn heap_id(&self) -> (id: HeapId)
        requires
            self.wf(),
        ensures
            id.0 == spec_compose(self.spec_class() as u64, self.spec_idx() as u64),
            is_valid_heap_id(id),
            id_class(id) == self.spec_class() as u64,
            id_index(id) == self.spec_idx() as u64,
    {
        HeapId::compose(self.class, self.idx)
    }
}

/// What one reservation does to its slab: the token takes the next index
/// (most recently freed first, else the tip), the free list loses that entry
/// or the tip grows by one, and nothing else of the slab changes.
pub open spec fn reserve_transition(pre: Slab, post: Slab, r: Reservation, size: u64) -> bool {
    &&& post.spec_class() == pre.spec_class()
    &&& post.spec_bs() == pre.spec_bs()
    &&& r.spec_class() == pre.spec_class()
    &&& r.spec_size() == size
    &&& r.spec_idx() == next_index(pre.spec_free(), pre.spec_tip())
    &&& pre.spec_free().len() > 0 ==> post.spec_free() == pre.spec_free().drop_last()
        && post.spec_tip() == pre.spec_tip()
    &&& pre.spec_free().len() == 0 ==> post.spec_free() == pre.spec_free() && post.spec_tip()
        == pre.spec_tip() + 1
}

/// Two slabs agree in every observable respect.
pub open spec fn slab_like(a: Slab, b: Slab) -> bool {
    &&& a.spec_class() == b.spec_class()
    &&& a.spec_bs() == b.spec_bs()
    &&& a.spec_tip() == b.spec_tip()
    &&& a.spec_free() == b.spec_free()
}

impl Slab {
    /// This slab's size class.
    pub closed spec fn spec_class(&self) -> u8 {
        self.class
    }

    /// This slab's slot size in bytes.
    pub closed spec fn spec_bs(&self) -> u64 {
        self.bs
    }

    /// The next never-used slot index.
    pub closed spec fn spec_tip(&self) -> u32 {
        self.tip
    }

    /// The stack of freed slot indices, most recently freed last.
    pub closed spec fn spec_free(&self) -> Seq<u32> {
        self.free@
    }

    pub open spec fn wf(&self) -> bool {
        &&& self.spec_class() < 32
        &&& self.spec_bs() == spec_slot_size(self.spec_class() as u64)
    }

    /// This slab's size class.
    pub fn class(&self) -> (c: u8)
        ensures
            c == self.spec_class(),
    {
        self.class
    }

    /// This slab's slot size in bytes.
    pub fn slot_size(&self) -> (n: u64)
        ensures
            n == self.spec_bs(),
    {
        self.bs
    }

    /// The next never-used slot index.
    pub fn tip(&self) -> (t: u32)
        ensures
            t == self.spec_tip(),
    {
        self.tip
    }

    /// Open a slab at startup, given its class and the current length of its
    /// file. The recovered tip is the file length divided by the slot size,
    /// and the free list starts empty whatever was in memory before restart:
    /// reclaimed indices are never persisted.
    pub fn start(slab_id: u8, file_len: u64) -> (s: Slab)
        requires
            slab_id < 32,
            file_len / spec_slot_size(slab_id as u64) <= u32::MAX as u64,
        ensures
            s.wf(),
            s.spec_class() == slab_id,
            s.spec_tip() as u64 == file_len / spec_slot_size(slab_id as u64),
            s.spec_free() == Seq::<u32>::empty(),
    {
        let bs = slab_id_to_size(slab_id);
        let max_idx = file_len / bs;
        let free: Vec<u32> = Vec::new();
        proof {
            assert(free@ =~= Seq::<u32>::empty());
        }
        Slab { class: slab_id, bs, tip: max_idx as u32, free }
    }

    /// Allocate a slot: pop the most recently freed index if any (reuse),
    /// else take the tip and grow it by one (never reused concurrently —
    /// each reservation gets a distinct index). Never fails.
    pub fn reserve(&mut self, size: u64) -> (r: Reservation)
        requires
            old(self).wf(),
            old(self).spec_free().len() == 0 ==> old(self).spec_tip() < u32::MAX,
        ensures
            final(self).wf(),
            r.wf(),
            reserve_transition(*old(self), *final(self), r, size),
    {
        let idx = match self.free.pop() {
            Some(idx) => idx,
            None => {
                let idx = self.tip;
                self.tip = self.tip + 1;
                idx
            },
        };
        Reservation { class: self.class, idx, size }
    }

    /// Return a slot index to the free list, making it the next index that
    /// `reserve` hands out.
    pub fn release(&mut self, idx: u32)
        requires
            old(self).wf(),
        ensures
            final(self).wf(),
            final(self).spec_class() == old(self).spec_class(),
            final(self).spec_bs() == old(self).spec_bs(),
            final(self).spec_tip() == old(self).spec_tip(),
            final(self).spec_free() == old(self).spec_free().push(idx),
    {
        self.free.push(idx);
    }

    /// Free a slot. The caller attempts its best-effort hole punch before
    /// this call; whatever came of that, the index goes back on the free
    /// list and becomes reusable.
    pub fn free(&mut self, idx: u32) -> (r: Result<(), HeapError>)
        requires
            old(self).wf(),
        ensures
            final(self).wf(),
            final(self).spec_class() == old(self).spec_class(),
            final(self).spec_bs() == old(self).spec_bs(),
            final(self).spec_tip() == old(self).spec_tip(),
            final(self).spec_free() == old(self).spec_free().push(idx),
            r == Ok::<(), HeapError>(()),
    {
        self.release(idx);
        Ok(())
    }

    /// Validate and decode one slot-sized buffer read back from this slab's
    /// file: the kind byte and payload when the stored checksum matches,
    /// a corruption error otherwise.
    pub fn read(&self, raw: &Vec<u8>) -> (r: Result<(u8, Vec<u8>), HeapError>)
        requires
            self.wf(),
            raw@.len() == self.spec_bs(),
        ensures
            match r {
                Ok(kp) => spec_decode(raw@) == Some((kp.0, kp.1@)),
                Err(e) => e == HeapError::Corruption && spec_decode(raw@) is None,
            },
    {
        proof {
            let c = self.spec_class() as u64;
            assert(c < 32 ==> (1u64 << ((16 + c) as u64)) >= 5) by (bit_vector);
        }
        decode_record(raw)
    }
}

/// Allocation reuse: whenever the free list is non-empty, the next
/// reservation takes the most recently freed index, not a fresh tip index.
pub proof fn lemma_reuse_before_growth(free: Seq<u32>, tip: u32)
    requires
        free.len() > 0,
    ensures
        next_index(free, tip) == free.last(),
        next_index(free, tip) == free[free.len() - 1],
{
}

/// Abandonment safety: after a slot index is released (an abandoned or
/// failed reservation, or an explicit free), the very next reservation on
/// that slab takes exactly that index.
pub proof fn lemma_released_slot_is_reused(free: Seq<u32>, tip: u32, idx: u32)
    ensures
        next_index(free.push(idx), tip) == idx,
{
}

/// Distinct growth: with an empty free list, a reservation takes the tip and
/// the tip advances, so consecutive reservations take `tip` and `tip + 1`:
/// distinct indices with no gap beyond the prior tip.
pub proof fn lemma_growth_yields_fresh_distinct(free: Seq<u32>, tip: u32)
    requires
        free.len() == 0,
        tip < u32::MAX,
    ensures
        next_index(free, tip) == tip,
        next_index(free, (tip + 1) as u32) == tip + 1,
        next_index(free, tip) != next_index(free, (tip + 1) as u32),
{
}

} // verus!
