//! The heap: one slab per size class, created together at startup and
//! living for the process lifetime. Every operation is routed by size or by
//! the size class embedded in a slot identifier to the owning slab.

use vstd::prelude::*;

use crate::error::HeapError;
use crate::heap_id::{id_class, id_index, is_valid_heap_id, spec_compose, HeapId};
use crate::record::spec_decode;
use crate::size_class::{is_min_class, size_to_slab_id, spec_slot_size, MAX_SLOT_SIZE, SIZE_LIMIT};
use crate::slab::{next_index, reserve_transition, slab_like, Reservation, Slab};

verus! {

/// Taking one element out of a sequence and putting another back in its
/// place leaves every other position unchanged.
proof fn lemma_remove_insert_at<A>(pre: Seq<A>, mid: Seq<A>, post: Seq<A>, i: int, x: A)
    requires
        0 <= i < pre.len(),
        mid == pre.remove(i),
        post == mid.insert(i, x),
    ensures
        post.len() == pre.len(),
        post[i] == x,
        forall|j: int| 0 <= j < pre.len() && j != i ==> post[j] == pre[j],
{
    assert forall|j: int| 0 <= j < pre.len() && j != i implies post[j] == pre[j] by {
        if j < i {
            assert(mid[j] == pre[j]);
            assert(post[j] == mid[j]);
        } else {
            assert(mid[j - 1] == pre[j]);
            assert(post[j] == mid[j - 1]);
        }
    }
}

/// The out-of-line object heap: exactly 32 slabs, indexed by size class.
pub struct Heap {
    slabs: Vec<Slab>,
}

impl Heap {
    /// The slabs, ordered by size class.
    pub closed spec fn spec_slabs(&self) -> Seq<Slab> {
        self.slabs@
    }

    /// The slab of size class `i`.
    pub open spec fn slab_at(&self, i: int) -> Slab {
        self.spec_slabs()[i]
    }

    pub open spec fn wf(&self) -> bool {
        &&& self.spec_slabs().len() == 32
        &&& forall|i: int|
            0 <= i < 32 ==> (#[trigger] self.slab_at(i)).wf() && self.slab_at(i).spec_class()
                == i
    }

    /// Build the heap at startup from the current length of each class's
    /// file, in class order: slab `i` recovers its tip from `file_lens[i]`
    /// divided by its slot size, and every free list starts empty.
    pub fn start(file_lens: &Vec<u64>) -> (h: Heap)
        requires
            file_lens@.len() == 32,
            forall|i: int|
                0 <= i < 32 ==> #[trigger] (file_lens@[i] / spec_slot_size(i as u64))
                    <= u32::MAX as u64,
        ensures
            h.wf(),
            forall|i: int|
                0 <= i < 32 ==> (#[trigger] h.slab_at(i)).spec_tip() as u64 == file_lens@[i]
                    / spec_slot_size(i as u64) && h.slab_at(i).spec_free()
                    == Seq::<u32>::empty(),
    {
        let mut slabs: Vec<Slab> = Vec::new();
        let mut i: usize = 0;
        while i < 32
            invariant
                i <= 32,
                file_lens@.len() == 32,
                forall|j: int|
                    0 <= j < 32 ==> #[trigger] (file_lens@[j] / spec_slot_size(j as u64))
                        <= u32::MAX as u64,
                slabs@.len() == i,
                forall|j: int|
                    0 <= j < i ==> (#[trigger] slabs@[j]).wf() && slabs@[j].spec_class() == j
                        && slabs@[j].spec_tip() as u64 == file_lens@[j] / spec_slot_size(
                        j as u64,
                    ) && slabs@[j].spec_free() == Seq::<u32>::empty(),
            decreases 32 - i,
        {
            let s = Slab::start(i as u8, file_lens[i]);
            slabs.push(s);
            i = i + 1;
        }
        Heap { slabs }
    }

    /// The tip of the slab of size class `slab_id`: how many slots of that
    /// class have ever been used.
    pub fn tip_of(&self, slab_id: u8) -> (t: u32)
        requires
            self.wf(),
            slab_id < 32,
        ensures
            t == self.slab_at(slab_id as int).spec_tip(),
    {
        self.slabs[slab_id as usize].tip()
    }

    /// Reconcile slots in use against the snapshot collaborator's view and
    /// free the unreferenced ones. The scanning and marking belong to the
    /// collaborator; this module's obligation is only to expose `free` as
    /// the mechanism, so the call itself always succeeds.
    pub fn gc_unknown_blobs(&self) -> (r: Result<(), HeapError>)
        ensures
            r == Ok::<(), HeapError>(()),
    {
        Ok(())
    }

    /// Validate and decode the slot buffer that the caller read back for
    /// `heap_id` from the owning slab's file: the kind byte and payload when
    /// the stored checksum matches, a corruption error otherwise.
    pub fn read(&self, heap_id: HeapId, raw: &Vec<u8>) -> (r: Result<(u8, Vec<u8>), HeapError>)
        requires
            self.wf(),
            is_valid_heap_id(heap_id),
            raw@.len() == spec_slot_size(id_class(heap_id)),
        ensures
            match r {
                Ok(kp) => spec_decode(raw@) == Some((kp.0, kp.1@)),
                Err(e) => e == HeapError::Corruption && spec_decode(raw@) is None,
            },
    {
        let (slab_id, _slab_idx) = heap_id.decompose();
        proof {
            assert(self.slab_at(slab_id as int).wf());
            assert(self.slab_at(slab_id as int).spec_bs() == spec_slot_size(id_class(heap_id)));
        }
        self.slabs[slab_id as usize].read(raw)
    }

    /// Free the slot behind an identifier: its index goes back on the owning
    /// slab's free list and becomes the next index that slab hands out. The
    /// caller attempts its best-effort hole punch before this call.
    pub fn free(&mut self, heap_id: HeapId) -> (r: Result<(), HeapError>)
        requires
            old(self).wf(),
            is_valid_heap_id(heap_id),
        ensures
            final(self).wf(),
            r == Ok::<(), HeapError>(()),
            final(self).slab_at(id_class(heap_id) as int).spec_free() == old(self).slab_at(
                id_class(heap_id) as int,
            ).spec_free().push(id_index(heap_id) as u32),
            final(self).slab_at(id_class(heap_id) as int).spec_tip() == old(self).slab_at(
                id_class(heap_id) as int,
            ).spec_tip(),
            forall|j: int|
                0 <= j < 32 && j != id_class(heap_id) ==> slab_like(
                    #[trigger] final(self).slab_at(j),
                    old(self).slab_at(j),
                ),
    {
        let (slab_id, slab_idx) = heap_id.decompose();
        proof {
            assert(old(self).slab_at(slab_id as int).wf());
        }
        let mut slab = self.slabs.remove(slab_id as usize);
        let ghost mid = self.spec_slabs();
        let r = slab.free(slab_idx);
        self.slabs.insert(slab_id as usize, slab);
        proof {
            lemma_remove_insert_at(old(self).spec_slabs(), mid, self.spec_slabs(), slab_id as int, slab);
            assert forall|j: int| 0 <= j < 32 && j != id_class(heap_id) implies slab_like(
                self.slab_at(j),
                old(self).slab_at(j),
            ) by {
                assert(self.spec_slabs()[j] == old(self).spec_slabs()[j]);
            }
        }
        r
    }

    /// Reserve one slot for a request of `size` bytes: route to the slab of
    /// the smallest size class whose slots hold `size` bytes, and allocate
    /// there — from its free list first, else by growing its tip. Never
    /// blocks and never fails.
    pub fn reserve(&mut self, size: u64) -> (r: Reservation)
        requires
            old(self).wf(),
            size <= MAX_SLOT_SIZE,
            forall|c: u64|
                #[trigger] is_min_class(c, size) ==> (old(self).slab_at(
                    c as int,
                ).spec_free().len() == 0 ==> old(self).slab_at(c as int).spec_tip()
                    < u32::MAX),
        ensures
            final(self).wf(),
            r.wf(),
            is_min_class(r.spec_class() as u64, size),
            reserve_transition(
                old(self).slab_at(r.spec_class() as int),
                final(self).slab_at(r.spec_class() as int),
                r,
                size,
            ),
            forall|j: int|
                0 <= j < 32 && j != r.spec_class() ==> slab_like(
                    #[trigger] final(self).slab_at(j),
                    old(self).slab_at(j),
                ),
    {
        proof {
            assert(MAX_SLOT_SIZE <= SIZE_LIMIT) by (bit_vector);
        }
        let slab_id = size_to_slab_id(size);
        proof {
            assert(spec_slot_size(31u64) == MAX_SLOT_SIZE) by (bit_vector);
            if slab_id == 32 {
                assert(spec_slot_size(31u64) < size);
                assert(false);
            }
            assert(old(self).slab_at(slab_id as int).wf());
        }
        let mut slab = self.slabs.remove(slab_id as usize);
        let ghost mid = self.spec_slabs();
        let r = slab.reserve(size);
        self.slabs.insert(slab_id as usize, slab);
        proof {
            lemma_remove_insert_at(old(self).spec_slabs(), mid, self.spec_slabs(), slab_id as int, slab);
            assert forall|j: int| 0 <= j < 32 && j != r.spec_class() implies slab_like(
                self.slab_at(j),
                old(self).slab_at(j),
            ) by {
                assert(self.spec_slabs()[j] == old(self).spec_slabs()[j]);
            }
        }
        r
    }

    /// Return a reservation's slot index to its slab's free list.
    fn release_idx(&mut self, slab_id: u8, idx: u32)
        requires
            old(self).wf(),
            slab_id < 32,
        ensures
            final(self).wf(),
            final(self).slab_at(slab_id as int).spec_free() == old(self).slab_at(
                slab_id as int,
            ).spec_free().push(idx),
            final(self).slab_at(slab_id as int).spec_tip() == old(self).slab_at(
                slab_id as int,
            ).spec_tip(),
            forall|j: int|
                0 <= j < 32 && j != slab_id ==> slab_like(
                    #[trigger] final(self).slab_at(j),
                    old(self).slab_at(j),
                ),
    {
        proof {
            assert(old(self).slab_at(slab_id as int).wf());
        }
        let mut slab = self.slabs.remove(slab_id as usize);
        let ghost mid = self.spec_slabs();
        slab.release(idx);
        self.slabs.insert(slab_id as usize, slab);
        proof {
            lemma_remove_insert_at(old(self).spec_slabs(), mid, self.spec_slabs(), slab_id as int, slab);
            assert forall|j: int| 0 <= j < 32 && j != slab_id implies slab_like(
                self.slab_at(j),
                old(self).slab_at(j),
            ) by {
                assert(self.spec_slabs()[j] == old(self).spec_slabs()[j]);
            }
        }
    }
}

impl Reservation {
    /// Commit this reservation. The caller has written the slot-sized record
    /// bytes at this reservation's offset with positional I/O and forced a
    /// full file sync; `synced` reports whether both succeeded. On success
    /// the slot stays allocated, no slab changes, and the slot's durable
    /// identifier is returned. On an I/O failure the reservation is not
    /// completed: its index goes straight back onto the free list — a failed
    /// write leaks no slot — and the I/O error surfaces.
    pub fn complete(self, heap: &mut Heap, synced: bool) -> (r: Result<HeapId, HeapError>)
        requires
            self.wf(),
            old(heap).wf(),
        ensures
            final(heap).wf(),
            synced ==> r == Ok::<HeapId, HeapError>(
                HeapId(spec_compose(self.spec_class() as u64, self.spec_idx() as u64)),
            ) && forall|j: int|
                0 <= j < 32 ==> slab_like(
                    #[trigger] final(heap).slab_at(j),
                    old(heap).slab_at(j),
                ),
            !synced ==> r == Err::<HeapId, HeapError>(HeapError::Io) && final(heap).slab_at(
                self.spec_class() as int,
            ).spec_free() == old(heap).slab_at(self.spec_class() as int).spec_free().push(
                self.spec_idx(),
            ) && final(heap).slab_at(self.spec_class() as int).spec_tip() == old(heap).slab_at(
                self.spec_class() as int,
            ).spec_tip() && forall|j: int|
                0 <= j < 32 && j != self.spec_class() ==> slab_like(
                    #[trigger] final(heap).slab_at(j),
                    old(heap).slab_at(j),
                ),
    {
        if synced {
            Ok(self.heap_id())
        } else {
            let slab_id = self.class();
            let idx = self.idx();
            heap.release_idx(slab_id, idx);
            Err(HeapError::Io)
        }
    }

    /// Abandon this reservation without writing: its slot index immediately
    /// returns to the owning slab's free list, where the very next
    /// reservation of that class picks it up. This is the sole
    /// leak-prevention path for reservations that are never completed.
    pub fn abort(self, heap: &mut Heap)
        requires
            self.wf(),
            old(heap).wf(),
        ensures
            final(heap).wf(),
            final(heap).slab_at(self.spec_class() as int).spec_free() == old(heap).slab_at(
                self.spec_class() as int,
            ).spec_free().push(self.spec_idx()),
            final(heap).slab_at(self.spec_class() as int).spec_tip() == old(heap).slab_at(
                self.spec_class() as int,
            ).spec_tip(),
            next_index(
                final(heap).slab_at(self.spec_class() as int).spec_free(),
                final(heap).slab_at(self.spec_class() as int).spec_tip(),
            ) == self.spec_idx(),
            forall|j: int|
                0 <= j < 32 && j != self.spec_class() ==> slab_like(
                    #[trigger] final(heap).slab_at(j),
                    old(heap).slab_at(j),
                ),
    {
        let slab_id = self.class();
        let idx = self.idx();
        heap.release_idx(slab_id, idx);
    }
}

} // verus!
