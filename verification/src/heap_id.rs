//! Slot identifier: one 64-bit value that packs a size class and a slot
//! index. The upper 32 bits carry a single set bit at position `class`; the
//! lower 32 bits carry the index. The encoding is self-describing: the owning
//! slab of an identifier is recovered from the identifier alone.

use vstd::prelude::*;

verus! {

/// A size class: the index of the slab that stores one power-of-two slot
/// size.
pub type SlabId = u8;

/// A slot index within one slab.
pub type SlabIdx = u32;

/// A unique identifier for a particular slot in the heap.
#[derive(Clone, Copy, PartialEq, Eq, Structural, Hash, Debug)]
pub struct HeapId(pub u64);

/// The 64-bit encoding of a (size class, slot index) pair.
pub open spec fn spec_compose(slab_id: u64, slab_idx: u64) -> u64
    recommends
        slab_id < 32,
        slab_idx < 0x1_0000_0000,
{
    (1u64 << ((32 + slab_id) as u64)) | slab_idx
}

/// `id` was produced by `compose`: its upper 32 bits hold exactly one set bit.
pub open spec fn is_valid_heap_id(id: HeapId) -> bool {
    exists|c: u64| c < 32 && (id.0 >> 32) == (1u64 << c)
}

/// The size class embedded in a valid identifier.
pub open spec fn id_class(id: HeapId) -> u64
    recommends
        is_valid_heap_id(id),
{
    choose|c: u64| c < 32 && (id.0 >> 32) == (1u64 << c)
}

/// The slot index embedded in an identifier: its lower 32 bits.
pub open spec fn id_index(id: HeapId) -> u64 {
    id.0 & 0xffff_ffff
}

/// Two identifiers with the same encoding come from the same pair: the
/// encoding is injective on class < 32 and 32-bit indices.
pub proof fn lemma_compose_injective(c1: u64, i1: u64, c2: u64, i2: u64)
    by (bit_vector)
    requires
        c1 < 32,
        c2 < 32,
        i1 < 0x1_0000_0000,
        i2 < 0x1_0000_0000,
        spec_compose(c1, i1) == spec_compose(c2, i2),
    ensures
        c1 == c2,
        i1 == i2,
{
}

/// A composed identifier is valid, and its embedded class and index are the
/// pair it was composed from.
pub proof fn lemma_compose_decomposes(slab_id: u64, slab_idx: u64)
    requires
        slab_id < 32,
        slab_idx < 0x1_0000_0000,
    ensures
        is_valid_heap_id(HeapId(spec_compose(slab_id, slab_idx))),
        id_class(HeapId(spec_compose(slab_id, slab_idx))) == slab_id,
        id_index(HeapId(spec_compose(slab_id, slab_idx))) == slab_idx,
{
    let n = spec_compose(slab_id, slab_idx);
    let id = HeapId(n);
    assert((n >> 32) == (1u64 << slab_id) && (n & 0xffff_ffff) == slab_idx) by (bit_vector)
        requires
            slab_id < 32,
            slab_idx < 0x1_0000_0000,
            n == spec_compose(slab_id, slab_idx),
    ;
    let c = id_class(id);
    assert(c < 32 && (id.0 >> 32) == (1u64 << c));
    assert(c == slab_id) by (bit_vector)
        requires
            c < 32,
            slab_id < 32,
            (1u64 << c) == (1u64 << slab_id),
    ;
}

impl HeapId {
    /// Recover the (size class, slot index) pair that `compose` packed into
    /// this identifier. Malformed identifiers (no single set bit among the
    /// upper 32 bits) are a protocol violation and are excluded by contract.
    pub fn decompose(&self) -> (r: (SlabId, SlabIdx))
        requires
            is_valid_heap_id(*self),
        ensures
            r.0 < 32,
            r.0 as u64 == id_class(*self),
            r.1 as u64 == id_index(*self),
            self.0 == spec_compose(r.0 as u64, r.1 as u64),
    {
        let ghost n: u64 = self.0;
        proof {
            assert((((n >> 32) as u32) as u64) == (n >> 32)) by (bit_vector);
            assert((((n & 0xffff_ffff) as u32) as u64) == (n & 0xffff_ffff)) by (bit_vector);
        }
        let upper = (self.0 >> 32) as u32;
        let idx = (self.0 & 0xffff_ffff) as u32;
        let mut c: u8 = 0;
        loop
            invariant
                c < 32,
                is_valid_heap_id(*self),
                n == self.0,
                upper as u64 == (n >> 32),
                idx as u64 == (n & 0xffff_ffff),
                forall|k: u64| k < c ==> upper as u64 != (1u64 << k),
            decreases 32 - c,
        {
            let bit: u32 = 1u32 << (c as u32);
            proof {
                assert(bit as u64 == (1u64 << (c as u64))) by (bit_vector)
                    requires
                        c < 32,
                        bit == 1u32 << (c as u32),
                ;
            }
            if upper == bit {
                proof {
                    assert(c as u64 == id_class(*self)) by {
                        let w = id_class(*self);
                        assert(w < 32 && (n >> 32) == (1u64 << w));
                        assert(c as u64 == w) by (bit_vector)
                            requires
                                c < 32,
                                w < 32,
                                (1u64 << (c as u64)) == (1u64 << w),
                        ;
                    }
                    assert(n == spec_compose(c as u64, idx as u64)) by (bit_vector)
                        requires
                            c < 32,
                            (n >> 32) == (1u64 << (c as u64)),
                            idx as u64 == (n & 0xffff_ffff),
                    ;
                }
                return (c, idx);
            }
            proof {
                if c == 31 {
                    let w = choose|c0: u64| c0 < 32 && (self.0 >> 32) == (1u64 << c0);
                    assert(upper as u64 == (1u64 << w));
                    assert(false);
                }
            }
            c = c + 1;
        }
    }

    /// Pack a size class and a slot index into one identifier.
    pub fn compose(slab_id: SlabId, slab_idx: SlabIdx) -> (r: HeapId)
        requires
            slab_id < 32,
        ensures
            r.0 == spec_compose(slab_id as u64, slab_idx as u64),
            is_valid_heap_id(r),
            id_class(r) == slab_id as u64,
            id_index(r) == slab_idx as u64,
    {
        let slab = 1u64 << (32 + slab_id as u64);
        let heap_id = slab | slab_idx as u64;
        proof {
            lemma_compose_decomposes(slab_id as u64, slab_idx as u64);
        }
        HeapId(heap_id)
    }
}

} // verus!
