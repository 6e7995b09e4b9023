//! Size-class codec: maps a requested byte size to the power-of-two size
//! class that stores it, and back to that class's slot size.

use vstd::prelude::*;

verus! {

/// Smallest slot size: the size class 0 slab stores slots of this many bytes.
pub const MIN_SLOT_SIZE: u64 = 65536;

/// Largest slot size, 2^47 bytes: the slot size of the highest class that a
/// slot identifier can name.
pub const MAX_SLOT_SIZE: u64 = 0x8000_0000_0000;

/// One past the heap's fixed maximum object size, 2^48 bytes: the slot size
/// that size class 32 would have.
pub const SIZE_LIMIT: u64 = 0x1_0000_0000_0000;

/// Slot size of a size class: `MIN_SLOT_SIZE << class`, so 64 KiB for class 0,
/// doubling with each class, up to 2^48 bytes for class 32.
pub open spec fn spec_slot_size(class: u64) -> u64
    recommends
        class <= 32,
{
    1u64 << ((16 + class) as u64)
}

/// `class` is the smallest size class whose slot size is at least `size`.
pub open spec fn is_min_class(class: u64, size: u64) -> bool {
    &&& class <= 32
    &&& spec_slot_size(class) >= size
    &&& forall|k: u64| k < class ==> spec_slot_size(k) < size
}

/// Slot sizes grow strictly with the size class.
pub proof fn lemma_slot_size_increases(c1: u64, c2: u64)
    by (bit_vector)
    requires
        c1 < c2 <= 32,
    ensures
        spec_slot_size(c1) < spec_slot_size(c2),
{
}

/// At most one size class is the minimal fit for a given size.
pub proof fn lemma_min_class_unique(c1: u64, c2: u64, size: u64)
    requires
        is_min_class(c1, size),
        is_min_class(c2, size),
    ensures
        c1 == c2,
{
    if c1 < c2 {
        assert(spec_slot_size(c1) < size);
    }
    if c2 < c1 {
        assert(spec_slot_size(c2) < size);
    }
}

/// The minimal fitting class has the smallest slot size that still holds
/// `size` bytes: every class that fits `size` has a slot at least as large.
pub proof fn lemma_min_class_is_tightest(class: u64, size: u64)
    requires
        is_min_class(class, size),
    ensures
        spec_slot_size(class) >= size,
        forall|c: u64|
            c <= 32 && spec_slot_size(c) >= size ==> spec_slot_size(class) <= spec_slot_size(c),
{
    assert forall|c: u64| c <= 32 && spec_slot_size(c) >= size implies spec_slot_size(class)
        <= spec_slot_size(c) by {
        if c < class {
            assert(spec_slot_size(c) < size);
        } else if class < c {
            lemma_slot_size_increases(class, c);
        }
    }
}

/// Slot size of size class `slab_id`.
pub fn slab_id_to_size(slab_id: u8) -> (size: u64)
    requires
        slab_id <= 32,
    ensures
        size == spec_slot_size(slab_id as u64),
        size >= MIN_SLOT_SIZE,
{
    proof {
        assert(slab_id <= 32 ==> (1u64 << ((16 + slab_id as u64) as u64)) >= 65536u64)
            by (bit_vector);
    }
    1u64 << (16 + slab_id as u64)
}

/// Smallest size class whose slot size is at least `size`.
pub fn size_to_slab_id(size: u64) -> (class: u8)
    requires
        size <= SIZE_LIMIT,
    ensures
        is_min_class(class as u64, size),
{
    let mut c: u8 = 0;
    loop
        invariant
            c <= 32,
            size <= SIZE_LIMIT,
            forall|k: u64| k < c ==> spec_slot_size(k) < size,
        decreases 32 - c,
    {
        let sz = slab_id_to_size(c);
        if sz >= size {
            return c;
        }
        proof {
            assert(spec_slot_size(32) == SIZE_LIMIT) by (bit_vector);
            if c == 32 {
                assert(false);
            }
        }
        c = c + 1;
    }
}

/// Slot size of the slab that stores a request of `size` bytes: the smallest
/// power-of-two slot size (at least `MIN_SLOT_SIZE`) that holds `size` bytes.
pub fn slab_size(size: u64) -> (slot: u64)
    requires
        size <= SIZE_LIMIT,
    ensures
        slot >= size,
        exists|c: u64| #[trigger] is_min_class(c, size) && slot == spec_slot_size(c),
        forall|c: u64| c <= 32 && spec_slot_size(c) >= size ==> slot <= spec_slot_size(c),
{
    let class = size_to_slab_id(size);
    proof {
        lemma_min_class_is_tightest(class as u64, size);
    }
    slab_id_to_size(class)
}

} // verus!
