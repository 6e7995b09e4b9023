//! Blob heap: the out-of-line object store of an embedded key-value engine.
//!
//! Large values are kept outside the main page cache, in one append-mostly
//! slab file per power-of-two size class. This crate holds the verified
//! core: the size-class geometry, the slot-identifier codec, the on-disk
//! record codec with its integrity check, and the allocation discipline of
//! each slab (free-list reuse before tip growth, with guaranteed release of
//! abandoned reservations). File handling itself lives with the caller.

pub mod bound;
pub mod error;
pub mod heap;
pub mod heap_id;
pub mod record;
pub mod size_class;
pub mod slab;

pub use bound::{cmp_bytes, Bound};
pub use error::HeapError;
pub use heap::Heap;
pub use heap_id::{HeapId, SlabId, SlabIdx};
pub use record::{decode_record, encode_record};
pub use slab::{Reservation, Slab};
pub use size_class::{slab_id_to_size, slab_size, size_to_slab_id, MAX_SLOT_SIZE, MIN_SLOT_SIZE, SIZE_LIMIT};
