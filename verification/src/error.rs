//! Error taxonomy of the blob heap. I/O failures are reported by the
//! caller's file layer and passed through unmodified; corruption is a
//! checksum mismatch found when a slot is decoded. Contract violations
//! (oversized requests, malformed identifiers, wrong-length payloads) are
//! not errors: they are excluded by the functions' preconditions.

use vstd::prelude::*;

verus! {

/// What can go wrong in a recoverable way while using the heap.
#[derive(Clone, Copy, Debug, PartialEq, Eq, Structural)]
pub enum HeapError {
    /// A file operation (open, read, write, sync, metadata) failed.
    Io,
    /// A slot's stored checksum does not match its contents.
    Corruption,
}

} // verus!
