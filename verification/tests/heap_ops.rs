use blob_heap::{decode_record, encode_record, HeapError, Heap, HeapId, Slab};

fn empty_heap() -> Heap {
    Heap::start(&vec![0u64; 32])
}

#[test]
fn slab_recovers_tip_from_file_length() {
    // restart recovery: tip is file length over slot size, free list empty,
    // whatever was in memory before
    let s = Slab::start(0, 0);
    assert_eq!(s.tip(), 0);
    let s = Slab::start(0, 65536 * 5);
    assert_eq!(s.tip(), 5);
    assert_eq!(s.slot_size(), 65536);
    let s = Slab::start(3, 3 * (65536 << 3) + 17);
    assert_eq!(s.tip(), 3);
    let s = Slab::start(31, 1 << 47);
    assert_eq!(s.tip(), 1);
}

#[test]
fn growth_yields_distinct_consecutive_indices() {
    let mut s = Slab::start(0, 0);
    let a = s.reserve(10);
    let b = s.reserve(10);
    let c = s.reserve(10);
    assert_eq!(a.idx(), 0);
    assert_eq!(b.idx(), 1);
    assert_eq!(c.idx(), 2);
    assert_eq!(s.tip(), 3);
}

#[test]
fn freed_index_is_reused_before_growth() {
    let mut s = Slab::start(0, 65536 * 5);
    assert_eq!(s.tip(), 5);
    s.free(3).unwrap();
    let first = s.reserve(100);
    let second = s.reserve(100);
    // index 3 reappears before any index beyond the prior tip
    assert_eq!(first.idx(), 3);
    assert_eq!(second.idx(), 5);
    assert_eq!(s.tip(), 6);
}

#[test]
fn abandoned_reservation_releases_its_slot() {
    let mut h = empty_heap();
    let r = h.reserve(1000);
    let idx = r.idx();
    let class = r.class();
    assert_eq!(idx, 0);
    assert_eq!(class, 0);
    r.abort(&mut h);
    // the abandoned index is immediately available again
    let again = h.reserve(1000);
    assert_eq!(again.idx(), idx);
    assert_eq!(again.class(), class);
}

#[test]
fn failed_complete_releases_its_slot() {
    let mut h = empty_heap();
    let r = h.reserve(1000);
    let idx = r.idx();
    // the caller's write or sync failed: the commit reports the I/O error
    // and the slot flows back to the free list
    assert_eq!(r.complete(&mut h, false), Err(HeapError::Io));
    let again = h.reserve(1000);
    assert_eq!(again.idx(), idx);
}

#[test]
fn complete_returns_the_composed_identifier() {
    let mut h = empty_heap();
    let r = h.reserve(200_000);
    assert_eq!(r.class(), 2);
    let expected = r.heap_id();
    let id = r.complete(&mut h, true).unwrap();
    assert_eq!(id, expected);
    assert_eq!(id.decompose(), (2, 0));
    // the committed slot stays allocated: the next request grows the tip
    let next = h.reserve(200_000);
    assert_eq!(next.idx(), 1);
}

#[test]
fn reserve_routes_by_size_class() {
    let mut h = empty_heap();
    assert_eq!(h.reserve(1).class(), 0);
    assert_eq!(h.reserve(65536).class(), 0);
    assert_eq!(h.reserve(65537).class(), 1);
    assert_eq!(h.reserve(1 << 30).class(), 14);
    assert_eq!(h.reserve(1 << 47).class(), 31);
}

#[test]
fn written_slot_reads_back_exactly() {
    // full write-path round trip: reserve, encode, commit, read back
    let mut h = empty_heap();
    let r = h.reserve(5000);
    let slot_len = r.slot_len() as usize;
    assert_eq!(slot_len, 65536);
    assert_eq!(r.offset(), 0);

    let mut payload = b"the stored blob".to_vec();
    payload.resize(slot_len - 5, 0);
    let written = encode_record(3, &payload);
    assert_eq!(written.len(), slot_len);

    let id = r.complete(&mut h, true).unwrap();
    assert_eq!(h.read(id, &written), Ok((3, payload)));
}

#[test]
fn corrupted_slot_fails_to_read() {
    let mut h = empty_heap();
    let r = h.reserve(5000);
    let slot_len = r.slot_len() as usize;
    let mut payload = b"bytes that will rot".to_vec();
    payload.resize(slot_len - 5, 0);
    let mut written = encode_record(8, &payload);
    let id = r.complete(&mut h, true).unwrap();

    written[10] ^= 0x40;
    assert_eq!(h.read(id, &written), Err(HeapError::Corruption));
}

#[test]
fn free_makes_the_slot_index_reusable() {
    let mut h = empty_heap();
    let a = h.reserve(70_000);
    let id = a.complete(&mut h, true).unwrap();
    let b = h.reserve(70_000);
    assert_eq!(b.idx(), 1);
    b.abort(&mut h);

    h.free(id).unwrap();
    // both indices are now free; the most recently freed comes back first
    let next = h.reserve(70_000);
    assert_eq!(next.idx(), 0);
}

#[test]
fn gc_unknown_blobs_is_delegated() {
    let h = empty_heap();
    assert_eq!(h.gc_unknown_blobs(), Ok(()));
}

#[test]
fn restart_forgets_the_free_list() {
    // a freed slot makes the index reusable in memory, but a restarted slab
    // of the same file length starts with an empty free list again
    let mut before = Slab::start(1, 4 * 131072);
    before.free(2).unwrap();
    assert_eq!(before.reserve(0).idx(), 2);

    let mut after = Slab::start(1, 4 * 131072);
    assert_eq!(after.tip(), 4);
    assert_eq!(after.reserve(0).idx(), 4);
}

#[test]
fn decoded_payload_is_what_follows_the_header() {
    // the payload is whatever follows byte 4 of the checksum, at the read
    // length itself: a slot-sized buffer decodes to a slot-minus-five
    // payload including its padding
    let mut payload = vec![1u8, 2, 3];
    payload.resize(100, 0);
    let rec = encode_record(1, &payload);
    let (kind, got) = decode_record(&rec).unwrap();
    assert_eq!(kind, 1);
    assert_eq!(got.len(), 100);
    assert_eq!(&got[..3], &[1, 2, 3]);
    assert!(got[3..].iter().all(|&b| b == 0));
}
