use blob_heap::{
    decode_record, encode_record, slab_id_to_size, slab_size, size_to_slab_id, HeapError, HeapId,
};

#[test]
fn slot_sizes_double_from_min() {
    assert_eq!(slab_id_to_size(0), 65536);
    assert_eq!(slab_id_to_size(1), 131072);
    assert_eq!(slab_id_to_size(4), 1 << 20);
    assert_eq!(slab_id_to_size(31), 1 << 47);
    assert_eq!(slab_id_to_size(32), 1 << 48);
}

#[test]
fn size_maps_to_smallest_fitting_class() {
    assert_eq!(size_to_slab_id(0), 0);
    assert_eq!(size_to_slab_id(1), 0);
    assert_eq!(size_to_slab_id(65536), 0);
    assert_eq!(size_to_slab_id(65537), 1);
    assert_eq!(size_to_slab_id(131072), 1);
    assert_eq!(size_to_slab_id(131073), 2);
    assert_eq!(size_to_slab_id(1 << 47), 31);
    assert_eq!(size_to_slab_id((1 << 47) + 1), 32);
}

#[test]
fn slab_size_rounds_up_and_fits() {
    // the slot size always holds the request, and is the smallest such slot
    for &s in &[1u64, 100, 65536, 65537, 1 << 20, (1 << 20) + 1, 1 << 46] {
        let slot = slab_size(s);
        assert!(slot >= s);
        if size_to_slab_id(s) > 0 {
            assert!(slab_id_to_size(size_to_slab_id(s) - 1) < s);
        }
    }
    assert_eq!(slab_size(1), 65536);
    assert_eq!(slab_size(100_000), 131072);
}

#[test]
fn heap_id_round_trips() {
    for &(class, idx) in &[(0u8, 0u32), (0, 1), (3, 7), (5, 12345), (31, u32::MAX)] {
        let id = HeapId::compose(class, idx);
        assert_eq!(id.decompose(), (class, idx));
    }
}

#[test]
fn heap_id_encoding_is_one_hot() {
    assert_eq!(HeapId::compose(0, 0).0, 1u64 << 32);
    assert_eq!(HeapId::compose(3, 7).0, (1u64 << 35) | 7);
    assert_eq!(HeapId::compose(31, u32::MAX).0, (1u64 << 63) | 0xffff_ffff);
}

#[test]
fn encode_prepends_kind_and_checksum() {
    // CRC-32 of b"123456789" is the classic check value 0xcbf43926; the
    // record checksum covers the kind byte and the payload, so encoding
    // kind b'1' with payload b"23456789" must store exactly that value.
    let payload = b"23456789".to_vec();
    let r = encode_record(b'1', &payload);
    assert_eq!(r.len(), payload.len() + 5);
    assert_eq!(r[0], b'1');
    assert_eq!(&r[1..5], &[0x26, 0x39, 0xf4, 0xcb]);
    assert_eq!(&r[5..], b"23456789");
}

#[test]
fn decode_returns_what_was_encoded() {
    let payload = vec![0xab; 100];
    let rec = encode_record(42, &payload);
    assert_eq!(decode_record(&rec), Ok((42, payload)));

    let empty: Vec<u8> = Vec::new();
    let rec = encode_record(7, &empty);
    assert_eq!(rec.len(), 5);
    assert_eq!(decode_record(&rec), Ok((7, empty)));
}

#[test]
fn decode_rejects_any_flipped_bit() {
    let payload = b"some stored blob bytes".to_vec();
    let rec = encode_record(9, &payload);
    // flip each bit of the record in turn: every flip must surface as
    // corruption, never as silently wrong data
    for byte in 0..rec.len() {
        for bit in 0..8 {
            let mut bad = rec.clone();
            bad[byte] ^= 1 << bit;
            assert_eq!(decode_record(&bad), Err(HeapError::Corruption));
        }
    }
}
