use blob_heap::Bound;
use blob_heap::cmp_bytes;
use core::cmp::Ordering;
use Bound::{Exclusive, Inclusive, Inf};

#[test]
fn test_bounds() {
    assert_eq!(Inf, Inf);
    assert_eq!(Exclusive(vec![]), Exclusive(vec![]));
    assert_eq!(Inclusive(vec![]), Inclusive(vec![]));
    assert_eq!(Inclusive(b"hi".to_vec()), Inclusive(b"hi".to_vec()));
    assert_eq!(Exclusive(b"hi".to_vec()), Exclusive(b"hi".to_vec()));
    assert!(Inclusive(b"hi".to_vec()) > Exclusive(b"hi".to_vec()));
    assert!(Inclusive(vec![]) < Inf);
    assert!(Exclusive(vec![]) < Inf);
    assert!(Inf > Inclusive(vec![0, 0, 0, 0, 0, 0, 136, 184]));
}

#[test]
fn bound_inner_returns_the_key() {
    assert_eq!(Bound::Inclusive(b"key".to_vec()).inner(), b"key");
    assert_eq!(Bound::Exclusive(vec![1, 2, 3]).inner(), &[1, 2, 3]);
}

#[test]
fn bound_size_in_bytes_counts_the_key() {
    let enum_sz = core::mem::size_of::<Bound>();
    let vec_sz = core::mem::size_of::<Vec<u8>>();
    assert_eq!(Bound::Inf.size_in_bytes(), enum_sz);
    assert_eq!(Bound::Inclusive(vec![9; 10]).size_in_bytes(), enum_sz + 10 + vec_sz);
    assert_eq!(Bound::Exclusive(vec![]).size_in_bytes(), enum_sz + vec_sz);
}

#[test]
fn bound_exclusive_sorts_below_inclusive_on_equal_keys() {
    assert!(Exclusive(b"k".to_vec()) < Inclusive(b"k".to_vec()));
    assert!(Exclusive(b"a".to_vec()) < Inclusive(b"b".to_vec()));
    assert!(Exclusive(b"b".to_vec()) > Inclusive(b"a".to_vec()));
    assert!(Inclusive(b"a".to_vec()) < Inclusive(b"b".to_vec()));
    assert_ne!(Inclusive(b"k".to_vec()), Exclusive(b"k".to_vec()));
}

#[test]
fn cmp_bytes_is_lexicographic() {
    assert_eq!(cmp_bytes(&vec![], &vec![]), Ordering::Equal);
    assert_eq!(cmp_bytes(&vec![], &vec![0]), Ordering::Less);
    assert_eq!(cmp_bytes(&vec![1, 2], &vec![1, 2, 0]), Ordering::Less);
    assert_eq!(cmp_bytes(&vec![1, 3], &vec![1, 2, 0]), Ordering::Greater);
    assert_eq!(cmp_bytes(&vec![5, 5], &vec![5, 5]), Ordering::Equal);
}
