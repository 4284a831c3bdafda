use briny::casting::{cast, cast_slice, from_bytes, from_to_bytes_roundtrip, slice_from_bytes,
    slice_from_bytes_copy_into, to_bytes, Pod};
use briny::cell::NotUnsafeCell;
use briny::darc::{Darc, DarcInner};
use briny::naarc::{Naarc, NaarcInner};

/// A four-byte value that claims only single-byte alignment.
#[derive(Copy, Clone, Debug, PartialEq)]
struct Loose4(u32);

impl Pod for Loose4 {
    fn size() -> usize {
        4
    }

    fn align() -> usize {
        1
    }

    fn is_valid_bitpattern(_bytes: &[u8]) -> bool {
        true
    }

    fn write_bytes(&self) -> Vec<u8> {
        self.0.to_le_bytes().to_vec()
    }

    fn read_bytes(bytes: &[u8]) -> Self {
        Loose4(u32::from_le_bytes(bytes[0..4].try_into().unwrap()))
    }
}

/// A two-byte value that claims four-byte alignment, so slices of it can
/// be recast as four-byte words.
#[derive(Copy, Clone, Debug, PartialEq)]
struct Half(u16);

impl Pod for Half {
    fn size() -> usize {
        2
    }

    fn align() -> usize {
        4
    }

    fn is_valid_bitpattern(_bytes: &[u8]) -> bool {
        true
    }

    fn write_bytes(&self) -> Vec<u8> {
        self.0.to_le_bytes().to_vec()
    }

    fn read_bytes(bytes: &[u8]) -> Self {
        Half(u16::from_le_bytes(bytes[0..2].try_into().unwrap()))
    }
}

#[test]
fn roundtrip_each_width() {
    assert_eq!(from_to_bytes_roundtrip(&0xABu8), 0xAB);
    assert_eq!(from_to_bytes_roundtrip(&0xBEEFu16), 0xBEEF);
    assert_eq!(from_to_bytes_roundtrip(&0xDEADBEEFu32), 0xDEADBEEF);
    assert_eq!(from_to_bytes_roundtrip(&0xCAFEBABEDEADBEEFu64), 0xCAFEBABEDEADBEEF);
}

#[test]
fn to_bytes_is_little_endian() {
    assert_eq!(to_bytes(&0x12345678u32), vec![0x78, 0x56, 0x34, 0x12]);
    assert_eq!(to_bytes(&0x0102u16), vec![0x02, 0x01]);
}

#[test]
fn offset_buffer_alignment_scenario() {
    // an 8-byte buffer requested as a u32 slice of length 2:
    // offset by 1 byte it must fail with an unaligned access,
    // at offset 0 it must succeed
    let buf = [0u8; 9];

    let shifted = &buf[1..9];
    let err = slice_from_bytes::<u32>(shifted, 1).unwrap_err();
    assert!(err.is_unaligned_access());
    assert!(!err.is_size_bound_failure());

    let aligned = &buf[0..8];
    let ok = slice_from_bytes::<u32>(aligned, 0).unwrap();
    assert_eq!(ok.len(), 2);
}

#[test]
fn slice_length_rejection_reports_size() {
    let buf = [0u8; 7];
    let err = slice_from_bytes::<u32>(&buf, 0).unwrap_err();
    assert!(err.is_size_bound_failure());
    assert!(!err.is_unaligned_access());
}

#[test]
fn combined_reasons_are_united() {
    // length 7 and base 2: both the size and the alignment reason
    let buf = [0u8; 7];
    let err = slice_from_bytes::<u32>(&buf, 2).unwrap_err();
    assert!(err.is_size_bound_failure());
    assert!(err.is_unaligned_access());

    // the same union through from_bytes
    let err = from_bytes::<u32>(&buf, 2).unwrap_err();
    assert!(err.is_size_bound_failure());
    assert!(err.is_unaligned_access());
}

#[test]
fn cast_alignment_ordering_enforced() {
    // source alignment below the target's is rejected
    let v = Loose4(7);
    let err = cast::<Loose4, u32>(&v).unwrap_err();
    assert!(err.is_unaligned_access());

    // the other direction is fine: u32 alignment exceeds Loose4's
    let w = cast::<u32, Loose4>(&7u32).unwrap();
    assert_eq!(w, Loose4(7));
}

#[test]
fn cast_slice_truncates_toward_zero() {
    // three two-byte values are six bytes: one whole u32, two bytes dropped
    let halves = [Half(0x2211), Half(0x4433), Half(0x6655)];
    let words = cast_slice::<Half, u32>(&halves).unwrap();
    assert_eq!(words, vec![0x44332211u32]);

    // unequal alignment is rejected outright
    let err = cast_slice::<u16, u32>(&[1u16, 2]).unwrap_err();
    assert!(err.is_unaligned_access());
}

#[test]
fn copy_into_checks_destination_length() {
    let bytes = [0u8; 8];
    let mut too_short = vec![0u32; 1];
    let err = slice_from_bytes_copy_into::<u32>(&bytes, &mut too_short).unwrap_err();
    assert!(err.is_bad_buffer());

    let mut right = vec![0u32; 2];
    slice_from_bytes_copy_into::<u32>(&bytes, &mut right).unwrap();
    assert_eq!(right, vec![0u32, 0u32]);
}

#[test]
fn borrow_state_machine_scenario() {
    let mut cell = NotUnsafeCell::new(5u32);
    assert_eq!(cell.debug_borrow_state(), 0);

    // shared borrows stack; an exclusive attempt during them fails
    let g1 = cell.try_borrow().unwrap();
    let g2 = cell.try_borrow().unwrap();
    assert_eq!(cell.debug_borrow_state(), 2);
    assert!(cell.try_borrow_mut().is_err());

    // releasing both returns the cell to free, monotonically
    cell.release(g1);
    assert_eq!(cell.debug_borrow_state(), 1);
    cell.release(g2);
    assert_eq!(cell.debug_borrow_state(), 0);

    // exclusive from free; shared attempts during it fail
    let e = cell.try_borrow_mut().unwrap();
    assert_eq!(cell.debug_borrow_state(), -1);
    assert!(cell.try_borrow().is_err());
    cell.write(&e, 6);
    cell.release_mut(e);
    assert_eq!(cell.debug_borrow_state(), 0);
    assert_eq!(*cell.get_ref(), 6);
}

#[test]
fn refcount_scenario() {
    // construct an owning handle around the value 42
    let mut inner = DarcInner::new(42u32);
    let h = Darc::from_inner(&mut inner);
    assert_eq!(h.strong_count(&inner), 1);

    // clone three times: count = 4
    let c1 = h.clone_handle(&mut inner);
    let c2 = h.clone_handle(&mut inner);
    let c3 = h.clone_handle(&mut inner);
    assert_eq!(h.strong_count(&inner), 4);

    // drop two clones: count = 2; not sole owner, so no mutable access
    c1.drop_handle(&mut inner);
    c2.drop_handle(&mut inner);
    assert_eq!(h.strong_count(&inner), 2);
    assert!(h.get_mut(&mut inner).is_none());

    // drop one more: count = 1; now mutation succeeds
    c3.drop_handle(&mut inner);
    assert_eq!(h.strong_count(&inner), 1);
    let v = h.get_mut(&mut inner).unwrap();
    *v = 99;
    assert_eq!(h.try_unwrap(inner).unwrap(), 99);
}

#[test]
fn teardown_happens_exactly_once() {
    let mut inner = NaarcInner::new(0, 0u32);
    let a = Naarc::new(&mut inner, 7u32);
    let b = a.clone_handle(&mut inner);
    assert!(!inner.is_dropped());
    b.drop_handle(&mut inner);
    assert!(!inner.is_dropped());
    a.drop_handle(&mut inner);
    assert!(inner.is_dropped());
}

#[test]
fn try_unwrap_requires_sole_ownership() {
    let mut inner = DarcInner::new(3u8);
    let a = Darc::from_inner(&mut inner);
    let b = a.clone_handle(&mut inner);
    let (a, mut inner) = a.try_unwrap(inner).unwrap_err();
    b.drop_handle(&mut inner);
    assert_eq!(a.try_unwrap(inner).unwrap(), 3u8);
}

#[test]
fn error_reasons_compose() {
    let e = briny::BrinyError::size_bound_failure().add(briny::BrinyError::unaligned_access());
    assert!(e.is_err());
    assert!(e.is_size_bound_failure());
    assert!(e.is_unaligned_access());
    assert!(!e.is_invalid_bitpattern());
    assert!(!e.is_bad_buffer());

    let none = briny::BrinyError::reserved();
    assert!(!none.is_err());
}
