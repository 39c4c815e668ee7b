use gba::boxed::Box;
use gba::collections::{Arr, StaticArr};
use gba::heap::{AllocError, Chunk, Heap, HEADER_SIZE};
use gba::ptr::Ptr;
use gba::reg::OAM;

const START: u32 = 0x0200_0010;

#[test]
fn box_takes_and_returns_one_element() {
    let mut h = Heap::initialize(START, START + 1024);
    let b: Box<u64> = Box::new(&mut h).unwrap();
    assert_eq!(b.as_ptr().num, START + HEADER_SIZE);
    assert_eq!(h.used_chunks(), vec![Chunk { addr: START, len: 8 }]);
    b.free(&mut h);
    assert_eq!(h.free_chunks(), vec![Chunk { addr: START, len: 1008 }]);
    assert!(h.used_chunks().is_empty());
}

#[test]
fn box_on_full_heap_is_exhausted() {
    let mut h = Heap::initialize(START, START + 1024);
    assert_ne!(h.alloc_bytes(896), 0);
    let r: Result<Box<u32>, AllocError> = Box::new(&mut h);
    assert!(matches!(r, Err(AllocError::Exhausted)));
}

#[test]
fn arr_reports_length_in_bytes() {
    let mut h = Heap::initialize(START, START + 1024);
    let a: Arr<u16> = Arr::new(&mut h, 10).unwrap();
    assert_eq!(a.len(), 20);
    assert_eq!(a.element_ptr(0).num, START + HEADER_SIZE);
    assert_eq!(a.element_ptr(3).num, START + HEADER_SIZE + 6);
    assert_eq!(h.used_chunks(), vec![Chunk { addr: START, len: 20 }]);
    a.free(&mut h);
    assert_eq!(h.free_chunks(), vec![Chunk { addr: START, len: 1008 }]);
}

#[test]
fn arr_too_large_is_exhausted() {
    let mut h = Heap::initialize(START, START + 1024);
    let r: Result<Arr<u64>, AllocError> = Arr::new(&mut h, 1000);
    assert!(matches!(r, Err(AllocError::Exhausted)));
    let huge: Result<Arr<u64>, AllocError> = Arr::new(&mut h, u32::MAX);
    assert!(matches!(huge, Err(AllocError::Exhausted)));
    assert_eq!(h.free_chunks(), vec![Chunk { addr: START, len: 1008 }]);
}

#[test]
fn static_arr_indexes_from_its_base() {
    let v: StaticArr<u32> = StaticArr::new(Ptr::from_u32(OAM), 256);
    assert_eq!(v.len(), 256);
    assert_eq!(v.as_ptr().num, OAM);
    assert_eq!(v.element_ptr(2).num, OAM + 8);
    let w = v;
    assert_eq!(w.element_ptr(0).num, OAM);
}

#[test]
fn ptr_offset_scales_by_element() {
    let p: Ptr<u32> = Ptr::from_u32(100);
    assert_eq!(p.offset(-2).num, 92);
    assert_eq!(p.offset(5).num, 120);
    assert_eq!(p.transmute::<u8>().offset(3).num, 103);
    assert_eq!(p.cpy().num, 100);
    assert!(Ptr::<u16>::null().is_null());
    assert!(!p.is_null());
}
