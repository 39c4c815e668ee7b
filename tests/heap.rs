use gba::heap::{
    alloc_initialize, alloc_items, allocate, free, AllocError, Chunk, Heap, HEADER_SIZE, RAM_END,
    RAM_START,
};
use gba::ptr::Ptr;

const START: u32 = 0x0200_0010;

fn arena_1024() -> Heap {
    Heap::initialize(START, START + 1024)
}

fn footprint(h: &Heap) -> u32 {
    let mut total = 0u32;
    for c in h.free_chunks().iter().chain(h.used_chunks().iter()) {
        total += c.len + HEADER_SIZE;
    }
    total
}

#[test]
fn initialize_installs_one_free_chunk() {
    let h = arena_1024();
    assert_eq!(h.free_chunks(), vec![Chunk { addr: START, len: 1024 - HEADER_SIZE }]);
    assert!(h.used_chunks().is_empty());
    assert_eq!(h.start(), START);
    assert_eq!(h.end(), START + 1024);
}

#[test]
fn alloc_initialize_spans_work_ram() {
    let h = alloc_initialize();
    assert_eq!(
        h.free_chunks(),
        vec![Chunk { addr: RAM_START, len: RAM_END - RAM_START - HEADER_SIZE }]
    );
}

#[test]
fn scenario_600_bytes_in_1024() {
    let mut h = arena_1024();
    let first = h.alloc_bytes(600);
    assert_eq!(first, START + HEADER_SIZE);
    assert_eq!(h.used_chunks(), vec![Chunk { addr: START, len: 640 }]);
    assert_eq!(h.free_chunks(), vec![Chunk { addr: START + HEADER_SIZE + 640, len: 1024 - HEADER_SIZE - 640 - HEADER_SIZE }]);
    assert_eq!(h.alloc_bytes(600), 0);
    h.free_bytes(first);
    assert_eq!(h.free_chunks(), vec![Chunk { addr: START, len: 1008 }]);
    let again = h.alloc_bytes(600);
    assert_eq!(again, first);
}

#[test]
fn whole_arena_request_succeeds_once() {
    let mut h = arena_1024();
    // 896 is a block multiple; 1008 - 16 - 896 < 128, so the chunk is not split.
    let p = h.alloc_bytes(896);
    assert_eq!(p, START + HEADER_SIZE);
    assert_eq!(h.used_chunks(), vec![Chunk { addr: START, len: 1008 }]);
    assert!(h.free_chunks().is_empty());
    assert_eq!(h.alloc_bytes(896), 0);
}

#[test]
fn request_of_whole_payload_is_rejected() {
    let mut h = arena_1024();
    assert_eq!(h.alloc_bytes(1024 - HEADER_SIZE), 0);
    assert_eq!(h.free_chunks(), vec![Chunk { addr: START, len: 1008 }]);
    // A request whose rounded length reaches the payload length fails too.
    assert_eq!(h.alloc_bytes(1000), 0);
}

#[test]
fn no_compaction_across_separated_chunks() {
    let mut h = arena_1024();
    let a = h.alloc_bytes(100);
    let _b = h.alloc_bytes(100);
    let c = h.alloc_bytes(100);
    let d = h.alloc_bytes(600);
    assert!(a != 0 && c != 0 && d != 0);
    assert!(h.free_chunks().is_empty());
    h.free_bytes(a);
    h.free_bytes(c);
    assert_eq!(
        h.free_chunks(),
        vec![Chunk { addr: START, len: 100 }, Chunk { addr: START + 232, len: 100 }]
    );
    let before = h.free_chunks();
    assert_eq!(h.alloc_bytes(150), 0);
    assert_eq!(h.free_chunks(), before);
}

#[test]
fn adjacent_chunks_merge_a_then_b() {
    let mut h = arena_1024();
    let a = h.alloc_bytes(100);
    let b = h.alloc_bytes(768);
    assert_eq!(h.used_chunks(), vec![Chunk { addr: START, len: 100 }, Chunk { addr: START + 116, len: 892 }]);
    assert!(h.free_chunks().is_empty());
    h.free_bytes(a);
    h.free_bytes(b);
    assert_eq!(h.free_chunks(), vec![Chunk { addr: START, len: 100 + 892 + HEADER_SIZE }]);
    assert!(h.used_chunks().is_empty());
}

#[test]
fn adjacent_chunks_merge_b_then_a() {
    let mut h = arena_1024();
    let a = h.alloc_bytes(100);
    let b = h.alloc_bytes(768);
    h.free_bytes(b);
    h.free_bytes(a);
    assert_eq!(h.free_chunks(), vec![Chunk { addr: START, len: 100 + 892 + HEADER_SIZE }]);
}

#[test]
fn free_merges_predecessor_and_successor() {
    let mut h = arena_1024();
    let a = h.alloc_bytes(100);
    let b = h.alloc_bytes(100);
    let c = h.alloc_bytes(100);
    h.free_bytes(a);
    h.free_bytes(c);
    // c has a free predecessor (a) that is not adjacent, so it is not merged
    // forward into the remainder that follows it.
    assert_eq!(h.free_chunks().len(), 3);
    h.free_bytes(b);
    // b merges with a, then with c; two merges at most, so the remainder
    // after c stays a chunk of its own.
    assert_eq!(
        h.free_chunks(),
        vec![Chunk { addr: START, len: 332 }, Chunk { addr: START + 348, len: 660 }]
    );
}

#[test]
fn round_trip_restores_free_list() {
    let mut h = arena_1024();
    let p = h.alloc_bytes(200);
    assert_ne!(p, 0);
    h.free_bytes(p);
    assert_eq!(h.free_chunks(), vec![Chunk { addr: START, len: 1008 }]);
    assert!(h.used_chunks().is_empty());
}

#[test]
fn conservation_over_a_sequence() {
    let mut h = arena_1024();
    assert_eq!(footprint(&h), 1024);
    let a = h.alloc_bytes(10);
    let b = h.alloc_bytes(300);
    let c = h.alloc_bytes(129);
    assert_eq!(footprint(&h), 1024);
    h.free_bytes(b);
    assert_eq!(footprint(&h), 1024);
    let d = h.alloc_bytes(64);
    h.free_bytes(a);
    h.free_bytes(c);
    assert_eq!(footprint(&h), 1024);
    h.free_bytes(d);
    assert_eq!(footprint(&h), 1024);
}

#[test]
fn small_requests_round_to_words() {
    let mut h = arena_1024();
    h.alloc_bytes(1);
    h.alloc_bytes(5);
    h.alloc_bytes(128);
    h.alloc_bytes(129);
    let lens: Vec<u32> = h.used_chunks().iter().map(|c| c.len).collect();
    assert_eq!(lens, vec![4, 8, 128, 256]);
}

#[test]
fn zero_request_gets_an_empty_chunk() {
    let mut h = arena_1024();
    let p = h.alloc_bytes(0);
    assert_eq!(p, START + HEADER_SIZE);
    assert_eq!(h.used_chunks(), vec![Chunk { addr: START, len: 0 }]);
}

#[test]
fn free_of_zero_is_a_no_op() {
    let mut h = arena_1024();
    h.free_bytes(0);
    assert_eq!(h.free_chunks(), vec![Chunk { addr: START, len: 1008 }]);
}

#[test]
fn try_alloc_on_chunk_that_does_not_fit() {
    let mut h = arena_1024();
    assert_eq!(h.try_alloc(0, 2000), None);
    assert_eq!(h.try_alloc(0, 40), Some(START + HEADER_SIZE));
}

#[test]
fn alloc_items_scales_by_element_size() {
    let mut h = arena_1024();
    let p: Ptr<u32> = alloc_items(&mut h, 10);
    assert_eq!(p.num, START + HEADER_SIZE);
    assert_eq!(h.used_chunks(), vec![Chunk { addr: START, len: 40 }]);
    let mut q = p;
    free(&mut h, &mut q);
    assert!(q.is_null());
    assert_eq!(h.free_chunks(), vec![Chunk { addr: START, len: 1008 }]);
}

#[test]
fn alloc_items_too_large_is_null() {
    let mut h = arena_1024();
    let p: Ptr<u64> = alloc_items(&mut h, u32::MAX);
    assert!(p.is_null());
    assert_eq!(h.free_chunks(), vec![Chunk { addr: START, len: 1008 }]);
}

#[test]
fn allocate_reports_exhaustion() {
    let mut h = arena_1024();
    let r: Result<Ptr<u8>, AllocError> = allocate(&mut h, 2000);
    assert!(matches!(r, Err(AllocError::Exhausted)));
    let ok: Result<Ptr<u8>, AllocError> = allocate(&mut h, 20);
    assert_eq!(ok.map(|p| p.num), Ok(START + HEADER_SIZE));
}

#[test]
fn chunk_of_size_is_unplaced() {
    assert_eq!(Chunk::of_size(12), Chunk { addr: 0, len: 12 });
}
