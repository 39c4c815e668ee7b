//! Properties of the allocator that relate several operations, proved over the
//! spec functions that `Heap`'s operations are verified against.
use vstd::prelude::*;
use crate::heap::{
    Chunk, HeapView, HEADER_SIZE, alloc_spec, concat_at, disjoint, first_fit, fits, free_spec, init_spec,
    insert_pos, insert_sorted, lemma_find_used, lemma_first_fit, lemma_first_fit_at, lemma_free_wf,
    lemma_init_wf, lemma_insert_pos, lemma_insert_pos_at, lemma_insert_sorted, lemma_take_wf, merged,
    ordered, round_request, splits,
};

verus! {

/// In an ordered list, a chunk is the only one at its address.
proof fn lemma_unique_addr(s: Seq<Chunk>, i: int, k: int)
    requires
        ordered(s),
        0 <= i < s.len(),
        0 <= k < s.len(),
        s[i].addr == s[k].addr,
    ensures
        i == k,
{
    if i < k {
        assert(s[i].end() <= s[k].addr);
    } else if k < i {
        assert(s[k].end() <= s[i].addr);
    }
}

/// The used chunk at index `i` is the one that freeing its payload address
/// removes.
proof fn lemma_free_finds(h: HeapView, i: int)
    requires
        h.wf(),
        0 <= i < h.used.len(),
    ensures
        h.allocated(h.used[i].data()),
        insert_pos(h.used, h.used[i].addr as int) == i,
{
    let p = h.used[i].data();
    assert(h.used[i].data() == p);
    lemma_find_used(h, p);
    lemma_unique_addr(h.used, i, insert_pos(h.used, h.used[i].addr as int));
}

/// Byte conservation: in the initial state, and in every state that a request
/// of any size or the release of an allocated address leads to from a well
/// formed one, the payload bytes of the free and used chunks plus one header
/// per live chunk add up to the arena's size.
pub proof fn conservation(h: HeapView, n: int, p: int)
    requires
        h.wf(),
        n >= 0,
        p == 0 || h.allocated(p),
    ensures
        h.payload_total() + HEADER_SIZE * h.chunk_count() == h.end - h.start,
        alloc_spec(h, n).0.wf(),
        alloc_spec(h, n).0.payload_total() + HEADER_SIZE * alloc_spec(h, n).0.chunk_count() == h.end
            - h.start,
        free_spec(h, p).wf(),
        free_spec(h, p).payload_total() + HEADER_SIZE * free_spec(h, p).chunk_count() == h.end
            - h.start,
        init_spec(h.start, h.end).wf(),
        init_spec(h.start, h.end).payload_total() + HEADER_SIZE * init_spec(h.start, h.end).chunk_count()
            == h.end - h.start,
{
    lemma_first_fit(h.free, n);
    let i = first_fit(h.free, n);
    if i < h.free.len() {
        lemma_take_wf(h, i, n);
    }
    lemma_free_wf(h, p);
    lemma_init_wf(h.start, h.end);
}

/// A request that takes the whole arena (it fits the initial chunk and leaves
/// less than a block after a header) succeeds once, at the first payload
/// address of the arena; the same request right after fails and changes
/// nothing.
pub proof fn whole_arena_once(start: u32, end: u32, n: int)
    requires
        start + HEADER_SIZE <= end,
        n >= 0,
        fits(init_spec(start, end).free[0], n),
        !splits(init_spec(start, end).free[0], n),
    ensures
        alloc_spec(init_spec(start, end), n).1 == start + HEADER_SIZE,
        alloc_spec(alloc_spec(init_spec(start, end), n).0, n).1 == 0,
        alloc_spec(alloc_spec(init_spec(start, end), n).0, n).0 == alloc_spec(init_spec(start, end), n).0,
{
    let h = init_spec(start, end);
    lemma_first_fit_at(h.free, n, 0);
    let h1 = alloc_spec(h, n).0;
    assert(h1.free.len() == 0);
    lemma_first_fit_at(h1.free, n, 0);
}

/// No compaction: when no single free chunk fits a request, it fails and
/// changes nothing, however many free bytes there are in all.
pub proof fn no_compaction(h: HeapView, n: int)
    requires
        forall|i: int| 0 <= i < h.free.len() ==> !fits(#[trigger] h.free[i], n),
    ensures
        alloc_spec(h, n) == (h, 0u32),
{
    lemma_first_fit_at(h.free, n, h.free.len() as int);
}

/// Round trip: with a single free chunk, a request that succeeds followed by
/// the release of the address it returned restores the state exactly, the free
/// list included (the same single chunk with the same length).
pub proof fn alloc_free_round_trip(h: HeapView, n: int)
    requires
        h.wf(),
        n >= 0,
        h.free.len() == 1,
        alloc_spec(h, n).1 != 0,
    ensures
        free_spec(alloc_spec(h, n).0, alloc_spec(h, n).1 as int) == h,
{
    lemma_first_fit(h.free, n);
    let i = first_fit(h.free, n);
    assert(i == 0);
    let f = h.free[0];
    lemma_take_wf(h, 0, n);
    assert(h.within(f));
    let h1 = alloc_spec(h, n).0;
    let p = alloc_spec(h, n).1;
    assert(p == f.data());
    let r = round_request(n);
    let pos = insert_pos(h.used, f.addr as int);
    lemma_insert_pos(h.used, f.addr as int);
    assert forall|j: int| 0 <= j < h.used.len() implies disjoint(#[trigger] h.used[j], f) by {
        assert(disjoint(h.free[0], h.used[j]));
    }
    let taken = if splits(f, n) {
        Chunk { addr: f.addr, len: r as u32 }
    } else {
        f
    };
    assert forall|j: int| 0 <= j < h.used.len() implies disjoint(#[trigger] h.used[j], taken) by {
        assert(disjoint(h.free[0], h.used[j]));
    }
    lemma_insert_sorted(h.used, taken);
    assert(h1.used == insert_sorted(h.used, taken));
    assert(h1.used[pos] == taken);
    lemma_free_finds(h1, pos);
    assert(h1.used.remove(pos) =~= h.used);
    let h2 = free_spec(h1, p as int);
    assert(h2.used =~= h.used);
    if splits(f, n) {
        let rest = h1.free[0];
        assert(insert_pos(h1.free, f.addr as int) == 0);
        let s = h1.free.insert(0, taken);
        assert(s[0].end() == s[1].addr);
        assert(merged(s[0], s[1]) == f);
        assert(h2.free =~= h.free);
    } else {
        assert(h1.free.len() == 0);
        assert(insert_pos(h1.free, f.addr as int) == 0);
        assert(h2.free =~= h.free);
    }
}

/// Adjacent merge: with no free chunk, freeing two address-adjacent used
/// chunks `a` then `b`, or `b` then `a`, leaves one free chunk at `a`'s address
/// whose payload is both payloads plus the header between them.
pub proof fn adjacent_merge(h: HeapView, a: Chunk, b: Chunk)
    requires
        h.wf(),
        h.free.len() == 0,
        h.used.contains(a),
        h.used.contains(b),
        a.end() == b.addr,
    ensures
        h.allocated(a.data()),
        h.allocated(b.data()),
        free_spec(h, a.data()).allocated(b.data()),
        free_spec(h, b.data()).allocated(a.data()),
        free_spec(free_spec(h, a.data()), b.data()).free == seq![merged(a, b)],
        free_spec(free_spec(h, b.data()), a.data()).free == seq![merged(a, b)],
        merged(a, b).len == a.len + HEADER_SIZE + b.len,
{
    let ia = choose|i: int| 0 <= i < h.used.len() && h.used[i] == a;
    let ib = choose|i: int| 0 <= i < h.used.len() && h.used[i] == b;
    assert(h.within(a) && h.within(b));
    lemma_free_finds(h, ia);
    lemma_free_finds(h, ib);
    assert(ia < ib) by {
        if ib <= ia {
            lemma_unique_addr(h.used, ia, ib);
        }
    }
    let m = merged(a, b);
    // a first, then b
    let ha = free_spec(h, a.data());
    lemma_free_wf(h, a.data());
    assert(ha.free =~= seq![a]);
    assert(ha.used[ib - 1] == b);
    lemma_free_finds(ha, ib - 1);
    let hab = free_spec(ha, b.data());
    assert(insert_pos(ha.free, b.addr as int) == 1) by {
        lemma_insert_pos_at(ha.free, b.addr as int, 1);
    }
    let s = ha.free.insert(1, b);
    assert(concat_at(s, 0) =~= seq![m]);
    assert(hab.free =~= seq![m]);
    // b first, then a
    let hb = free_spec(h, b.data());
    lemma_free_wf(h, b.data());
    assert(hb.free =~= seq![b]);
    assert(hb.used[ia] == a);
    lemma_free_finds(hb, ia);
    let hba = free_spec(hb, a.data());
    assert(insert_pos(hb.free, a.addr as int) == 0);
    let t = hb.free.insert(0, a);
    assert(concat_at(t, 0) =~= seq![m]);
    assert(hba.free =~= seq![m]);
}

} // verus!
