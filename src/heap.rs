//! A chunk allocator over a fixed arena.
//!
//! Every block handed out is preceded by a header of `HEADER_SIZE` bytes. The
//! allocator keeps two lists of chunks, each ordered by strictly ascending
//! address: the free list and the used list. Allocation takes the first free
//! chunk that fits, splitting off the remainder when it is at least one block;
//! freeing moves the chunk back to the free list and merges it with address
//! neighbours.
//!
//! Freeing merges at most twice: with the free predecessor and then with the
//! successor, or, when the chunk has no free predecessor at all, with the
//! successor only. A run of three or more adjacent free chunks can therefore
//! remain after one call; later frees of its neighbours continue merging. This
//! conservative behaviour is kept on purpose: every call does a bounded amount
//! of list work. Nothing checks that a freed address was handed out and not
//! freed since; `free` states that as its precondition.
use vstd::prelude::*;
use crate::ptr::Ptr;

verus! {

/// Bytes reserved in front of each payload for the chunk's header.
pub const HEADER_SIZE: u32 = 16;

/// Quantization unit: a split remainder smaller than this stays with the chunk.
pub const BLOCK_SIZE: u32 = 128;

/// First byte of the arena in work RAM (the bytes below it are reserved).
pub const RAM_START: u32 = 0x0200_0010;

/// End of the arena in work RAM.
pub const RAM_END: u32 = 0x0203_FFFF;

/// A chunk: the address of its header and the length of the payload that
/// follows the header.
#[derive(Clone, Copy, Debug, PartialEq, Eq, Structural)]
pub struct Chunk {
    pub addr: u32,
    pub len: u32,
}

impl Chunk {
    /// First byte after the payload.
    pub open spec fn end(self) -> int {
        self.addr + HEADER_SIZE + self.len
    }

    /// First byte of the payload: the address handed to the caller.
    pub open spec fn data(self) -> int {
        self.addr + HEADER_SIZE
    }

    /// A chunk of `size` payload bytes that is not placed in the arena yet.
    pub fn of_size(size: u32) -> (r: Chunk)
        ensures
            r.addr == 0,
            r.len == size,
    {
        Chunk { addr: 0, len: size }
    }
}

/// Two chunks do not overlap.
pub open spec fn disjoint(a: Chunk, b: Chunk) -> bool {
    a.end() <= b.addr || b.end() <= a.addr
}

/// Each chunk ends at or before the start of every later chunk: strictly
/// ascending addresses, no overlap.
pub open spec fn ordered(s: Seq<Chunk>) -> bool {
    forall|i: int, j: int| 0 <= i < j < s.len() ==> #[trigger] s[i].end() <= #[trigger] s[j].addr
}

/// Sum of the payload lengths of a list.
pub open spec fn payload_sum(s: Seq<Chunk>) -> int
    decreases s.len(),
{
    if s.len() == 0 {
        0
    } else {
        payload_sum(s.drop_last()) + s.last().len
    }
}

/// Number of leading chunks whose address is below `a`: the position at which
/// a chunk at `a` belongs in an ordered list.
pub open spec fn insert_pos(s: Seq<Chunk>, a: int) -> int
    decreases s.len(),
{
    if s.len() == 0 {
        0
    } else if s[0].addr < a {
        1 + insert_pos(s.drop_first(), a)
    } else {
        0
    }
}

/// `s` with `c` inserted at its address-ordered position.
pub open spec fn insert_sorted(s: Seq<Chunk>, c: Chunk) -> Seq<Chunk> {
    s.insert(insert_pos(s, c.addr as int), c)
}

/// The usable length a request of `n` bytes is rounded up to: block multiples
/// stay, requests up to one block round up to a multiple of four, larger ones
/// to the next multiple of the block size.
pub open spec fn round_request(n: int) -> int {
    if n % (BLOCK_SIZE as int) == 0 {
        n
    } else if n <= BLOCK_SIZE {
        if n % 4 == 0 {
            n
        } else {
            n - n % 4 + 4
        }
    } else {
        (n / (BLOCK_SIZE as int) + 1) * BLOCK_SIZE
    }
}

/// A request of `n` bytes can be served from chunk `c`.
pub open spec fn fits(c: Chunk, n: int) -> bool {
    n < c.len && round_request(n) < c.len
}

/// Serving `n` bytes from `c` leaves at least a block after a new header, so
/// the chunk is split.
pub open spec fn splits(c: Chunk, n: int) -> bool {
    c.len - HEADER_SIZE - round_request(n) >= BLOCK_SIZE
}

/// Index of the first chunk of `s` that fits `n` bytes, `s.len()` if none.
pub open spec fn first_fit(s: Seq<Chunk>, n: int) -> int
    decreases s.len(),
{
    if s.len() == 0 {
        0
    } else if fits(s[0], n) {
        0
    } else {
        1 + first_fit(s.drop_first(), n)
    }
}

/// Two address-adjacent chunks as one: the first absorbs the second's header
/// and payload.
pub open spec fn merged(a: Chunk, b: Chunk) -> Chunk {
    Chunk { addr: a.addr, len: (a.len + HEADER_SIZE + b.len) as u32 }
}

/// Merge the chunks at `j` and `j + 1` when the first ends where the second
/// starts; otherwise `s` unchanged.
pub open spec fn concat_at(s: Seq<Chunk>, j: int) -> Seq<Chunk> {
    if 0 <= j && j + 1 < s.len() && s[j].end() == s[j + 1].addr {
        s.update(j, merged(s[j], s[j + 1])).remove(j + 1)
    } else {
        s
    }
}

/// The free list after `c` is returned to it: `c` goes to its ordered place;
/// if it has a free predecessor that ends where `c` starts, the two merge and
/// the result is merged once more with its successor when adjacent; if it has
/// no predecessor, it is merged with its successor when adjacent.
pub open spec fn merge_into(free: Seq<Chunk>, c: Chunk) -> Seq<Chunk> {
    let pos = insert_pos(free, c.addr as int);
    let s = free.insert(pos, c);
    if pos > 0 {
        if s[pos - 1].end() == c.addr {
            concat_at(concat_at(s, pos - 1), pos - 1)
        } else {
            s
        }
    } else {
        concat_at(s, 0)
    }
}

/// The allocator's state: the arena bounds and the two lists.
pub struct HeapView {
    pub free: Seq<Chunk>,
    pub used: Seq<Chunk>,
    pub start: u32,
    pub end: u32,
}

impl HeapView {
    /// The chunk lies inside the arena.
    pub open spec fn within(self, c: Chunk) -> bool {
        self.start <= c.addr && c.end() <= self.end
    }

    /// Bytes of payload over both lists.
    pub open spec fn payload_total(self) -> int {
        payload_sum(self.free) + payload_sum(self.used)
    }

    /// Number of live chunks over both lists.
    pub open spec fn chunk_count(self) -> int {
        self.free.len() + self.used.len() as int
    }

    pub open spec fn wf(self) -> bool {
        &&& self.start + HEADER_SIZE <= self.end
        &&& ordered(self.free)
        &&& ordered(self.used)
        &&& forall|i: int| 0 <= i < self.free.len() ==> self.within(#[trigger] self.free[i])
        &&& forall|i: int| 0 <= i < self.used.len() ==> self.within(#[trigger] self.used[i])
        &&& forall|i: int, j: int|
            0 <= i < self.free.len() && 0 <= j < self.used.len() ==> disjoint(
                #[trigger] self.free[i],
                #[trigger] self.used[j],
            )
        &&& self.payload_total() + HEADER_SIZE * self.chunk_count() == self.end - self.start
    }

    /// `p` is the payload address of a chunk on the used list.
    pub open spec fn allocated(self, p: int) -> bool {
        exists|k: int| 0 <= k < self.used.len() && #[trigger] self.used[k].data() == p
    }

    pub open spec fn with_lists(self, free: Seq<Chunk>, used: Seq<Chunk>) -> HeapView {
        HeapView { free, used, start: self.start, end: self.end }
    }
}

/// The state right after initialization: one free chunk spanning the arena.
pub open spec fn init_spec(start: u32, end: u32) -> HeapView {
    HeapView {
        free: seq![Chunk { addr: start, len: (end - start - HEADER_SIZE) as u32 }],
        used: Seq::empty(),
        start,
        end,
    }
}

/// Serve `n` bytes from free chunk `i` (which fits): split off the remainder
/// when it is at least a block, else hand out the whole chunk.
pub open spec fn take_spec(h: HeapView, i: int, n: int) -> HeapView {
    let c = h.free[i];
    let r = round_request(n);
    if splits(c, n) {
        let rest = Chunk { addr: (c.addr + HEADER_SIZE + r) as u32, len: (c.len - HEADER_SIZE - r) as u32 };
        h.with_lists(h.free.update(i, rest), insert_sorted(h.used, Chunk { addr: c.addr, len: r as u32 }))
    } else {
        h.with_lists(h.free.remove(i), insert_sorted(h.used, c))
    }
}

/// The state after a request for `n` bytes, and the payload address handed
/// out (zero when no single free chunk fits).
pub open spec fn alloc_spec(h: HeapView, n: int) -> (HeapView, u32) {
    let i = first_fit(h.free, n);
    if i < h.free.len() {
        (take_spec(h, i, n), (h.free[i].addr + HEADER_SIZE) as u32)
    } else {
        (h, 0u32)
    }
}

/// The state after payload address `p` is freed; freeing zero does nothing.
pub open spec fn free_spec(h: HeapView, p: int) -> HeapView {
    if p == 0 {
        h
    } else {
        let k = insert_pos(h.used, p - HEADER_SIZE);
        h.with_lists(merge_into(h.free, h.used[k]), h.used.remove(k))
    }
}

// ---------------------------------------------------------------------------
// Lemmas on sums and positions

proof fn lemma_sum_concat(a: Seq<Chunk>, b: Seq<Chunk>)
    ensures
        payload_sum(a + b) == payload_sum(a) + payload_sum(b),
    decreases b.len(),
{
    if b.len() == 0 {
        assert(a + b =~= a);
    } else {
        lemma_sum_concat(a, b.drop_last());
        assert((a + b).drop_last() =~= a + b.drop_last());
    }
}

proof fn lemma_sum_single(c: Chunk)
    ensures
        payload_sum(seq![c]) == c.len,
{
    assert(seq![c].drop_last() =~= Seq::<Chunk>::empty());
    assert(payload_sum(Seq::<Chunk>::empty()) == 0);
    assert(seq![c].last() == c);
}

proof fn lemma_sum_insert(s: Seq<Chunk>, k: int, c: Chunk)
    requires
        0 <= k <= s.len(),
    ensures
        payload_sum(s.insert(k, c)) == payload_sum(s) + c.len,
{
    let a = s.subrange(0, k);
    let b = s.subrange(k, s.len() as int);
    assert(s =~= a + b);
    assert(s.insert(k, c) =~= a + seq![c] + b);
    lemma_sum_concat(a, b);
    lemma_sum_concat(a, seq![c]);
    lemma_sum_concat(a + seq![c], b);
    lemma_sum_single(c);
}

proof fn lemma_sum_remove(s: Seq<Chunk>, k: int)
    requires
        0 <= k < s.len(),
    ensures
        payload_sum(s.remove(k)) == payload_sum(s) - s[k].len,
{
    assert(s =~= s.remove(k).insert(k, s[k]));
    lemma_sum_insert(s.remove(k), k, s[k]);
}

proof fn lemma_sum_update(s: Seq<Chunk>, k: int, c: Chunk)
    requires
        0 <= k < s.len(),
    ensures
        payload_sum(s.update(k, c)) == payload_sum(s) - s[k].len + c.len,
{
    assert(s.update(k, c) =~= s.remove(k).insert(k, c));
    lemma_sum_remove(s, k);
    lemma_sum_insert(s.remove(k), k, c);
}

/// What `insert_pos` is on an ordered list: every chunk before it lies below
/// `a`, every chunk from it on does not.
pub proof fn lemma_insert_pos(s: Seq<Chunk>, a: int)
    requires
        ordered(s),
    ensures
        0 <= insert_pos(s, a) <= s.len(),
        forall|j: int| 0 <= j < insert_pos(s, a) ==> #[trigger] s[j].addr < a,
        forall|j: int| insert_pos(s, a) <= j < s.len() ==> #[trigger] s[j].addr >= a,
    decreases s.len(),
{
    if s.len() > 0 {
        let t = s.drop_first();
        assert(ordered(t)) by {
            assert forall|i: int, j: int| 0 <= i < j < t.len() implies #[trigger] t[i].end()
                <= #[trigger] t[j].addr by {
                assert(t[i] == s[i + 1] && t[j] == s[j + 1]);
            }
        }
        lemma_insert_pos(t, a);
        if s[0].addr < a {
            assert forall|j: int| 0 <= j < insert_pos(s, a) implies #[trigger] s[j].addr < a by {
                if j > 0 {
                    assert(s[j] == t[j - 1]);
                }
            }
            assert forall|j: int| insert_pos(s, a) <= j < s.len() implies #[trigger] s[j].addr
                >= a by {
                assert(s[j] == t[j - 1]);
            }
        } else {
            assert forall|j: int| 0 <= j < s.len() implies #[trigger] s[j].addr >= a by {
                if j > 0 {
                    assert(s[0].end() <= s[j].addr);
                }
            }
        }
    }
}

/// `insert_pos` is the position that the loop conditions single out.
pub proof fn lemma_insert_pos_at(s: Seq<Chunk>, a: int, i: int)
    requires
        0 <= i <= s.len(),
        forall|j: int| 0 <= j < i ==> #[trigger] s[j].addr < a,
        i == s.len() || s[i].addr >= a,
    ensures
        insert_pos(s, a) == i,
    decreases s.len(),
{
    if s.len() > 0 && i > 0 {
        let t = s.drop_first();
        assert forall|j: int| 0 <= j < i - 1 implies #[trigger] t[j].addr < a by {
            assert(t[j] == s[j + 1]);
        }
        lemma_insert_pos_at(t, a, i - 1);
    }
}

/// `first_fit` is the index that the search loop stops at.
pub proof fn lemma_first_fit_at(s: Seq<Chunk>, n: int, i: int)
    requires
        0 <= i <= s.len(),
        forall|j: int| 0 <= j < i ==> !fits(#[trigger] s[j], n),
        i == s.len() || fits(s[i], n),
    ensures
        first_fit(s, n) == i,
    decreases s.len(),
{
    if s.len() > 0 && i > 0 {
        let t = s.drop_first();
        assert(!fits(s[0], n));
        assert forall|j: int| 0 <= j < i - 1 implies !fits(#[trigger] t[j], n) by {
            assert(t[j] == s[j + 1]);
        }
        lemma_first_fit_at(t, n, i - 1);
    }
}

/// Where some chunk fits, `first_fit` names the first one.
pub proof fn lemma_first_fit(s: Seq<Chunk>, n: int)
    ensures
        0 <= first_fit(s, n) <= s.len(),
        forall|j: int| 0 <= j < first_fit(s, n) ==> !fits(#[trigger] s[j], n),
        first_fit(s, n) < s.len() ==> fits(s[first_fit(s, n)], n),
    decreases s.len(),
{
    if s.len() > 0 && !fits(s[0], n) {
        let t = s.drop_first();
        lemma_first_fit(t, n);
        assert forall|j: int| 0 <= j < first_fit(s, n) implies !fits(#[trigger] s[j], n) by {
            if j > 0 {
                assert(s[j] == t[j - 1]);
            }
        }
    }
}

// ---------------------------------------------------------------------------
// Well-formedness is kept by every step

/// Inserting a chunk that overlaps nothing in an ordered list, at its ordered
/// place, keeps the list ordered.
pub proof fn lemma_insert_sorted(s: Seq<Chunk>, c: Chunk)
    requires
        ordered(s),
        forall|j: int| 0 <= j < s.len() ==> disjoint(#[trigger] s[j], c),
    ensures
        ordered(insert_sorted(s, c)),
        insert_sorted(s, c).len() == s.len() + 1,
        insert_sorted(s, c)[insert_pos(s, c.addr as int)] == c,
{
    lemma_insert_pos(s, c.addr as int);
    let pos = insert_pos(s, c.addr as int);
    let t = insert_sorted(s, c);
    assert forall|i: int, j: int| 0 <= i < j < t.len() implies #[trigger] t[i].end()
        <= #[trigger] t[j].addr by {
        if j < pos {
        } else if j == pos {
            assert(disjoint(s[i], c));
        } else if i < pos {
            assert(s[i].end() <= s[j - 1].addr);
        } else if i == pos {
            assert(disjoint(s[j - 1], c));
        } else {
            assert(s[i - 1].end() <= s[j - 1].addr);
        }
    }
}

/// Serving a request from a fitting free chunk keeps the state well formed.
pub proof fn lemma_take_wf(h: HeapView, i: int, n: int)
    requires
        h.wf(),
        0 <= i < h.free.len(),
        n >= 0,
        fits(h.free[i], n),
    ensures
        take_spec(h, i, n).wf(),
{
    let c = h.free[i];
    let r = round_request(n);
    assert(r >= n);
    let t = take_spec(h, i, n);
    assert(h.within(c));
    assert forall|j: int| 0 <= j < h.used.len() implies disjoint(#[trigger] h.used[j], c) by {
        assert(disjoint(h.free[i], h.used[j]));
    }
    if splits(c, n) {
        let rest = Chunk { addr: (c.addr + HEADER_SIZE + r) as u32, len: (c.len - HEADER_SIZE - r) as u32 };
        let taken = Chunk { addr: c.addr, len: r as u32 };
        let free2 = h.free.update(i, rest);
        assert forall|j: int| 0 <= j < h.used.len() implies disjoint(#[trigger] h.used[j], taken) by {
            assert(disjoint(h.free[i], h.used[j]));
        }
        lemma_insert_sorted(h.used, taken);
        lemma_insert_pos(h.used, taken.addr as int);
        let pos = insert_pos(h.used, taken.addr as int);
        let used2 = insert_sorted(h.used, taken);
        assert(ordered(free2)) by {
            assert forall|a: int, b: int| 0 <= a < b < free2.len() implies #[trigger] free2[a].end()
                <= #[trigger] free2[b].addr by {
                assert(h.free[a].end() <= h.free[b].addr);
            }
        }
        assert forall|a: int, b: int| 0 <= a < free2.len() && 0 <= b < used2.len() implies disjoint(
            #[trigger] free2[a],
            #[trigger] used2[b],
        ) by {
            if b < pos {
                assert(disjoint(h.free[a], h.used[b]));
            } else if b == pos {
                if a < i {
                    assert(h.free[a].end() <= h.free[i].addr);
                } else if a > i {
                    assert(h.free[i].end() <= h.free[a].addr);
                }
            } else {
                assert(disjoint(h.free[a], h.used[b - 1]));
            }
        }
        assert forall|b: int| 0 <= b < used2.len() implies t.within(#[trigger] used2[b]) by {
            if b < pos {
            } else if b > pos {
                assert(h.within(h.used[b - 1]));
            }
        }
        assert forall|a: int| 0 <= a < free2.len() implies t.within(#[trigger] free2[a]) by {
            assert(h.within(h.free[a]));
        }
        lemma_sum_update(h.free, i, rest);
        lemma_sum_insert(h.used, pos, taken);
    } else {
        let free2 = h.free.remove(i);
        lemma_insert_sorted(h.used, c);
        lemma_insert_pos(h.used, c.addr as int);
        let pos = insert_pos(h.used, c.addr as int);
        let used2 = insert_sorted(h.used, c);
        assert(ordered(free2)) by {
            assert forall|a: int, b: int| 0 <= a < b < free2.len() implies #[trigger] free2[a].end()
                <= #[trigger] free2[b].addr by {
                if a < i && b >= i {
                    assert(h.free[a].end() <= h.free[b + 1].addr);
                } else if a >= i {
                    assert(h.free[a + 1].end() <= h.free[b + 1].addr);
                }
            }
        }
        assert forall|a: int, b: int| 0 <= a < free2.len() && 0 <= b < used2.len() implies disjoint(
            #[trigger] free2[a],
            #[trigger] used2[b],
        ) by {
            let fa = if a < i { a } else { a + 1 };
            assert(free2[a] == h.free[fa]);
            if b < pos {
                assert(disjoint(h.free[fa], h.used[b]));
            } else if b == pos {
                if fa < i {
                    assert(h.free[fa].end() <= h.free[i].addr);
                } else {
                    assert(h.free[i].end() <= h.free[fa].addr);
                }
            } else {
                assert(disjoint(h.free[fa], h.used[b - 1]));
            }
        }
        assert forall|b: int| 0 <= b < used2.len() implies t.within(#[trigger] used2[b]) by {
            if b < pos {
            } else if b > pos {
                assert(h.within(h.used[b - 1]));
            }
        }
        assert forall|a: int| 0 <= a < free2.len() implies t.within(#[trigger] free2[a]) by {
            let fa = if a < i { a } else { a + 1 };
            assert(h.within(h.free[fa]));
        }
        lemma_sum_remove(h.free, i);
        lemma_sum_insert(h.used, pos, c);
    }
}

/// On an ordered used list, the chunk whose payload starts at `p` sits at the
/// ordered position of its header address.
pub proof fn lemma_find_used(h: HeapView, p: int)
    requires
        h.wf(),
        h.allocated(p),
    ensures
        0 <= insert_pos(h.used, p - HEADER_SIZE) < h.used.len(),
        h.used[insert_pos(h.used, p - HEADER_SIZE)].data() == p,
{
    let a = p - HEADER_SIZE;
    lemma_insert_pos(h.used, a);
    let k = insert_pos(h.used, a);
    let w = choose|w: int| 0 <= w < h.used.len() && #[trigger] h.used[w].data() == p;
    assert(h.used[w].addr == a);
    assert(k <= w);
    if k < w {
        assert(h.used[k].end() <= h.used[w].addr);
    }
}

/// Moving used chunk `k` to its ordered place on the free list keeps the state
/// well formed.
proof fn lemma_move_to_free(h: HeapView, k: int)
    requires
        h.wf(),
        0 <= k < h.used.len(),
    ensures
        h.with_lists(insert_sorted(h.free, h.used[k]), h.used.remove(k)).wf(),
{
    let c = h.used[k];
    assert forall|j: int| 0 <= j < h.free.len() implies disjoint(#[trigger] h.free[j], c) by {
        assert(disjoint(h.free[j], h.used[k]));
    }
    lemma_insert_sorted(h.free, c);
    lemma_insert_pos(h.free, c.addr as int);
    let pos = insert_pos(h.free, c.addr as int);
    let free2 = insert_sorted(h.free, c);
    let used2 = h.used.remove(k);
    let t = h.with_lists(free2, used2);
    assert(ordered(used2)) by {
        assert forall|a: int, b: int| 0 <= a < b < used2.len() implies #[trigger] used2[a].end()
            <= #[trigger] used2[b].addr by {
            if a < k && b >= k {
                assert(h.used[a].end() <= h.used[b + 1].addr);
            } else if a >= k {
                assert(h.used[a + 1].end() <= h.used[b + 1].addr);
            }
        }
    }
    assert forall|a: int, b: int| 0 <= a < free2.len() && 0 <= b < used2.len() implies disjoint(
        #[trigger] free2[a],
        #[trigger] used2[b],
    ) by {
        let ub = if b < k { b } else { b + 1 };
        assert(used2[b] == h.used[ub]);
        if a < pos {
            assert(disjoint(h.free[a], h.used[ub]));
        } else if a == pos {
            if ub < k {
                assert(h.used[ub].end() <= h.used[k].addr);
            } else {
                assert(h.used[k].end() <= h.used[ub].addr);
            }
        } else {
            assert(disjoint(h.free[a - 1], h.used[ub]));
        }
    }
    assert forall|a: int| 0 <= a < free2.len() implies t.within(#[trigger] free2[a]) by {
        if a < pos {
        } else if a > pos {
            assert(h.within(h.free[a - 1]));
        }
    }
    assert forall|b: int| 0 <= b < used2.len() implies t.within(#[trigger] used2[b]) by {
        let ub = if b < k { b } else { b + 1 };
        assert(h.within(h.used[ub]));
    }
    lemma_sum_remove(h.used, k);
    lemma_sum_insert(h.free, pos, c);
}

/// Merging two adjacent free chunks keeps the state well formed.
proof fn lemma_concat_wf(h: HeapView, j: int)
    requires
        h.wf(),
    ensures
        h.with_lists(concat_at(h.free, j), h.used).wf(),
{
    let s = h.free;
    if 0 <= j && j + 1 < s.len() && s[j].end() == s[j + 1].addr {
        let m = merged(s[j], s[j + 1]);
        assert(h.within(s[j]) && h.within(s[j + 1]));
        assert(m.end() == s[j + 1].end());
        let s1 = s.update(j, m);
        let s2 = s1.remove(j + 1);
        let t = h.with_lists(s2, h.used);
        assert(ordered(s2)) by {
            assert forall|a: int, b: int| 0 <= a < b < s2.len() implies #[trigger] s2[a].end()
                <= #[trigger] s2[b].addr by {
                let sa = if a <= j { a } else { a + 1 };
                let sb = if b <= j { b } else { b + 1 };
                if a == j {
                    assert(s[j + 1].end() <= s[sb].addr);
                } else if b == j {
                    assert(s[sa].end() <= s[j].addr);
                } else {
                    assert(s[sa].end() <= s[sb].addr);
                }
            }
        }
        assert forall|a: int, b: int| 0 <= a < s2.len() && 0 <= b < h.used.len() implies disjoint(
            #[trigger] s2[a],
            #[trigger] h.used[b],
        ) by {
            if a == j {
                assert(disjoint(s[j], h.used[b]));
                assert(disjoint(s[j + 1], h.used[b]));
            } else {
                let sa = if a < j { a } else { a + 1 };
                assert(disjoint(s[sa], h.used[b]));
            }
        }
        assert forall|a: int| 0 <= a < s2.len() implies t.within(#[trigger] s2[a]) by {
            if a != j {
                let sa = if a < j { a } else { a + 1 };
                assert(h.within(s[sa]));
            }
        }
        lemma_sum_update(s, j, m);
        lemma_sum_remove(s1, j + 1);
    }
}

/// Freeing an allocated payload address keeps the state well formed.
pub proof fn lemma_free_wf(h: HeapView, p: int)
    requires
        h.wf(),
        p == 0 || h.allocated(p),
    ensures
        free_spec(h, p).wf(),
{
    if p != 0 {
        lemma_find_used(h, p);
        let k = insert_pos(h.used, p - HEADER_SIZE);
        let c = h.used[k];
        lemma_move_to_free(h, k);
        let h1 = h.with_lists(insert_sorted(h.free, c), h.used.remove(k));
        let pos = insert_pos(h.free, c.addr as int);
        if pos > 0 {
            lemma_concat_wf(h1, pos - 1);
            let h2 = h1.with_lists(concat_at(h1.free, pos - 1), h1.used);
            lemma_concat_wf(h2, pos - 1);
        } else {
            lemma_concat_wf(h1, 0);
        }
    }
}

/// The initial state is well formed.
pub proof fn lemma_init_wf(start: u32, end: u32)
    requires
        start + HEADER_SIZE <= end,
    ensures
        init_spec(start, end).wf(),
{
    let h = init_spec(start, end);
    lemma_sum_single(h.free[0]);
    assert(payload_sum(h.used) == 0);
}

// ---------------------------------------------------------------------------
// The allocator

/// The allocator's state: arena bounds, the free list and the used list.
pub struct Heap {
    free: Vec<Chunk>,
    used: Vec<Chunk>,
    start: u32,
    end: u32,
}

impl View for Heap {
    type V = HeapView;

    closed spec fn view(&self) -> HeapView {
        HeapView { free: self.free@, used: self.used@, start: self.start, end: self.end }
    }
}

/// The usable length for a request of `n` bytes (see `round_request`).
fn rounded_len(n: u32) -> (r: u64)
    ensures
        r == round_request(n as int),
{
    let n = n as u64;
    if n % (BLOCK_SIZE as u64) == 0 {
        n
    } else if n <= BLOCK_SIZE as u64 {
        if n % 4 == 0 {
            n
        } else {
            n - n % 4 + 4
        }
    } else {
        (n / (BLOCK_SIZE as u64) + 1) * (BLOCK_SIZE as u64)
    }
}

impl Heap {
    /// An allocator over the arena `[start, end)`: one free chunk spanning all
    /// of it, and no used chunk.
    pub fn initialize(start: u32, end: u32) -> (r: Heap)
        requires
            start + HEADER_SIZE <= end,
        ensures
            r@ == init_spec(start, end),
            r@.wf(),
    {
        proof {
            lemma_init_wf(start, end);
        }
        let mut free: Vec<Chunk> = Vec::new();
        free.push(Chunk { addr: start, len: end - start - HEADER_SIZE });
        let r = Heap { free, used: Vec::new(), start, end };
        assert(r@.free =~= init_spec(start, end).free);
        assert(r@.used =~= init_spec(start, end).used);
        r
    }

    /// First byte of the arena.
    pub fn start(&self) -> (r: u32)
        ensures
            r == self@.start,
    {
        self.start
    }

    /// End of the arena.
    pub fn end(&self) -> (r: u32)
        ensures
            r == self@.end,
    {
        self.end
    }

    /// The free list, in address order.
    pub fn free_chunks(&self) -> (r: Vec<Chunk>)
        ensures
            r@ == self@.free,
    {
        self.free.clone()
    }

    /// The used list, in address order.
    pub fn used_chunks(&self) -> (r: Vec<Chunk>)
        ensures
            r@ == self@.used,
    {
        self.used.clone()
    }

    /// Position of the first chunk of `list` whose address is not below `a`.
    fn position(list: &Vec<Chunk>, a: u32) -> (r: usize)
        requires
            ordered(list@),
        ensures
            r == insert_pos(list@, a as int),
            r <= list.len(),
    {
        let mut i: usize = 0;
        while i < list.len() && list[i].addr < a
            invariant
                0 <= i <= list.len(),
                forall|j: int| 0 <= j < i ==> #[trigger] list@[j].addr < a,
            decreases list.len() - i,
        {
            i += 1;
        }
        proof {
            lemma_insert_pos_at(list@, a as int, i as int);
        }
        i
    }

    /// Insert `c` into the used list at its address-ordered place.
    fn append_to_used(&mut self, c: Chunk)
        requires
            ordered(old(self).used@),
        ensures
            final(self)@ == old(self)@.with_lists(old(self)@.free, insert_sorted(old(self)@.used, c)),
    {
        let pos = Heap::position(&self.used, c.addr);
        self.used.insert(pos, c);
    }

    /// Take free chunk `i` off the free list.
    fn remove_from_free_list(&mut self, i: usize) -> (c: Chunk)
        requires
            i < old(self).free.len(),
        ensures
            c == old(self)@.free[i as int],
            final(self)@ == old(self)@.with_lists(old(self)@.free.remove(i as int), old(self)@.used),
    {
        self.free.remove(i)
    }

    /// Take used chunk `k` off the used list.
    fn remove_from_used_list(&mut self, k: usize) -> (c: Chunk)
        requires
            k < old(self).used.len(),
        ensures
            c == old(self)@.used[k as int],
            final(self)@ == old(self)@.with_lists(old(self)@.free, old(self)@.used.remove(k as int)),
    {
        self.used.remove(k)
    }

    /// Merge free chunks `j` and `j + 1` when the first ends where the second
    /// starts. Reports whether they merged.
    fn try_concatenate(&mut self, j: usize) -> (merged: bool)
        requires
            old(self)@.wf(),
        ensures
            final(self)@ == old(self)@.with_lists(concat_at(old(self)@.free, j as int), old(self)@.used),
            final(self)@.wf(),
            merged == (j + 1 < old(self)@.free.len() && old(self)@.free[j as int].end()
                == old(self)@.free[j + 1].addr),
    {
        proof {
            lemma_concat_wf(self@, j as int);
        }
        if j < self.free.len() && j + 1 < self.free.len() {
            let a = self.free[j];
            let b = self.free[j + 1];
            proof {
                assert(self@.within(a) && self@.within(b));
            }
            if a.addr as u64 + HEADER_SIZE as u64 + a.len as u64 == b.addr as u64 {
                let m = Chunk { addr: a.addr, len: a.len + HEADER_SIZE + b.len };
                self.free.set(j, m);
                self.free.remove(j + 1);
                return true;
            }
        }
        false
    }

    /// Return `c` to the free list at its address-ordered place, merging it
    /// with its neighbours as `merge_into` describes.
    fn append_to_free(&mut self, c: Chunk)
        requires
            old(self)@.with_lists(insert_sorted(old(self)@.free, c), old(self)@.used).wf(),
            ordered(old(self)@.free),
        ensures
            final(self)@ == old(self)@.with_lists(merge_into(old(self)@.free, c), old(self)@.used),
            final(self)@.wf(),
    {
        let pos = Heap::position(&self.free, c.addr);
        self.free.insert(pos, c);
        if pos > 0 {
            let prev = self.free[pos - 1];
            if prev.addr as u64 + HEADER_SIZE as u64 + prev.len as u64 == c.addr as u64 {
                self.try_concatenate(pos - 1);
                self.try_concatenate(pos - 1);
            }
        } else {
            self.try_concatenate(0);
        }
    }

    /// Serve `n` bytes from free chunk `i` if it fits: the payload address,
    /// or `None` with nothing changed.
    pub fn try_alloc(&mut self, i: usize, n: u32) -> (r: Option<u32>)
        requires
            old(self)@.wf(),
            i < old(self)@.free.len(),
        ensures
            final(self)@.wf(),
            fits(old(self)@.free[i as int], n as int) ==> r == Some(old(self)@.free[i as int].data() as u32)
                && final(self)@ == take_spec(old(self)@, i as int, n as int),
            !fits(old(self)@.free[i as int], n as int) ==> r.is_none() && final(self)@ == old(self)@,
    {
        let c = self.free[i];
        if c.len <= n {
            return None;
        }
        let r = rounded_len(n);
        if r >= c.len as u64 {
            return None;
        }
        let r = r as u32;
        proof {
            lemma_take_wf(self@, i as int, n as int);
            assert(self@.within(c));
        }
        if c.len - r < HEADER_SIZE + BLOCK_SIZE {
            self.remove_from_free_list(i);
            self.append_to_used(c);
        } else {
            let rest = Chunk { addr: c.addr + HEADER_SIZE + r, len: c.len - HEADER_SIZE - r };
            self.free.set(i, rest);
            self.append_to_used(Chunk { addr: c.addr, len: r });
        }
        Some(c.addr + HEADER_SIZE)
    }

    /// Serve a request for `n` bytes from the first free chunk that fits: the
    /// payload address, or zero when no single free chunk fits.
    pub fn alloc_bytes(&mut self, n: u32) -> (r: u32)
        requires
            old(self)@.wf(),
        ensures
            final(self)@ == alloc_spec(old(self)@, n as int).0,
            r == alloc_spec(old(self)@, n as int).1,
            final(self)@.wf(),
    {
        let ghost h0 = self@;
        let mut i: usize = 0;
        while i < self.free.len()
            invariant
                self@ == h0,
                h0 == old(self)@,
                h0.wf(),
                0 <= i <= h0.free.len(),
                forall|j: int| 0 <= j < i ==> !fits(#[trigger] h0.free[j], n as int),
            decreases h0.free.len() - i,
        {
            match self.try_alloc(i, n) {
                Some(p) => {
                    proof {
                        lemma_first_fit_at(h0.free, n as int, i as int);
                        assert(alloc_spec(h0, n as int).0 == self@);
                        assert(alloc_spec(h0, n as int).1 == p);
                    }
                    return p;
                },
                None => {},
            }
            i += 1;
        }
        proof {
            lemma_first_fit_at(h0.free, n as int, i as int);
            assert(alloc_spec(h0, n as int).0 == self@);
        }
        0
    }

    /// Free payload address `p` (zero does nothing): its chunk leaves the used
    /// list and returns to the free list, merged with adjacent free chunks.
    pub fn free_bytes(&mut self, p: u32)
        requires
            old(self)@.wf(),
            p == 0 || old(self)@.allocated(p as int),
        ensures
            final(self)@ == free_spec(old(self)@, p as int),
            final(self)@.wf(),
    {
        if p == 0 {
            return;
        }
        proof {
            lemma_find_used(self@, p as int);
            lemma_free_wf(self@, p as int);
        }
        let k = Heap::position(&self.used, p - HEADER_SIZE);
        proof {
            lemma_move_to_free(self@, k as int);
        }
        let c = self.remove_from_used_list(k);
        self.append_to_free(c);
    }
}

/// A request larger than any `u32` length fits no chunk.
pub proof fn lemma_alloc_too_large(h: HeapView, n: int)
    requires
        n > u32::MAX,
    ensures
        alloc_spec(h, n) == (h, 0u32),
{
    lemma_first_fit_at(h.free, n, h.free.len() as int);
}

/// Why a request could not be served.
#[derive(Clone, Copy, Debug, PartialEq, Eq, Structural)]
pub enum AllocError {
    /// No single free chunk is large enough for the request.
    Exhausted,
}

/// The allocator over the console's work-RAM arena.
pub fn alloc_initialize() -> (r: Heap)
    ensures
        r@ == init_spec(RAM_START, RAM_END),
        r@.wf(),
{
    Heap::initialize(RAM_START, RAM_END)
}

/// Storage for `count` values of `T`: the payload address, null when no single
/// free chunk fits `count * size_of::<T>()` bytes.
pub fn alloc_items<T>(heap: &mut Heap, count: u32) -> (r: Ptr<T>)
    requires
        old(heap)@.wf(),
    ensures
        final(heap)@ == alloc_spec(old(heap)@, vstd::layout::size_of::<T>() * count).0,
        r.num == alloc_spec(old(heap)@, vstd::layout::size_of::<T>() * count).1,
        final(heap)@.wf(),
{
    let size = core::mem::size_of::<T>() as u128;
    assert(size * (count as u128) <= 0xffff_ffff_ffff_ffffu128 * 0xffff_ffffu128) by (nonlinear_arith)
        requires
            size <= 0xffff_ffff_ffff_ffffu128,
            count <= 0xffff_ffffu32,
    ;
    let bytes: u128 = size * (count as u128);
    if bytes > u32::MAX as u128 {
        proof {
            lemma_alloc_too_large(heap@, bytes as int);
        }
        return Ptr::null();
    }
    Ptr::from_u32(heap.alloc_bytes(bytes as u32))
}

/// As `alloc_items`, with exhaustion reported as an error rather than a null address.
pub fn allocate<T>(heap: &mut Heap, count: u32) -> (r: Result<Ptr<T>, AllocError>)
    requires
        old(heap)@.wf(),
    ensures
        final(heap)@ == alloc_spec(old(heap)@, vstd::layout::size_of::<T>() * count).0,
        final(heap)@.wf(),
        match r {
            Ok(p) => p.num == alloc_spec(old(heap)@, vstd::layout::size_of::<T>() * count).1 && p.num
                != 0,
            Err(e) => e == AllocError::Exhausted && alloc_spec(
                old(heap)@,
                vstd::layout::size_of::<T>() * count,
            ).1 == 0,
        },
{
    let p = alloc_items::<T>(heap, count);
    if p.is_null() {
        Err(AllocError::Exhausted)
    } else {
        Ok(p)
    }
}

/// Release the storage at `ptr` (null does nothing) and set `ptr` to null.
/// `ptr` must be null or an address handed out by this allocator and not freed
/// since.
pub fn free<T>(heap: &mut Heap, ptr: &mut Ptr<T>)
    requires
        old(heap)@.wf(),
        old(ptr).num == 0 || old(heap)@.allocated(old(ptr).num as int),
    ensures
        final(heap)@ == free_spec(old(heap)@, old(ptr).num as int),
        final(heap)@.wf(),
        final(ptr).num == 0,
{
    heap.free_bytes(ptr.num);
    *ptr = Ptr::null();
}

} // verus!
