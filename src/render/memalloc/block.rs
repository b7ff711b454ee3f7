use vstd::prelude::*;

use crate::render::memalloc::align::{align_up, aligned_up, lemma_aligned_up_bounds};

verus! {

/// A contiguous span `[start, end)` of a block, free or occupied.
#[derive(Clone, Copy, Debug, PartialEq, Eq)]
pub struct Chunk {
    pub start: u64,
    pub end: u64,
    pub occupied: bool,
}

/// The chunks partition `[0, size)` in order, none is empty, and no two
/// neighbours are both free.
pub open spec fn chunks_wf(cs: Seq<Chunk>, size: u64) -> bool {
    &&& cs.len() >= 1
    &&& cs[0].start == 0
    &&& cs.last().end == size
    &&& forall|i: int| 0 <= i < cs.len() ==> #[trigger] cs[i].start < cs[i].end
    &&& forall|i: int| 0 <= i < cs.len() - 1 ==> #[trigger] link(cs, i)
}

/// Chunk `i` ends where chunk `i + 1` starts, and they are not both free.
pub open spec fn link(cs: Seq<Chunk>, i: int) -> bool {
    &&& cs[i].end == cs[i + 1].start
    &&& cs[i].occupied || cs[i + 1].occupied
}

/// Where a request of `size` bytes aligned to `alignment` lands in chunk `c`:
/// the aligned start, and the end rounded up to the alignment as well.
pub open spec fn place_start(c: Chunk, alignment: u64) -> int {
    aligned_up(c.start as int, alignment as int)
}

pub open spec fn place_end(c: Chunk, size: u64, alignment: u64) -> int {
    aligned_up(place_start(c, alignment) + size, alignment as int)
}

/// The request fits in `c`: `c` is free and the aligned span ends inside it.
pub open spec fn fits(c: Chunk, size: u64, alignment: u64) -> bool {
    !c.occupied && place_end(c, size, alignment) <= c.end
}

/// `k` is the first chunk in which the request fits.
pub open spec fn is_first_fit(cs: Seq<Chunk>, size: u64, alignment: u64, k: int) -> bool {
    &&& 0 <= k < cs.len()
    &&& fits(cs[k], size, alignment)
    &&& forall|j: int| 0 <= j < k ==> !fits(#[trigger] cs[j], size, alignment)
}

pub open spec fn has_fit(cs: Seq<Chunk>, size: u64, alignment: u64) -> bool {
    exists|k: int| 0 <= k < cs.len() && fits(#[trigger] cs[k], size, alignment)
}

/// The chunks that replace `c` when `[s, e)` is taken out of it: a free
/// front pad if not empty, the occupied span, a free back pad if not empty.
pub open spec fn split(c: Chunk, s: u64, e: u64) -> Seq<Chunk> {
    let pre = if s > c.start {
        seq![Chunk { start: c.start, end: s, occupied: false }]
    } else {
        Seq::<Chunk>::empty()
    };
    let post = if e < c.end {
        seq![Chunk { start: e, end: c.end, occupied: false }]
    } else {
        Seq::<Chunk>::empty()
    };
    pre + seq![Chunk { start: s, end: e, occupied: true }] + post
}

/// The chunk list after placing the request in chunk `k`.
#[verifier::opaque]
pub open spec fn placed(cs: Seq<Chunk>, size: u64, alignment: u64, k: int) -> Seq<Chunk> {
    let c = cs[k];
    let s = place_start(c, alignment) as u64;
    let e = place_end(c, size, alignment) as u64;
    cs.take(k) + split(c, s, e) + cs.skip(k + 1)
}

/// The chunk list after freeing chunk `i`: it becomes free and absorbs its
/// free neighbours.
#[verifier::opaque]
pub open spec fn freed(cs: Seq<Chunk>, i: int) -> Seq<Chunk> {
    let lo = if i > 0 && !cs[i - 1].occupied { i - 1 } else { i };
    let hi = if i + 1 < cs.len() && !cs[i + 1].occupied { i + 1 } else { i };
    let merged = Chunk { start: cs[lo].start, end: cs[hi].end, occupied: false };
    cs.take(lo) + seq![merged] + cs.skip(hi + 1)
}

pub open spec fn all_free(cs: Seq<Chunk>) -> bool {
    forall|j: int| 0 <= j < cs.len() ==> !(#[trigger] cs[j]).occupied
}

/// Where the request lands in `c`, if it fits there.
pub fn fit(c: &Chunk, size: u64, alignment: u64) -> (r: Option<(u64, u64)>)
    requires
        alignment > 0,
    ensures
        r is Some <==> fits(*c, size, alignment),
        r matches Some((s, e)) ==> s == place_start(*c, alignment) && e == place_end(
            *c,
            size,
            alignment,
        ),
{
    if c.occupied {
        return None;
    }
    proof {
        lemma_aligned_up_bounds(c.start as int, alignment as int);
    }
    let rem = c.start % alignment;
    if rem != 0 && c.start - rem > u64::MAX - alignment {
        proof {
            lemma_aligned_up_bounds(place_start(*c, alignment) + size, alignment as int);
        }
        return None;
    }
    let s = align_up(c.start, alignment);
    if size > u64::MAX - s {
        proof {
            lemma_aligned_up_bounds(s + size, alignment as int);
        }
        return None;
    }
    let t = s + size;
    proof {
        lemma_aligned_up_bounds(t as int, alignment as int);
    }
    let rem2 = t % alignment;
    if rem2 != 0 && t - rem2 > u64::MAX - alignment {
        return None;
    }
    let e = align_up(t, alignment);
    if e <= c.end {
        Some((s, e))
    } else {
        None
    }
}

/// How the chunks after a placement in chunk `k` are indexed.
pub proof fn lemma_placed_index(cs: Seq<Chunk>, size: u64, alignment: u64, k: int)
    requires
        0 <= k < cs.len(),
        fits(cs[k], size, alignment),
        alignment > 0,
    ensures
        ({
            let c = cs[k];
            let s = place_start(c, alignment);
            let e = place_end(c, size, alignment);
            let n = placed(cs, size, alignment, k);
            let p: int = if s > c.start { 1 } else { 0 };
            let q: int = if e < c.end { 1 } else { 0 };
            &&& n.len() == cs.len() + p + q
            &&& forall|j: int| 0 <= j < k ==> n[j] == cs[j]
            &&& forall|j: int| k + p + q < j < n.len() ==> n[j] == cs[j - p - q]
            &&& n[k + p] == Chunk { start: s as u64, end: e as u64, occupied: true }
            &&& p == 1 ==> n[k] == Chunk { start: c.start, end: s as u64, occupied: false }
            &&& q == 1 ==> n[k + p + 1] == Chunk { start: e as u64, end: c.end, occupied: false }
        }),
{
    reveal(placed);
    let c = cs[k];
    let s = place_start(c, alignment);
    let e = place_end(c, size, alignment);
    let n = placed(cs, size, alignment, k);
    let p: int = if s > c.start { 1 } else { 0 };
    let q: int = if e < c.end { 1 } else { 0 };
    assert(n.len() == cs.len() + p + q);
    assert forall|j: int| 0 <= j < k implies n[j] == cs[j] by {}
    assert forall|j: int| k + p + q < j < n.len() implies n[j] == cs[j - p - q] by {}
}

/// Placing the request in its first fit keeps the chunk list well formed.
pub proof fn lemma_placed_wf(cs: Seq<Chunk>, block_size: u64, size: u64, alignment: u64, k: int)
    requires
        chunks_wf(cs, block_size),
        0 <= k < cs.len(),
        fits(cs[k], size, alignment),
        size > 0,
        alignment > 0,
    ensures
        chunks_wf(placed(cs, size, alignment, k), block_size),
{
    let c = cs[k];
    let s = place_start(c, alignment);
    let e = place_end(c, size, alignment);
    lemma_aligned_up_bounds(c.start as int, alignment as int);
    lemma_aligned_up_bounds(s + size, alignment as int);
    let n = placed(cs, size, alignment, k);
    let p: int = if s > c.start { 1 } else { 0 };
    let q: int = if e < c.end { 1 } else { 0 };
    lemma_placed_index(cs, size, alignment, k);
    if k > 0 {
        assert(link(cs, k - 1));
    }
    if k + 1 < cs.len() {
        assert(link(cs, k));
    }
    assert forall|i: int| 0 <= i < n.len() implies #[trigger] n[i].start < n[i].end by {
        if i < k {
        } else if i <= k + p + q {
        } else {
            assert(cs[i - p - q].start < cs[i - p - q].end);
        }
    }
    assert forall|i: int| 0 <= i < n.len() - 1 implies #[trigger] link(n, i) by {
        if i < k - 1 {
            assert(link(cs, i));
        } else if i == k - 1 {
        } else if i < k + p + q {
        } else if i == k + p + q {
        } else {
            assert(link(cs, i - p - q));
        }
    }
}

/// How the chunks after freeing chunk `i` are indexed: `lo..=hi` collapse
/// into one free chunk at `lo`.
pub proof fn lemma_freed_index(cs: Seq<Chunk>, i: int)
    requires
        0 <= i < cs.len(),
    ensures
        ({
            let lo = if i > 0 && !cs[i - 1].occupied { i - 1 } else { i };
            let hi = if i + 1 < cs.len() && !cs[i + 1].occupied { i + 1 } else { i };
            let n = freed(cs, i);
            &&& n.len() == cs.len() - (hi - lo)
            &&& forall|j: int| 0 <= j < lo ==> n[j] == cs[j]
            &&& forall|j: int| lo < j < n.len() ==> n[j] == cs[j + hi - lo]
            &&& n[lo] == Chunk { start: cs[lo].start, end: cs[hi].end, occupied: false }
        }),
{
    reveal(freed);
    let lo = if i > 0 && !cs[i - 1].occupied { i - 1 } else { i };
    let hi = if i + 1 < cs.len() && !cs[i + 1].occupied { i + 1 } else { i };
    let n = freed(cs, i);
    assert forall|j: int| 0 <= j < lo implies n[j] == cs[j] by {}
    assert forall|j: int| lo < j < n.len() implies n[j] == cs[j + hi - lo] by {}
}

/// Freeing an occupied chunk keeps the chunk list well formed.
pub proof fn lemma_freed_wf(cs: Seq<Chunk>, block_size: u64, i: int)
    requires
        chunks_wf(cs, block_size),
        0 <= i < cs.len(),
        cs[i].occupied,
    ensures
        chunks_wf(freed(cs, i), block_size),
{
    let lo = if i > 0 && !cs[i - 1].occupied { i - 1 } else { i };
    let hi = if i + 1 < cs.len() && !cs[i + 1].occupied { i + 1 } else { i };
    let n = freed(cs, i);
    lemma_freed_index(cs, i);
    assert(lo > 0 ==> cs[lo - 1].occupied) by {
        if lo > 0 {
            assert(link(cs, lo - 1));
        }
    }
    assert(hi + 1 < cs.len() ==> cs[hi + 1].occupied) by {
        if hi + 1 < cs.len() {
            assert(link(cs, hi));
        }
    }
    assert(cs[lo].start < cs[hi].end) by {
        assert(cs[lo].start < cs[lo].end);
        assert(cs[hi].start < cs[hi].end);
        if lo < i {
            assert(link(cs, lo));
        }
        if i < hi {
            assert(link(cs, i));
        }
        assert(cs[i].start < cs[i].end);
    }
    assert forall|j: int| 0 <= j < n.len() implies #[trigger] n[j].start < n[j].end by {
        if j < lo {
        } else if j == lo {
        } else {
            assert(cs[j + hi - lo].start < cs[j + hi - lo].end);
        }
    }
    assert forall|j: int| 0 <= j < n.len() - 1 implies #[trigger] link(n, j) by {
        if j < lo - 1 {
            assert(link(cs, j));
        } else if j == lo - 1 {
            assert(link(cs, j));
        } else if j == lo {
            assert(link(cs, hi));
        } else {
            assert(link(cs, j + hi - lo));
        }
    }
    if hi == cs.len() - 1 {
        assert(n.last() == n[lo]);
    } else {
        assert(n.last() == cs.last());
    }
}

/// Chunk starts strictly increase along the list.
pub proof fn lemma_starts_increase(cs: Seq<Chunk>, block_size: u64, j: int, k: int)
    requires
        chunks_wf(cs, block_size),
        0 <= j < k < cs.len(),
    ensures
        cs[j].start < cs[k].start,
    decreases k - j,
{
    assert(cs[j].start < cs[j].end);
    assert(link(cs, j));
    if j + 1 < k {
        lemma_starts_increase(cs, block_size, j + 1, k);
    }
}

/// No other chunk starts where chunk `i` starts.
pub proof fn lemma_start_unique(cs: Seq<Chunk>, block_size: u64, i: int)
    requires
        chunks_wf(cs, block_size),
        0 <= i < cs.len(),
    ensures
        forall|k: int| 0 <= k < cs.len() && (#[trigger] cs[k]).start == cs[i].start ==> k == i,
{
    assert forall|k: int| 0 <= k < cs.len() && (#[trigger] cs[k]).start == cs[i].start implies k == i by {
        if k < i {
            lemma_starts_increase(cs, block_size, k, i);
        } else if k > i {
            lemma_starts_increase(cs, block_size, i, k);
        }
    }
}

/// A well-formed chunk list in which nothing is occupied is one free chunk
/// over the whole block.
pub proof fn lemma_all_free_is_whole(cs: Seq<Chunk>, block_size: u64)
    requires
        chunks_wf(cs, block_size),
        all_free(cs),
    ensures
        cs == seq![Chunk { start: 0, end: block_size, occupied: false }],
{
    if cs.len() > 1 {
        assert(link(cs, 0));
    }
    assert(cs =~= seq![Chunk { start: 0, end: block_size, occupied: false }]);
}

/// Freeing the span that a placement took gives back the chunk list from
/// before the placement, so the same request then lands at the same offset.
pub proof fn lemma_reallocate_same_offset(
    cs: Seq<Chunk>,
    block_size: u64,
    size: u64,
    alignment: u64,
    k: int,
)
    requires
        chunks_wf(cs, block_size),
        is_first_fit(cs, size, alignment, k),
        size > 0,
        alignment > 0,
    ensures
        ({
            let n = placed(cs, size, alignment, k);
            forall|j: int|
                0 <= j < n.len() && (#[trigger] n[j]).start == place_start(cs[k], alignment) ==> {
                    &&& n[j].occupied
                    &&& freed(n, j) == cs
                    &&& is_first_fit(freed(n, j), size, alignment, k)
                }
        }),
{
    let c = cs[k];
    let s = place_start(c, alignment);
    let e = place_end(c, size, alignment);
    lemma_aligned_up_bounds(c.start as int, alignment as int);
    lemma_aligned_up_bounds(s + size, alignment as int);
    lemma_placed_index(cs, size, alignment, k);
    lemma_placed_wf(cs, block_size, size, alignment, k);
    let n = placed(cs, size, alignment, k);
    let p: int = if s > c.start { 1 } else { 0 };
    let q: int = if e < c.end { 1 } else { 0 };
    let j = k + p;
    lemma_start_unique(n, block_size, j);
    if k > 0 {
        assert(link(cs, k - 1));
    }
    if k + 1 < cs.len() {
        assert(link(cs, k));
    }
    lemma_freed_index(n, j);
    let f = freed(n, j);
    assert(f.len() == cs.len());
    assert forall|i: int| 0 <= i < f.len() implies f[i] == cs[i] by {
        if i < k {
        } else if i == k {
        } else {
            assert(f[i] == n[i + p + q]);
        }
    }
    assert(f =~= cs);
}

/// One raw memory object, of a given memory type and size, cut into chunks.
pub struct Block<M> {
    id: u64,
    mem: M,
    mem_type_index: usize,
    dedicated: bool,
    size: u64,
    chunks: Vec<Chunk>,
}

impl<M> Block<M> {
    pub closed spec fn spec_id(&self) -> u64 {
        self.id
    }

    pub closed spec fn spec_mem(&self) -> M {
        self.mem
    }

    pub closed spec fn spec_mem_type_index(&self) -> usize {
        self.mem_type_index
    }

    pub closed spec fn spec_dedicated(&self) -> bool {
        self.dedicated
    }

    pub closed spec fn spec_size(&self) -> u64 {
        self.size
    }

    pub closed spec fn spec_chunks(&self) -> Seq<Chunk> {
        self.chunks@
    }

    pub open spec fn wf(&self) -> bool {
        chunks_wf(self.spec_chunks(), self.spec_size())
    }

    /// `other` is this block with only its chunks changed.
    pub open spec fn same_memory(&self, other: &Self) -> bool {
        &&& other.spec_id() == self.spec_id()
        &&& other.spec_mem() == self.spec_mem()
        &&& other.spec_mem_type_index() == self.spec_mem_type_index()
        &&& other.spec_dedicated() == self.spec_dedicated()
        &&& other.spec_size() == self.spec_size()
    }

    /// A block whose whole span is one free chunk.
    pub fn new(id: u64, mem: M, mem_type_index: usize, size: u64, dedicated: bool) -> (r: Self)
        requires
            size > 0,
        ensures
            r.wf(),
            r.spec_id() == id,
            r.spec_mem() == mem,
            r.spec_mem_type_index() == mem_type_index,
            r.spec_size() == size,
            r.spec_dedicated() == dedicated,
            r.spec_chunks() == seq![Chunk { start: 0, end: size, occupied: false }],
    {
        let chunks = vec![Chunk { start: 0, end: size, occupied: false }];
        Block { id, mem, mem_type_index, dedicated, size, chunks }
    }

    /// First-fit placement of `size` bytes aligned to `alignment`: the span
    /// taken, or `None` when no free chunk can hold it.
    pub fn allocate(&mut self, size: u64, alignment: u64) -> (r: Option<(u64, u64)>)
        requires
            old(self).wf(),
            size > 0,
            alignment > 0,
        ensures
            final(self).wf(),
            old(self).same_memory(final(self)),
            r is None <==> !has_fit(old(self).spec_chunks(), size, alignment),
            r is None ==> *final(self) == *old(self),
            forall|k: int|
                is_first_fit(old(self).spec_chunks(), size, alignment, k) ==> {
                    let c = old(self).spec_chunks()[k];
                    &&& r == Some((place_start(c, alignment) as u64, place_end(c, size, alignment) as u64))
                    &&& final(self).spec_chunks() == placed(old(self).spec_chunks(), size, alignment, k)
                },
            r is Some ==> exists|k: int|
                is_first_fit(old(self).spec_chunks(), size, alignment, k)
                    && final(self).spec_chunks() == placed(old(self).spec_chunks(), size, alignment, k),
            r matches Some((s, e)) ==> {
                &&& s % alignment == 0
                &&& e - s >= size
                &&& e <= old(self).spec_size()
            },
    {
        let ghost cs = self.chunks@;
        let n = self.chunks.len();
        let mut i: usize = 0;
        while i < n
            invariant
                self.chunks@ == cs,
                *self == *old(self),
                n == cs.len(),
                i <= n,
                size > 0,
                alignment > 0,
                self.wf(),
                forall|j: int| 0 <= j < i ==> !fits(#[trigger] cs[j], size, alignment),
            decreases n - i,
        {
            let c = self.chunks[i];
            match fit(&c, size, alignment) {
                Some((s, e)) => {
                    proof {
                        assert(is_first_fit(cs, size, alignment, i as int));
                        lemma_aligned_up_bounds(c.start as int, alignment as int);
                        lemma_aligned_up_bounds(s + size, alignment as int);
                        lemma_placed_wf(cs, self.size, size, alignment, i as int);
                        lemma_placed_index(cs, size, alignment, i as int);
                        assert forall|k: int| is_first_fit(cs, size, alignment, k) implies k == i by {
                            if k < i {
                            } else if k > i {
                                assert(!fits(cs[i as int], size, alignment));
                            }
                        }
                        assert(cs[cs.len() - 1].end == self.size);
                        if i + 1 < cs.len() {
                            assert(link(cs, i as int));
                            if i + 2 < cs.len() {
                                lemma_starts_increase(cs, self.size, i + 1, cs.len() - 1);
                            }
                            assert(cs[cs.len() - 1].start < cs[cs.len() - 1].end);
                        }
                    }
                    self.chunks[i] = Chunk { start: s, end: e, occupied: true };
                    if e < c.end {
                        self.chunks.insert(i + 1, Chunk { start: e, end: c.end, occupied: false });
                    }
                    if s > c.start {
                        self.chunks.insert(i, Chunk { start: c.start, end: s, occupied: false });
                    }
                    proof {
                        let pl = placed(cs, size, alignment, i as int);
                        assert(self.chunks@.len() == pl.len());
                        assert forall|j: int| 0 <= j < pl.len() implies self.chunks@[j] == pl[j] by {}
                        assert(self.chunks@ =~= pl);
                    }
                    return Some((s, e));
                },
                None => {},
            }
            i += 1;
        }
        None
    }

    /// Frees the occupied chunk that starts at `addr`, merging it with free
    /// neighbours. Returns whether the whole block is free again.
    pub fn free(&mut self, addr: u64) -> (r: bool)
        requires
            old(self).wf(),
            exists|i: int|
                0 <= i < old(self).spec_chunks().len() && (#[trigger] old(
                    self,
                ).spec_chunks()[i]).start == addr && old(self).spec_chunks()[i].occupied,
        ensures
            final(self).wf(),
            old(self).same_memory(final(self)),
            forall|i: int|
                0 <= i < old(self).spec_chunks().len() && (#[trigger] old(
                    self,
                ).spec_chunks()[i]).start == addr ==> final(self).spec_chunks() == freed(
                    old(self).spec_chunks(),
                    i,
                ),
            r == all_free(final(self).spec_chunks()),
            r ==> final(self).spec_chunks() == seq![
                Chunk { start: 0, end: old(self).spec_size(), occupied: false },
            ],
    {
        let ghost cs = self.chunks@;
        let ghost w = choose|i: int| 0 <= i < cs.len() && (#[trigger] cs[i]).start == addr && cs[i].occupied;
        let n = self.chunks.len();
        let mut i: usize = 0;
        while self.chunks[i].start != addr
            invariant
                self.chunks@ == cs,
                *self == *old(self),
                n == cs.len(),
                0 <= w < n,
                cs[w].start == addr,
                i <= w,
                self.wf(),
                forall|j: int| 0 <= j < i ==> (#[trigger] cs[j]).start != addr,
            decreases n - i,
        {
            i += 1;
        }
        proof {
            if i < w {
                lemma_starts_increase(cs, self.size, i as int, w);
            }
            lemma_start_unique(cs, self.size, i as int);
            lemma_freed_index(cs, i as int);
            lemma_freed_wf(cs, self.size, i as int);
        }
        let left_free = i > 0 && !self.chunks[i - 1].occupied;
        let right_free = i + 1 < n && !self.chunks[i + 1].occupied;
        let lo = if left_free { i - 1 } else { i };
        let hi = if right_free { i + 1 } else { i };
        let merged = Chunk { start: self.chunks[lo].start, end: self.chunks[hi].end, occupied: false };
        if right_free {
            self.chunks.remove(i + 1);
        }
        if left_free {
            self.chunks.remove(i);
        }
        self.chunks[lo] = merged;
        proof {
            let fr = freed(cs, i as int);
            assert(self.chunks@.len() == fr.len());
            assert forall|j: int| 0 <= j < fr.len() implies self.chunks@[j] == fr[j] by {}
            assert(self.chunks@ =~= fr);
        }
        let r = self.chunks.len() == 1;
        proof {
            if r {
                assert(self.chunks@[0] == self.chunks@[lo as int]);
            } else {
                assert(link(self.chunks@, 0));
            }
            if all_free(self.chunks@) {
                lemma_all_free_is_whole(self.chunks@, self.size);
            }
        }
        r
    }

    /// Whether an occupied chunk starts at `addr`.
    pub fn occupied_at(&self, addr: u64) -> (r: bool)
        ensures
            r == exists|j: int|
                0 <= j < self.spec_chunks().len() && (#[trigger] self.spec_chunks()[j]).start == addr
                    && self.spec_chunks()[j].occupied,
    {
        let n = self.chunks.len();
        let mut i: usize = 0;
        while i < n
            invariant
                n == self.chunks@.len(),
                i <= n,
                forall|j: int|
                    0 <= j < i ==> !((#[trigger] self.chunks@[j]).start == addr
                        && self.chunks@[j].occupied),
            decreases n - i,
        {
            if self.chunks[i].start == addr && self.chunks[i].occupied {
                assert(self.spec_chunks()[i as int].start == addr);
                return true;
            }
            i += 1;
        }
        false
    }

    /// Gives up the block, handing back its memory.
    pub fn into_mem(self) -> (r: M)
        ensures
            r == self.spec_mem(),
    {
        self.mem
    }

    pub fn chunks(&self) -> (r: &Vec<Chunk>)
        ensures
            r@ == self.spec_chunks(),
    {
        &self.chunks
    }

    pub fn id(&self) -> (r: u64)
        ensures
            r == self.spec_id(),
    {
        self.id
    }

    pub fn mem(&self) -> (r: &M)
        ensures
            *r == self.spec_mem(),
    {
        &self.mem
    }

    pub fn mem_type_index(&self) -> (r: usize)
        ensures
            r == self.spec_mem_type_index(),
    {
        self.mem_type_index
    }

    pub fn dedicated(&self) -> (r: bool)
        ensures
            r == self.spec_dedicated(),
    {
        self.dedicated
    }

    pub fn size(&self) -> (r: u64)
        ensures
            r == self.spec_size(),
    {
        self.size
    }
}

} // verus!
