use vstd::prelude::*;

use crate::render::memalloc::align::{aligned_up, lemma_aligned_up_bounds};
use crate::render::memalloc::block::{
    all_free, chunks_wf, freed, has_fit, is_first_fit, lemma_placed_index, lemma_placed_wf, link,
    place_end, place_start, placed, Block, Chunk,
};
use crate::render::memalloc::{AllocControl, Error};

verus! {

/// A span handed out by a pool: the block it lies in and its byte range.
#[derive(Debug, Copy, Clone, PartialEq, Eq, Structural)]
pub struct AllocRes {
    pub block: u64,
    pub start: u64,
    pub end: u64,
    pub heap_idx: usize,
}

/// What a pool allocation comes to.
#[derive(Debug, Copy, Clone, PartialEq, Eq, Structural)]
pub enum Placement {
    /// The span was taken in an existing block.
    Placed(AllocRes),
    /// No existing block will do: a new block of `size` bytes is needed, to be
    /// handed to `add_block` together with the same request.
    NewBlock { size: u64, dedicated: bool },
}

/// The total size of the blocks.
pub open spec fn sum_sizes<M>(bs: Seq<Block<M>>) -> int
    decreases bs.len(),
{
    if bs.len() == 0 {
        0
    } else {
        sum_sizes(bs.drop_last()) + bs.last().spec_size()
    }
}

pub proof fn lemma_sum_push<M>(bs: Seq<Block<M>>, b: Block<M>)
    ensures
        sum_sizes(bs.push(b)) == sum_sizes(bs) + b.spec_size(),
{
    assert(bs.push(b).drop_last() =~= bs);
}

pub proof fn lemma_sum_update<M>(bs: Seq<Block<M>>, i: int, b: Block<M>)
    requires
        0 <= i < bs.len(),
    ensures
        sum_sizes(bs.update(i, b)) == sum_sizes(bs) - bs[i].spec_size() + b.spec_size(),
    decreases bs.len(),
{
    if i < bs.len() - 1 {
        lemma_sum_update(bs.drop_last(), i, b);
        assert(bs.update(i, b).drop_last() =~= bs.drop_last().update(i, b));
    } else {
        assert(bs.update(i, b).drop_last() =~= bs.drop_last());
    }
}

pub proof fn lemma_sum_remove<M>(bs: Seq<Block<M>>, i: int)
    requires
        0 <= i < bs.len(),
    ensures
        sum_sizes(bs.remove(i)) == sum_sizes(bs) - bs[i].spec_size(),
        sum_sizes(bs) >= bs[i].spec_size(),
    decreases bs.len(),
{
    lemma_sum_nonneg(bs.drop_last());
    if i < bs.len() - 1 {
        lemma_sum_remove(bs.drop_last(), i);
        assert(bs.remove(i).drop_last() =~= bs.drop_last().remove(i));
    } else {
        assert(bs.remove(i) =~= bs.drop_last());
    }
}

pub proof fn lemma_sum_nonneg<M>(bs: Seq<Block<M>>)
    ensures
        sum_sizes(bs) >= 0,
    decreases bs.len(),
{
    if bs.len() > 0 {
        lemma_sum_nonneg(bs.drop_last());
    }
}

/// Block `i` is one of the pool's blocks for memory type `t`.
pub open spec fn shared_of_type<M>(bs: Seq<Block<M>>, i: int, t: usize) -> bool {
    bs[i].spec_mem_type_index() == t && !bs[i].spec_dedicated()
}

/// Block `i` is the first shared block of type `t` with room for the request.
pub open spec fn is_first_block<M>(bs: Seq<Block<M>>, t: usize, size: u64, alignment: u64, i: int) -> bool {
    &&& 0 <= i < bs.len()
    &&& shared_of_type(bs, i, t)
    &&& has_fit(bs[i].spec_chunks(), size, alignment)
    &&& forall|j: int|
        0 <= j < i ==> !(shared_of_type(bs, j, t) && has_fit(
            #[trigger] bs[j].spec_chunks(),
            size,
            alignment,
        ))
}

pub open spec fn has_block<M>(bs: Seq<Block<M>>, t: usize, size: u64, alignment: u64) -> bool {
    exists|i: int|
        0 <= i < bs.len() && shared_of_type(bs, i, t) && has_fit(
            #[trigger] bs[i].spec_chunks(),
            size,
            alignment,
        )
}

/// The chunks of a dedicated block: its one allocation at offset 0, and
/// nothing else occupied.
pub open spec fn single_use(cs: Seq<Chunk>) -> bool {
    &&& cs[0].occupied
    &&& forall|j: int| 0 < j < cs.len() ==> !(#[trigger] cs[j]).occupied
}

/// Size of the block that a request needs when no existing block has room.
pub open spec fn new_block_size(control: AllocControl, size: u64, block_size: u64) -> u64 {
    match control {
        AllocControl::Dedicated => size,
        AllocControl::Pool { .. } => if size > block_size {
            size
        } else {
            block_size
        },
    }
}

/// The chunks of a fresh block of `block_size` bytes after the request was
/// placed in it.
pub open spec fn fresh_chunks(block_size: u64, size: u64, alignment: u64) -> Seq<Chunk> {
    placed(seq![Chunk { start: 0, end: block_size, occupied: false }], size, alignment, 0)
}

/// All the blocks of one heap, with the heap's byte budget.
pub struct Pool<M> {
    heap_idx: usize,
    max_bytes: u64,
    used_bytes: u64,
    block_size: u64,
    next_id: u64,
    blocks: Vec<Block<M>>,
}

impl<M> Pool<M> {
    pub closed spec fn spec_heap_idx(&self) -> usize {
        self.heap_idx
    }

    pub closed spec fn spec_max_bytes(&self) -> u64 {
        self.max_bytes
    }

    pub closed spec fn spec_used_bytes(&self) -> u64 {
        self.used_bytes
    }

    pub closed spec fn spec_block_size(&self) -> u64 {
        self.block_size
    }

    pub closed spec fn spec_next_id(&self) -> u64 {
        self.next_id
    }

    pub closed spec fn spec_blocks(&self) -> Seq<Block<M>> {
        self.blocks@
    }

    pub open spec fn wf(&self) -> bool {
        let bs = self.spec_blocks();
        &&& self.spec_used_bytes() == sum_sizes(bs)
        &&& self.spec_used_bytes() <= self.spec_max_bytes()
        &&& forall|i: int| 0 <= i < bs.len() ==> (#[trigger] bs[i]).wf()
        &&& forall|i: int| 0 <= i < bs.len() ==> !all_free((#[trigger] bs[i]).spec_chunks())
        &&& forall|i: int|
            0 <= i < bs.len() && (#[trigger] bs[i]).spec_dedicated() ==> single_use(
                bs[i].spec_chunks(),
            )
        &&& forall|i: int| 0 <= i < bs.len() ==> (#[trigger] bs[i]).spec_id() < self.spec_next_id()
        &&& forall|i: int, j: int|
            0 <= i < bs.len() && 0 <= j < bs.len() && i != j ==> (#[trigger] bs[i]).spec_id()
                != (#[trigger] bs[j]).spec_id()
    }

    /// The budget settings are those of `other`.
    pub open spec fn same_budget(&self, other: &Self) -> bool {
        &&& other.spec_heap_idx() == self.spec_heap_idx()
        &&& other.spec_max_bytes() == self.spec_max_bytes()
        &&& other.spec_block_size() == self.spec_block_size()
    }

    /// A new block of `new_size` bytes could be added for the request.
    pub open spec fn can_grow(&self, new_size: u64, size: u64, alignment: u64) -> bool {
        &&& self.spec_used_bytes() + new_size <= self.spec_max_bytes()
        &&& aligned_up(size as int, alignment as int) <= new_size
        &&& self.spec_next_id() < u64::MAX
    }

    /// Block `i` has id `block` and an occupied chunk starting at `addr`.
    pub open spec fn holds_at(&self, i: int, block: u64, addr: u64) -> bool {
        let bs = self.spec_blocks();
        &&& 0 <= i < bs.len()
        &&& bs[i].spec_id() == block
        &&& exists|j: int|
            0 <= j < bs[i].spec_chunks().len() && (#[trigger] bs[i].spec_chunks()[j]).start == addr
                && bs[i].spec_chunks()[j].occupied
    }

    pub open spec fn spec_holds(&self, block: u64, addr: u64) -> bool {
        exists|i: int| self.holds_at(i, block, addr)
    }

    /// `other` holds the same blocks and byte counts as this pool.
    pub open spec fn unchanged(&self, other: &Self) -> bool {
        &&& self.same_budget(other)
        &&& other.spec_used_bytes() == self.spec_used_bytes()
        &&& other.spec_next_id() == self.spec_next_id()
        &&& other.spec_blocks() == self.spec_blocks()
    }

    /// What an allocation comes to when no existing block takes it.
    pub open spec fn no_room_result(&self, control: AllocControl, size: u64, alignment: u64) -> Result<Placement, Error> {
        if control == (AllocControl::Pool { no_alloc: true }) {
            Err(Error::NoFreeBlock)
        } else {
            let sz = new_block_size(control, size, self.spec_block_size());
            if self.can_grow(sz, size, alignment) {
                Ok(Placement::NewBlock { size: sz, dedicated: control == AllocControl::Dedicated })
            } else {
                Err(Error::HeapExhausted)
            }
        }
    }

    /// An empty pool for heap `heap_idx`.
    pub fn new(heap_idx: usize, max_bytes: u64, block_size: u64) -> (r: Self)
        ensures
            r.wf(),
            r.spec_heap_idx() == heap_idx,
            r.spec_max_bytes() == max_bytes,
            r.spec_block_size() == block_size,
            r.spec_used_bytes() == 0,
            r.spec_next_id() == 0,
            r.spec_blocks().len() == 0,
    {
        Pool { heap_idx, max_bytes, used_bytes: 0, block_size, next_id: 0, blocks: Vec::new() }
    }

    /// Finds room for `size` bytes aligned to `alignment` in memory type
    /// `mem_type_index`. In pool mode the first shared block of that type with
    /// room takes the request at its first fit. Otherwise nothing changes and
    /// the result says whether a new block may be made, and of what size.
    pub fn allocate(&mut self, mem_type_index: usize, size: u64, alignment: u64, control: AllocControl) -> (r: Result<Placement, Error>)
        requires
            old(self).wf(),
            size > 0,
            alignment > 0,
        ensures
            final(self).wf(),
            old(self).same_budget(final(self)),
            final(self).spec_used_bytes() <= final(self).spec_max_bytes(),
            final(self).spec_blocks().len() == old(self).spec_blocks().len(),
            forall|i: int|
                0 <= i < old(self).spec_blocks().len() && (#[trigger] old(
                    self,
                ).spec_blocks()[i]).spec_dedicated() ==> final(self).spec_blocks()[i] == old(
                    self,
                ).spec_blocks()[i],
            control is Pool ==> forall|i: int|
                is_first_block(old(self).spec_blocks(), mem_type_index, size, alignment, i) ==> {
                    let b = old(self).spec_blocks()[i];
                    let nb = final(self).spec_blocks()[i];
                    &&& final(self).spec_blocks() == old(self).spec_blocks().update(i, nb)
                    &&& b.same_memory(&nb)
                    &&& final(self).spec_used_bytes() == old(self).spec_used_bytes()
                    &&& final(self).spec_next_id() == old(self).spec_next_id()
                    &&& forall|k: int|
                        is_first_fit(b.spec_chunks(), size, alignment, k) ==> {
                            &&& r == Ok::<Placement, Error>(
                                Placement::Placed(
                                    AllocRes {
                                        block: b.spec_id(),
                                        start: place_start(b.spec_chunks()[k], alignment) as u64,
                                        end: place_end(b.spec_chunks()[k], size, alignment) as u64,
                                        heap_idx: old(self).spec_heap_idx(),
                                    },
                                ),
                            )
                            &&& nb.spec_chunks() == placed(b.spec_chunks(), size, alignment, k)
                        }
                },
            r matches Ok(Placement::Placed(a)) ==> {
                &&& a.start % alignment == 0
                &&& a.end - a.start >= size
                &&& exists|i: int|
                    0 <= i < final(self).spec_blocks().len()
                        && (#[trigger] final(self).spec_blocks()[i]).spec_id() == a.block
                        && a.end <= final(self).spec_blocks()[i].spec_size()
            },
            !(control is Pool && has_block(old(self).spec_blocks(), mem_type_index, size, alignment))
                ==> {
                &&& old(self).unchanged(final(self))
                &&& r == old(self).no_room_result(control, size, alignment)
            },
    {
        match control {
            AllocControl::Dedicated => {},
            AllocControl::Pool { no_alloc } => {
                let n = self.blocks.len();
                let mut i: usize = 0;
                while i < n
                    invariant
                        old(self).wf(),
                        old(self).unchanged(self),
                        control == (AllocControl::Pool { no_alloc }),
                        n == self.blocks@.len(),
                        i <= n,
                        size > 0,
                        alignment > 0,
                        forall|j: int|
                            0 <= j < i ==> !(shared_of_type(self.blocks@, j, mem_type_index) && has_fit(
                                #[trigger] self.blocks@[j].spec_chunks(),
                                size,
                                alignment,
                            )),
                    decreases n - i,
                {
                    if self.blocks[i].mem_type_index() == mem_type_index && !self.blocks[i].dedicated() {
                        let ghost b = self.blocks@[i as int];
                        assert(self.blocks@[i as int].wf());
                        let placed = self.blocks[i].allocate(size, alignment);
                        match placed {
                            Some((s, e)) => {
                                let id = self.blocks[i].id();
                                proof {
                                    assert(has_fit(old(self).spec_blocks()[i as int].spec_chunks(), size, alignment));
                                    assert(has_block(old(self).spec_blocks(), mem_type_index, size, alignment));
                                    assert(is_first_block(old(self).spec_blocks(), mem_type_index, size, alignment, i as int));
                                    assert forall|k: int| is_first_block(old(self).spec_blocks(), mem_type_index, size, alignment, k) implies k == i by {
                                        if k > i {
                                            assert(!(shared_of_type(old(self).spec_blocks(), i as int, mem_type_index) && has_fit(
                                                old(self).spec_blocks()[i as int].spec_chunks(), size, alignment)));
                                        }
                                    }
                                    self.lemma_placed_keeps_wf(old(self), i as int, size, alignment);
                                    assert(self.spec_blocks()[i as int].spec_id() == id);
                                }
                                return Ok(Placement::Placed(AllocRes { block: id, start: s, end: e, heap_idx: self.heap_idx }));
                            },
                            None => {
                                proof {
                                    assert(self.blocks@ =~= old(self).spec_blocks());
                                }
                            },
                        }
                    }
                    i += 1;
                }
                if no_alloc {
                    return Err(Error::NoFreeBlock);
                }
            },
        }
        let sz = match control {
            AllocControl::Dedicated => size,
            AllocControl::Pool { .. } => if size > self.block_size {
                size
            } else {
                self.block_size
            },
        };
        if sz > self.max_bytes - self.used_bytes || self.next_id == u64::MAX {
            return Err(Error::HeapExhausted);
        }
        let rem = size % alignment;
        proof {
            lemma_aligned_up_bounds(size as int, alignment as int);
        }
        if rem != 0 && (alignment > sz || size - rem > sz - alignment) {
            return Err(Error::HeapExhausted);
        }
        Ok(Placement::NewBlock { size: sz, dedicated: control == AllocControl::Dedicated })
    }

    /// After block `i` of `old` took a placement, the pool is still well formed.
    proof fn lemma_placed_keeps_wf(&self, old: &Self, i: int, size: u64, alignment: u64)
        requires
            old.wf(),
            0 <= i < old.spec_blocks().len(),
            size > 0,
            alignment > 0,
            self.unchanged_but_block(old, i),
            !old.spec_blocks()[i].spec_dedicated(),
            exists|k: int|
                is_first_fit(old.spec_blocks()[i].spec_chunks(), size, alignment, k)
                    && self.spec_blocks()[i].spec_chunks() == placed(
                    old.spec_blocks()[i].spec_chunks(),
                    size,
                    alignment,
                    k,
                ),
            self.spec_blocks()[i].wf(),
        ensures
            self.wf(),
    {
        let bs = self.spec_blocks();
        let ob = old.spec_blocks();
        let k = choose|k: int|
            is_first_fit(ob[i].spec_chunks(), size, alignment, k) && bs[i].spec_chunks() == placed(
                ob[i].spec_chunks(),
                size,
                alignment,
                k,
            );
        lemma_placed_index(ob[i].spec_chunks(), size, alignment, k);
        let p: int = if place_start(ob[i].spec_chunks()[k], alignment) > ob[i].spec_chunks()[k].start { 1 } else { 0 };
        assert(bs[i].spec_chunks()[k + p].occupied);
        lemma_sum_update(ob, i, bs[i]);
        assert(bs =~= ob.update(i, bs[i]));
        assert forall|j: int| 0 <= j < bs.len() implies (#[trigger] bs[j]).wf() && !all_free(bs[j].spec_chunks()) by {
            if j == i {
                assert(!bs[i].spec_chunks()[k + p].occupied ==> !all_free(bs[i].spec_chunks()));
            } else {
                assert(bs[j] == ob[j]);
                assert(ob[j].wf());
                assert(!all_free(ob[j].spec_chunks()));
            }
        }
        assert forall|j: int| 0 <= j < bs.len() && (#[trigger] bs[j]).spec_dedicated() implies single_use(bs[j].spec_chunks()) by {
            assert(bs[j] == ob[j]);
        }
        assert forall|j: int| 0 <= j < bs.len() implies (#[trigger] bs[j]).spec_id() < self.spec_next_id() by {
            assert(ob[j].spec_id() < old.spec_next_id());
        }
        assert forall|a: int, c: int|
            0 <= a < bs.len() && 0 <= c < bs.len() && a != c implies (#[trigger] bs[a]).spec_id()
                != (#[trigger] bs[c]).spec_id() by {
            assert(ob[a].spec_id() != ob[c].spec_id());
        }
    }

    /// This pool is `old` but for the chunks of block `i`.
    pub open spec fn unchanged_but_block(&self, old: &Self, i: int) -> bool {
        &&& old.same_budget(self)
        &&& self.spec_used_bytes() == old.spec_used_bytes()
        &&& self.spec_next_id() == old.spec_next_id()
        &&& self.spec_blocks().len() == old.spec_blocks().len()
        &&& self.spec_blocks() == old.spec_blocks().update(i, self.spec_blocks()[i])
        &&& old.spec_blocks()[i].same_memory(&self.spec_blocks()[i])
    }

    /// Adds a new block made on `mem`, of `block_size` bytes, and places the
    /// request at its start.
    pub fn add_block(
        &mut self,
        mem: M,
        mem_type_index: usize,
        block_size: u64,
        dedicated: bool,
        size: u64,
        alignment: u64,
    ) -> (r: AllocRes)
        requires
            old(self).wf(),
            size > 0,
            alignment > 0,
            old(self).can_grow(block_size, size, alignment),
        ensures
            final(self).wf(),
            old(self).same_budget(final(self)),
            final(self).spec_used_bytes() <= final(self).spec_max_bytes(),
            final(self).spec_used_bytes() == old(self).spec_used_bytes() + block_size,
            final(self).spec_next_id() == old(self).spec_next_id() + 1,
            final(self).spec_blocks().len() == old(self).spec_blocks().len() + 1,
            final(self).spec_blocks() == old(self).spec_blocks().push(final(self).spec_blocks().last()),
            ({
                let nb = final(self).spec_blocks().last();
                &&& nb.spec_id() == old(self).spec_next_id()
                &&& nb.spec_mem() == mem
                &&& nb.spec_mem_type_index() == mem_type_index
                &&& nb.spec_size() == block_size
                &&& nb.spec_dedicated() == dedicated
                &&& nb.spec_chunks() == fresh_chunks(block_size, size, alignment)
            }),
            r == (AllocRes {
                block: old(self).spec_next_id(),
                start: 0,
                end: aligned_up(size as int, alignment as int) as u64,
                heap_idx: old(self).spec_heap_idx(),
            }),
    {
        let id = self.next_id;
        let ghost whole = seq![Chunk { start: 0, end: block_size, occupied: false }];
        proof {
            lemma_aligned_up_bounds(size as int, alignment as int);
            lemma_aligned_up_bounds(0, alignment as int);
            assert(is_first_fit(whole, size, alignment, 0));
            lemma_placed_index(whole, size, alignment, 0);
        }
        let mut b = Block::new(id, mem, mem_type_index, block_size, dedicated);
        let spot = b.allocate(size, alignment);
        let (start, end) = match spot {
            Some(span) => span,
            None => (0, 0),
        };
        let ghost bs = self.blocks@;
        self.blocks.push(b);
        self.used_bytes = self.used_bytes + block_size;
        self.next_id = self.next_id + 1;
        proof {
            let nbs = self.blocks@;
            let fc = fresh_chunks(block_size, size, alignment);
            assert(nbs.last().spec_chunks() == fc);
            assert(fc[0].occupied);
            lemma_sum_push(bs, b);
            assert forall|j: int| 0 <= j < nbs.len() implies (#[trigger] nbs[j]).wf() && !all_free(nbs[j].spec_chunks()) && (nbs[j].spec_dedicated() ==> single_use(nbs[j].spec_chunks())) && nbs[j].spec_id() < self.next_id by {
                if j < bs.len() {
                    assert(nbs[j] == bs[j]);
                } else {
                    assert(!fc[0].occupied ==> !all_free(fc));
                }
            }
            assert forall|a: int, c: int|
                0 <= a < nbs.len() && 0 <= c < nbs.len() && a != c implies (#[trigger] nbs[a]).spec_id()
                    != (#[trigger] nbs[c]).spec_id() by {
                if a < bs.len() && c < bs.len() {
                    assert(bs[a].spec_id() != bs[c].spec_id());
                } else if a < bs.len() {
                    assert(bs[a].spec_id() < id);
                } else {
                    assert(bs[c].spec_id() < id);
                }
            }
            assert(nbs =~= bs.push(nbs.last()));
        }
        AllocRes { block: id, start, end, heap_idx: self.heap_idx }
    }

    /// Index of the block with id `block`.
    fn find_block(&self, block: u64) -> (r: Option<usize>)
        requires
            self.wf(),
        ensures
            r matches Some(i) ==> i < self.spec_blocks().len() && self.spec_blocks()[i as int].spec_id()
                == block,
            r is None ==> forall|i: int|
                0 <= i < self.spec_blocks().len() ==> (#[trigger] self.spec_blocks()[i]).spec_id()
                    != block,
    {
        let n = self.blocks.len();
        let mut i: usize = 0;
        while i < n
            invariant
                n == self.blocks@.len(),
                i <= n,
                forall|j: int| 0 <= j < i ==> (#[trigger] self.blocks@[j]).spec_id() != block,
            decreases n - i,
        {
            if self.blocks[i].id() == block {
                return Some(i);
            }
            i += 1;
        }
        None
    }

    /// Whether block `block` has an occupied chunk starting at `addr`.
    pub fn holds(&self, block: u64, addr: u64) -> (r: bool)
        requires
            self.wf(),
        ensures
            r == self.spec_holds(block, addr),
    {
        match self.find_block(block) {
            None => false,
            Some(i) => {
                let r = self.blocks[i].occupied_at(addr);
                proof {
                    if !r {
                        assert forall|k: int| !self.holds_at(k, block, addr) by {
                            if 0 <= k < self.spec_blocks().len() && k != i && self.spec_blocks()[k].spec_id() == block {
                                assert(self.spec_blocks()[k].spec_id() != self.spec_blocks()[i as int].spec_id());
                            }
                        }
                    } else {
                        assert(self.holds_at(i as int, block, addr));
                    }
                }
                r
            },
        }
    }

    /// The memory of block `block`, if the pool has such a block.
    pub fn memory(&self, block: u64) -> (r: Option<&M>)
        requires
            self.wf(),
        ensures
            r matches Some(m) ==> exists|i: int|
                0 <= i < self.spec_blocks().len() && (#[trigger] self.spec_blocks()[i]).spec_id() == block
                    && self.spec_blocks()[i].spec_mem() == *m,
            r is None ==> forall|i: int|
                0 <= i < self.spec_blocks().len() ==> (#[trigger] self.spec_blocks()[i]).spec_id()
                    != block,
    {
        match self.find_block(block) {
            None => None,
            Some(i) => Some(self.blocks[i].mem()),
        }
    }

    /// Frees the span starting at `addr` in block `block`. When that leaves the
    /// block with nothing occupied, the block leaves the pool, its bytes are
    /// returned to the budget, and its memory is handed back for release.
    pub fn free(&mut self, block: u64, addr: u64) -> (r: Option<M>)
        requires
            old(self).wf(),
            old(self).spec_holds(block, addr),
        ensures
            final(self).wf(),
            old(self).same_budget(final(self)),
            final(self).spec_used_bytes() <= final(self).spec_max_bytes(),
            final(self).spec_next_id() == old(self).spec_next_id(),
            forall|i: int|
                old(self).holds_at(i, block, addr) ==> {
                    let b = #[trigger] old(self).spec_blocks()[i];
                    &&& forall|j: int|
                        0 <= j < b.spec_chunks().len() && (#[trigger] b.spec_chunks()[j]).start == addr
                            ==> {
                            let fc = freed(b.spec_chunks(), j);
                            if all_free(fc) {
                                &&& r == Some(b.spec_mem())
                                &&& final(self).spec_blocks() == old(self).spec_blocks().remove(i)
                                &&& final(self).spec_used_bytes() == old(self).spec_used_bytes()
                                    - b.spec_size()
                            } else {
                                &&& r is None
                                &&& final(self).unchanged_but_block(old(self), i)
                                &&& final(self).spec_blocks()[i].spec_chunks() == fc
                            }
                        }
                    &&& b.spec_dedicated() ==> r == Some(b.spec_mem())
                        && final(self).spec_blocks() == old(self).spec_blocks().remove(i)
                },
    {
        let ghost ob = self.blocks@;
        let ghost w = choose|i: int| self.holds_at(i, block, addr);
        let i = match self.find_block(block) {
            Some(i) => i,
            None => {
                proof {
                    assert(ob[w].spec_id() == block);
                }
                0
            },
        };
        proof {
            if w != i {
                assert(ob[w].spec_id() != ob[i as int].spec_id());
            }
            assert(w == i);
            assert(ob[w].wf());
        }
        let ghost b = ob[i as int];
        let full = self.blocks[i].free(addr);
        proof {
            let cs = b.spec_chunks();
            let j = choose|j: int| 0 <= j < cs.len() && (#[trigger] cs[j]).start == addr && cs[j].occupied;
            if b.spec_dedicated() {
                assert(single_use(cs));
                assert(j == 0);
                crate::render::memalloc::block::lemma_freed_index(cs, 0);
                if cs.len() > 2 {
                    assert(link(cs, 1));
                }
                assert(full);
            }
        }
        if full {
            let gone = self.blocks.remove(i);
            proof {
                lemma_sum_remove(ob, i as int);
                assert(ob[i as int].same_memory(&gone));
                let nbs = self.blocks@;
                assert(nbs =~= ob.remove(i as int));
                assert forall|k: int| 0 <= k < nbs.len() implies (#[trigger] nbs[k]).wf() && !all_free(nbs[k].spec_chunks()) && (nbs[k].spec_dedicated() ==> single_use(nbs[k].spec_chunks())) && nbs[k].spec_id() < self.next_id by {
                    if k < i {
                        assert(nbs[k] == ob[k]);
                    } else {
                        assert(nbs[k] == ob[k + 1]);
                    }
                }
                assert forall|a: int, c: int|
                    0 <= a < nbs.len() && 0 <= c < nbs.len() && a != c implies (#[trigger] nbs[a]).spec_id()
                        != (#[trigger] nbs[c]).spec_id() by {
                    let a2 = if a < i { a } else { a + 1 };
                    let c2 = if c < i { c } else { c + 1 };
                    assert(nbs[a] == ob[a2]);
                    assert(nbs[c] == ob[c2]);
                    assert(ob[a2].spec_id() != ob[c2].spec_id());
                }
            }
            self.used_bytes = self.used_bytes - gone.size();
            Some(gone.into_mem())
        } else {
            proof {
                let nbs = self.blocks@;
                lemma_sum_update(ob, i as int, nbs[i as int]);
                assert(nbs =~= ob.update(i as int, nbs[i as int]));
                assert forall|k: int| 0 <= k < nbs.len() implies (#[trigger] nbs[k]).wf() && !all_free(nbs[k].spec_chunks()) && (nbs[k].spec_dedicated() ==> single_use(nbs[k].spec_chunks())) && nbs[k].spec_id() < self.next_id by {
                    if k != i {
                        assert(nbs[k] == ob[k]);
                    }
                }
                assert forall|a: int, c: int|
                    0 <= a < nbs.len() && 0 <= c < nbs.len() && a != c implies (#[trigger] nbs[a]).spec_id()
                        != (#[trigger] nbs[c]).spec_id() by {
                    assert(ob[a].spec_id() != ob[c].spec_id());
                }
            }
            None
        }
    }

    pub fn heap_idx(&self) -> (r: usize)
        ensures
            r == self.spec_heap_idx(),
    {
        self.heap_idx
    }

    pub fn max_bytes(&self) -> (r: u64)
        ensures
            r == self.spec_max_bytes(),
    {
        self.max_bytes
    }

    pub fn used_bytes(&self) -> (r: u64)
        ensures
            r == self.spec_used_bytes(),
    {
        self.used_bytes
    }

    pub fn block_size(&self) -> (r: u64)
        ensures
            r == self.spec_block_size(),
    {
        self.block_size
    }

    pub fn block_count(&self) -> (r: usize)
        ensures
            r == self.spec_blocks().len(),
    {
        self.blocks.len()
    }
}

} // verus!
