use vstd::prelude::*;

use crate::render::memalloc::pool::Pool;
use crate::render::memalloc::{AllocatorOptions, HeapOptions, HeapUsage};

verus! {

/// Heaps of at least this many bytes get `LARGE_HEAP_BLOCK_SIZE` blocks by default.
pub const LARGE_HEAP_THRESHOLD: u64 = 1024 * 1024 * 1024;

/// Default block size on a large heap.
pub const LARGE_HEAP_BLOCK_SIZE: u64 = 256 * 1024 * 1024;

pub open spec fn is_pow2(n: int) -> bool
    decreases n,
{
    if n <= 0 {
        false
    } else if n == 1 {
        true
    } else {
        n % 2 == 0 && is_pow2(n / 2)
    }
}

/// The largest power of two not above `n`, and 0 for 0.
pub open spec fn floor_pow2(n: int) -> int
    decreases n,
{
    if n <= 1 {
        n
    } else {
        2 * floor_pow2(n / 2)
    }
}

/// `b` halved until it is not above `max`.
pub open spec fn halve_to_fit(b: int, max: int) -> int
    decreases b,
{
    if b > max && b > 0 {
        halve_to_fit(b / 2, max)
    } else {
        b
    }
}

/// Block size used on a heap of `heap` bytes when none is configured.
pub open spec fn default_block_size(heap: u64) -> int {
    if heap >= LARGE_HEAP_THRESHOLD {
        LARGE_HEAP_BLOCK_SIZE as int
    } else {
        heap as int / 8
    }
}

/// The byte budget and block size of a heap of `heap` bytes, given the
/// requested budget and the requested block size (0 for the default).
pub open spec fn heap_sizes(heap: u64, requested_max: u64, requested_block: u64) -> (u64, u64) {
    let max = if requested_max < heap {
        requested_max
    } else {
        heap
    };
    let b = if requested_block == 0 || requested_block > max {
        default_block_size(heap)
    } else {
        requested_block as int
    };
    (max, halve_to_fit(floor_pow2(b), max as int) as u64)
}

/// The requested budget of a heap of `heap` bytes.
pub open spec fn usage_limit(usage: HeapUsage, heap: u64) -> u64 {
    match usage {
        HeapUsage::Forbid => 0,
        HeapUsage::Whole => heap,
        HeapUsage::Upto(n) => n,
    }
}

pub proof fn lemma_floor_pow2(n: int)
    requires
        n >= 1,
    ensures
        is_pow2(floor_pow2(n)),
        1 <= floor_pow2(n) <= n,
    decreases n,
{
    if n > 1 {
        lemma_floor_pow2(n / 2);
        let h = floor_pow2(n / 2);
        assert(is_pow2(2 * h)) by {
            assert((2 * h) % 2 == 0);
            assert((2 * h) / 2 == h);
        }
    }
}

pub proof fn lemma_halve_to_fit(b: int, max: int)
    requires
        b == 0 || is_pow2(b),
        max >= 0,
    ensures
        ({
            let r = halve_to_fit(b, max);
            &&& r == 0 || is_pow2(r)
            &&& 0 <= r <= max
            &&& r <= b
        }),
    decreases b,
{
    if b > max && b > 0 {
        if b > 1 {
            assert(is_pow2(b / 2));
        }
        lemma_halve_to_fit(b / 2, max);
    }
}

/// Rounds `n` down to a power of two (0 stays 0).
fn round_down_pow2(n: u64) -> (r: u64)
    ensures
        r == floor_pow2(n as int),
{
    if n == 0 {
        return 0;
    }
    let mut m: u64 = n;
    let mut p: u64 = 1;
    while m > 1
        invariant
            m >= 1,
            p * floor_pow2(m as int) == floor_pow2(n as int),
            p * m <= n,
        decreases m,
    {
        assert(floor_pow2(m as int) == 2 * floor_pow2(m as int / 2));
        assert(p * floor_pow2(m as int) == (p * 2) * floor_pow2(m as int / 2)) by (nonlinear_arith)
            requires
                floor_pow2(m as int) == 2 * floor_pow2(m as int / 2),
        ;
        assert((p * 2) * (m / 2) <= p * m && p * 2 <= p * m) by (nonlinear_arith)
            requires
                m > 1,
                p >= 0,
        ;
        m = m / 2;
        p = p * 2;
    }
    p
}

/// The byte budget and block size of a heap of `heap` bytes: the budget is the
/// requested one capped at the heap's size; the block size is the requested
/// one, or a default from the heap's size when it is 0 or above the budget,
/// rounded down to a power of two and halved until it fits the budget.
pub fn heap_block_size(heap: u64, max_bytes: u64, block_size: u64) -> (r: (u64, u64))
    ensures
        r == heap_sizes(heap, max_bytes, block_size),
        r.0 <= heap,
        r.1 <= r.0,
        r.1 == 0 || is_pow2(r.1 as int),
{
    let max_bytes = if max_bytes < heap {
        max_bytes
    } else {
        heap
    };
    let mut block_size = block_size;
    if block_size == 0 || block_size > max_bytes {
        block_size = if heap >= LARGE_HEAP_THRESHOLD {
            LARGE_HEAP_BLOCK_SIZE
        } else {
            heap / 8
        };
    }
    let ghost b0 = block_size;
    block_size = round_down_pow2(block_size);
    proof {
        if b0 >= 1 {
            lemma_floor_pow2(b0 as int);
        }
        lemma_halve_to_fit(block_size as int, max_bytes as int);
    }
    let ghost rounded = block_size;
    while block_size > max_bytes
        invariant
            halve_to_fit(block_size as int, max_bytes as int) == halve_to_fit(rounded as int, max_bytes as int),
        decreases block_size,
    {
        block_size = block_size / 2;
    }
    (max_bytes, block_size)
}

/// The options of heap `i`: its entry in `options`, or the defaults.
pub fn heap_options(options: &AllocatorOptions, i: usize) -> (r: HeapOptions)
    ensures
        r == if i < options.heap_options@.len() {
            options.heap_options@[i as int]
        } else {
            HeapOptions { usage: HeapUsage::Whole, block_size: 0 }
        },
{
    if i < options.heap_options.len() {
        options.heap_options[i]
    } else {
        HeapOptions::default()
    }
}

impl<M> Pool<M> {
    /// An empty pool for heap `heap_idx` of `heap` bytes, sized by `opts`.
    pub fn for_heap(heap_idx: usize, heap: u64, opts: HeapOptions) -> (r: Self)
        ensures
            r.wf(),
            r.spec_heap_idx() == heap_idx,
            (r.spec_max_bytes(), r.spec_block_size()) == heap_sizes(
                heap,
                usage_limit(opts.usage, heap),
                opts.block_size,
            ),
            r.spec_used_bytes() == 0,
            r.spec_next_id() == 0,
            r.spec_blocks().len() == 0,
    {
        let requested = match opts.usage {
            HeapUsage::Forbid => 0,
            HeapUsage::Whole => heap,
            HeapUsage::Upto(n) => n,
        };
        let (max_bytes, block_size) = heap_block_size(heap, requested, opts.block_size);
        Pool::new(heap_idx, max_bytes, block_size)
    }
}

/// One empty pool per heap, heap `i` sized by its options in `options`.
pub fn new_pools<M>(heaps: &Vec<u64>, options: &AllocatorOptions) -> (r: Vec<Pool<M>>)
    ensures
        r@.len() == heaps@.len(),
        forall|i: int|
            0 <= i < r@.len() ==> {
                let p = #[trigger] r@[i];
                let o = if i < options.heap_options@.len() {
                    options.heap_options@[i]
                } else {
                    HeapOptions { usage: HeapUsage::Whole, block_size: 0 }
                };
                &&& p.wf()
                &&& p.spec_heap_idx() == i
                &&& (p.spec_max_bytes(), p.spec_block_size()) == heap_sizes(
                    heaps@[i],
                    usage_limit(o.usage, heaps@[i]),
                    o.block_size,
                )
                &&& p.spec_used_bytes() == 0
                &&& p.spec_next_id() == 0
                &&& p.spec_blocks().len() == 0
            },
{
    let mut pools: Vec<Pool<M>> = Vec::new();
    let n = heaps.len();
    let mut i: usize = 0;
    while i < n
        invariant
            n == heaps@.len(),
            i <= n,
            pools@.len() == i,
            forall|j: int|
                0 <= j < i ==> {
                    let p = #[trigger] pools@[j];
                    let o = if j < options.heap_options@.len() {
                        options.heap_options@[j]
                    } else {
                        HeapOptions { usage: HeapUsage::Whole, block_size: 0 }
                    };
                    &&& p.wf()
                    &&& p.spec_heap_idx() == j
                    &&& (p.spec_max_bytes(), p.spec_block_size()) == heap_sizes(
                        heaps@[j],
                        usage_limit(o.usage, heaps@[j]),
                        o.block_size,
                    )
                    &&& p.spec_used_bytes() == 0
                    &&& p.spec_next_id() == 0
                    &&& p.spec_blocks().len() == 0
                },
        decreases n - i,
    {
        let opts = heap_options(options, i);
        pools.push(Pool::for_heap(i, heaps[i], opts));
        i += 1;
    }
    pools
}

} // verus!
