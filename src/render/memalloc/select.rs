use vstd::prelude::*;

use crate::render::memalloc::{
    AllocControl, AllocOptions, AllocatorOptions, Error, MemoryType, MemoryUsage, COHERENT,
    CPU_CACHED, CPU_VISIBLE, DEVICE_LOCAL,
};

verus! {

/// Bit `i` of `mask` is set.
pub open spec fn mask_has(mask: u64, i: int) -> bool {
    0 <= i < 64 && mask & (1u64 << (i as u64)) != 0
}

/// Number of set bits.
pub open spec fn popcount(x: u16) -> nat
    decreases x,
{
    if x == 0 {
        0
    } else {
        (x % 2) as nat + popcount(x / 2)
    }
}

/// The preferred and required property bits once the usage is taken into
/// account.
pub open spec fn usage_props(usage: Option<MemoryUsage>, preferred: u16, required: u16) -> (u16, u16) {
    match usage {
        None => (preferred, required),
        Some(MemoryUsage::GpuOnly) => (preferred | DEVICE_LOCAL, required),
        Some(MemoryUsage::CpuOnly) => (preferred, required | (CPU_VISIBLE | COHERENT)),
        Some(MemoryUsage::CpuToGpu) => (preferred | DEVICE_LOCAL, required | CPU_VISIBLE),
        Some(MemoryUsage::GpuToCpu) => (preferred | (COHERENT | CPU_CACHED), required | CPU_VISIBLE),
    }
}

/// The mask of allowed type indices after the options' own mask.
pub open spec fn effective_mask(allowed: u64, type_index_mask: u64) -> u64 {
    if type_index_mask != 0 {
        allowed & type_index_mask
    } else {
        allowed
    }
}

/// Type `i` is allowed by `mask` and has every required bit.
pub open spec fn is_candidate(types: Seq<MemoryType>, mask: u64, required: u16, i: int) -> bool {
    &&& 0 <= i < types.len()
    &&& mask_has(mask, i)
    &&& types[i].properties & required == required
}

/// How many preferred bits type `t` has.
pub open spec fn score(t: MemoryType, preferred: u16) -> nat {
    popcount(preferred & t.properties)
}

/// Type `i` is a candidate of the highest score, and the lowest such index.
pub open spec fn is_best(types: Seq<MemoryType>, mask: u64, required: u16, preferred: u16, i: int) -> bool {
    &&& is_candidate(types, mask, required, i)
    &&& forall|j: int|
        is_candidate(types, mask, required, j) ==> score(#[trigger] types[j], preferred) <= score(
            types[i],
            preferred,
        )
    &&& forall|j: int|
        0 <= j < i && is_candidate(types, mask, required, j) ==> score(#[trigger] types[j], preferred)
            < score(types[i], preferred)
}

/// The memory type that an allocation with `options` goes to, among the
/// types allowed by `allowed`: `Some(i)` for the best one, `None` when no type
/// qualifies.
pub open spec fn selected(types: Seq<MemoryType>, allowed: u64, options: AllocOptions, r: Option<usize>) -> bool {
    let (preferred, required) = usage_props(
        options.usage,
        options.preferred_props,
        options.required_props,
    );
    let mask = effective_mask(allowed, options.type_index_mask);
    match r {
        Some(i) => is_best(types, mask, required, preferred, i as int),
        None => forall|i: int| !is_candidate(types, mask, required, i),
    }
}

pub proof fn lemma_popcount_bound(x: u16)
    ensures
        popcount(x) <= x,
    decreases x,
{
    if x != 0 {
        lemma_popcount_bound(x / 2);
    }
}

/// Number of set bits of `x`.
pub fn count_ones(x: u16) -> (r: u32)
    ensures
        r == popcount(x),
{
    let mut v: u16 = x;
    let mut c: u32 = 0;
    proof {
        lemma_popcount_bound(x);
    }
    while v != 0
        invariant
            c + popcount(v) == popcount(x),
            popcount(x) <= 0xffff,
        decreases v,
    {
        c = c + (v % 2) as u32;
        v = v / 2;
    }
    c
}

/// The preferred and required bits of `options`, its usage included.
pub fn effective_props(options: &AllocOptions) -> (r: (u16, u16))
    ensures
        r == usage_props(options.usage, options.preferred_props, options.required_props),
{
    let preferred = options.preferred_props;
    let required = options.required_props;
    match options.usage {
        None => (preferred, required),
        Some(MemoryUsage::GpuOnly) => (preferred | DEVICE_LOCAL, required),
        Some(MemoryUsage::CpuOnly) => (preferred, required | (CPU_VISIBLE | COHERENT)),
        Some(MemoryUsage::CpuToGpu) => (preferred | DEVICE_LOCAL, required | CPU_VISIBLE),
        Some(MemoryUsage::GpuToCpu) => (preferred | (COHERENT | CPU_CACHED), required | CPU_VISIBLE),
    }
}

/// Picks the memory type for an allocation: among the types allowed by
/// `allowed_mask` (and the options' mask, when not zero) that have every
/// required bit, the one with the most preferred bits, the lowest index
/// winning ties.
pub fn find_mem_type_index(types: &Vec<MemoryType>, allowed_mask: u64, options: &AllocOptions) -> (r: Option<usize>)
    ensures
        selected(types@, allowed_mask, *options, r),
{
    let mask = if options.type_index_mask != 0 {
        allowed_mask & options.type_index_mask
    } else {
        allowed_mask
    };
    let (preferred, required) = effective_props(options);
    let n = types.len();
    let mut best: Option<(usize, u32)> = None;
    let mut i: usize = 0;
    while i < n && i < 64
        invariant
            n == types@.len(),
            i <= n,
            i <= 64,
            mask == effective_mask(allowed_mask, options.type_index_mask),
            (preferred, required) == usage_props(options.usage, options.preferred_props, options.required_props),
            match best {
                Some((b, sc)) => b < i && sc == score(types@[b as int], preferred) && is_candidate(types@, mask, required, b as int)
                    && (forall|j: int| 0 <= j < i && is_candidate(types@, mask, required, j) ==> score(#[trigger] types@[j], preferred) <= sc)
                    && (forall|j: int| 0 <= j < b && is_candidate(types@, mask, required, j) ==> score(#[trigger] types@[j], preferred) < sc),
                None => forall|j: int| 0 <= j < i ==> !is_candidate(types@, mask, required, j),
            },
        decreases n - i,
    {
        let bit: u64 = 1u64 << (i as u64);
        let props = types[i].properties;
        if mask & bit != 0 && props & required == required {
            let sc = count_ones(preferred & props);
            best = match best {
                None => Some((i, sc)),
                Some((b, bsc)) => if sc > bsc {
                    Some((i, sc))
                } else {
                    Some((b, bsc))
                },
            };
        }
        i += 1;
    }
    match best {
        None => None,
        Some((b, _)) => Some(b),
    }
}

/// With one candidate that scores above every other candidate, selection
/// picks it, whatever its index.
pub proof fn lemma_highest_score_wins(
    types: Seq<MemoryType>,
    allowed: u64,
    options: AllocOptions,
    i: int,
    r: Option<usize>,
)
    requires
        ({
            let (preferred, required) = usage_props(
                options.usage,
                options.preferred_props,
                options.required_props,
            );
            let mask = effective_mask(allowed, options.type_index_mask);
            &&& is_candidate(types, mask, required, i)
            &&& forall|j: int|
                j != i && is_candidate(types, mask, required, j) ==> score(#[trigger] types[j], preferred)
                    < score(types[i], preferred)
        }),
        selected(types, allowed, options, r),
    ensures
        r == Some(i as usize),
{
    let (preferred, required) = usage_props(
        options.usage,
        options.preferred_props,
        options.required_props,
    );
    let mask = effective_mask(allowed, options.type_index_mask);
    match r {
        Some(b) => {
            if b as int != i {
                assert(score(types[i], preferred) <= score(types[b as int], preferred));
                assert(score(types[b as int], preferred) < score(types[i], preferred));
            }
        },
        None => {
            assert(!is_candidate(types, mask, required, i));
        },
    }
}

/// Why an allocation attempt failed: the device refused the memory, or the
/// allocator's own rules did.
#[derive(Debug)]
pub enum CommonError<E> {
    Alloc(E),
    Error(Error),
}

/// The search for a memory type that an allocation can be served from: each
/// type that fails is taken out of the allowed mask, and the search ends when
/// an attempt succeeds or no allowed type is left.
pub struct TypeSearch<E> {
    allowed_mask: u64,
    last_error: Option<CommonError<E>>,
}

impl<E> TypeSearch<E> {
    pub closed spec fn spec_allowed_mask(&self) -> u64 {
        self.allowed_mask
    }

    pub closed spec fn spec_last_error(&self) -> Option<CommonError<E>> {
        self.last_error
    }

    /// A search over the types of `type_mask`, with no failure seen yet.
    pub fn new(type_mask: u64) -> (r: Self)
        ensures
            r.spec_allowed_mask() == type_mask,
            r.spec_last_error() is None,
    {
        TypeSearch { allowed_mask: type_mask, last_error: None }
    }

    pub fn allowed_mask(&self) -> (r: u64)
        ensures
            r == self.spec_allowed_mask(),
    {
        self.allowed_mask
    }

    /// The next memory type to try, or `None` when the search is over.
    pub fn next_type(&self, types: &Vec<MemoryType>, options: &AllocOptions) -> (r: Option<usize>)
        ensures
            self.spec_allowed_mask() == 0 ==> r is None,
            self.spec_allowed_mask() != 0 ==> selected(types@, self.spec_allowed_mask(), *options, r),
    {
        if self.allowed_mask == 0 {
            None
        } else {
            find_mem_type_index(types, self.allowed_mask, options)
        }
    }

    /// Records that an attempt on type `idx` failed with `err`, and takes
    /// `idx` out of the allowed types.
    pub fn fail(&mut self, idx: usize, err: CommonError<E>)
        requires
            idx < 64,
        ensures
            final(self).spec_allowed_mask() == old(self).spec_allowed_mask() & !(1u64 << (idx as u64)),
            forall|j: int|
                0 <= j < 64 ==> (mask_has(final(self).spec_allowed_mask(), j) <==> (mask_has(
                    old(self).spec_allowed_mask(),
                    j,
                ) && j != idx)),
            final(self).spec_last_error() == Some(err),
    {
        let old_mask = self.allowed_mask;
        self.allowed_mask = self.allowed_mask & !(1u64 << (idx as u64));
        proof {
            let m = self.allowed_mask;
            let i = idx as u64;
            assert forall|j: u64| j < 64 implies ((m & (1u64 << j)) != 0) <==> ((old_mask & (1u64 << j)) != 0 && j != i) by {
                assert(m == old_mask & !(1u64 << i));
                assert(i < 64);
                assert(((old_mask & !(1u64 << i)) & (1u64 << j)) != 0 <==> ((old_mask & (1u64 << j)) != 0 && j != i)) by (bit_vector)
                    requires
                        i < 64,
                        j < 64,
                ;
            }
            assert forall|j: int| 0 <= j < 64 implies (mask_has(m, j) <==> (mask_has(old_mask, j) && j != idx)) by {
                let ju = j as u64;
                assert(((m & (1u64 << ju)) != 0) <==> ((old_mask & (1u64 << ju)) != 0 && ju != i));
            }
        }
        self.last_error = Some(err);
    }

    /// The error that the allocation fails with once the search is over: the
    /// last failure seen, or `HeapExhausted` when there was none.
    pub fn into_error(self) -> (r: CommonError<E>)
        ensures
            r == match self.spec_last_error() {
                Some(e) => e,
                None => CommonError::Error(Error::HeapExhausted),
            },
    {
        match self.last_error {
            Some(e) => e,
            None => CommonError::Error(Error::HeapExhausted),
        }
    }
}

impl AllocatorOptions {
    /// The control that an allocation with `options` uses: `Dedicated` when the
    /// allocator is set to dedicated allocations, else the options' own.
    pub fn control_for(&self, options: &AllocOptions) -> (r: AllocControl)
        ensures
            r == if self.dedicated {
                AllocControl::Dedicated
            } else {
                options.control
            },
    {
        if self.dedicated {
            AllocControl::Dedicated
        } else {
            options.control
        }
    }
}

} // verus!
