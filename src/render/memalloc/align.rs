use vstd::prelude::*;

verus! {

/// The least multiple of `alignment` that is not below `addr`.
pub open spec fn aligned_up(addr: int, alignment: int) -> int {
    if addr % alignment == 0 {
        addr
    } else {
        addr - addr % alignment + alignment
    }
}

pub proof fn lemma_aligned_up_bounds(addr: int, alignment: int)
    requires
        addr >= 0,
        alignment > 0,
    ensures
        addr <= aligned_up(addr, alignment) < addr + alignment,
        aligned_up(addr, alignment) % alignment == 0,
        0 <= addr % alignment <= addr,
{
    assert(0 <= addr % alignment <= addr) by (nonlinear_arith)
        requires
            addr >= 0,
            alignment > 0,
    ;
    let rem = addr % alignment;
    if rem != 0 {
        let q = addr / alignment;
        assert(addr == q * alignment + rem) by (nonlinear_arith)
            requires
                q == addr / alignment,
                rem == addr % alignment,
                alignment > 0,
        ;
        assert((q + 1) * alignment == q * alignment + alignment) by (nonlinear_arith);
        vstd::arithmetic::div_mod::lemma_mod_multiples_basic(q + 1, alignment);
    }
}

/// Rounds `addr` up to the next multiple of `alignment`, leaving it unchanged
/// when it is already aligned.
pub fn align_up(addr: u64, alignment: u64) -> (r: u64)
    requires
        alignment > 0,
        aligned_up(addr as int, alignment as int) <= u64::MAX,
    ensures
        r == aligned_up(addr as int, alignment as int),
        r % alignment == 0,
        addr <= r < addr + alignment,
{
    proof {
        lemma_aligned_up_bounds(addr as int, alignment as int);
    }
    let rem = addr % alignment;
    if rem == 0 {
        addr
    } else {
        addr - rem + alignment
    }
}

} // verus!
