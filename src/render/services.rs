use vstd::prelude::*;

verus! {

/// Whether a buffer of `cur_size` bytes should be replaced to hold
/// `needed_size` bytes: when it is too small, or more than twice too large.
pub fn must_realloc(cur_size: u64, needed_size: u64) -> (r: bool)
    ensures
        r == (cur_size < needed_size || cur_size > 2 * needed_size),
{
    cur_size < needed_size || (needed_size <= u64::MAX / 2 && cur_size > 2 * needed_size)
}

} // verus!
