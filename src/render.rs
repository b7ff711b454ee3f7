use vstd::prelude::*;

pub mod memalloc;
pub mod rect;
pub mod services;

verus! {

} // verus!
