use vstd::prelude::*;

pub mod layout;

verus! {

} // verus!
