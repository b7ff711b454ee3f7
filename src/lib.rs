use vstd::prelude::*;

pub mod color;
pub mod geom;
pub mod render;
pub mod ui;

verus! {

} // verus!
