use vstd::prelude::*;

pub mod angle;
pub mod clock;
pub mod geometry;
pub mod render_loop;

verus! {

} // verus!
