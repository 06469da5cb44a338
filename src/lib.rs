use vstd::prelude::*;

pub mod instance;
pub mod layout;
pub mod material;
pub mod mesh;
pub mod pipeline;
pub mod state;
pub mod surface;

verus! {

} // verus!
