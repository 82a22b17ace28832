use vstd::prelude::*;

pub mod error;
pub mod identity;
pub mod instructions;
pub mod laws;
pub mod split;
pub mod state;

verus! {

} // verus!
