use vstd::prelude::*;

pub mod action;
pub mod duel;
pub mod laws;
pub mod trial;

verus! {

} // verus!
