use vstd::prelude::*;

pub mod counters;
pub mod device;
pub mod laws;
pub mod pbp;
pub mod requests;

verus! {

} // verus!
