use vstd::prelude::*;

pub mod rom;
pub mod session;
pub mod status;

verus! {

} // verus!
