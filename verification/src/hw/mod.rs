use vstd::prelude::*;

pub mod extensions;
pub mod holly;
pub mod sh4;

verus! {

} // verus!
