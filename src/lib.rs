use vstd::prelude::*;

pub mod buffer;
pub mod character;
pub mod laws;
pub mod writer;

verus! {

} // verus!
