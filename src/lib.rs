use vstd::prelude::*;

pub mod annotation;
pub mod record;
pub mod registry;
pub mod transform;
pub mod laws;
pub mod correction;
pub mod path;
pub mod output;

verus! {

} // verus!
