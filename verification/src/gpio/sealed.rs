use vstd::prelude::*;

verus! {

/// Marker trait that show if `ExtiPin` can be implemented
pub trait Interruptable {}

} // verus!
