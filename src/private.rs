use vstd::prelude::*;

verus! {

/// Closes the set of types that may stand for a resolved function: nothing
/// outside this crate can implement it.
pub trait Sealed {}

} // verus!
