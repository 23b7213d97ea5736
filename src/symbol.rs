use vstd::prelude::*;
use crate::private::Sealed;

verus! {

/// Marks the types a resolved function address may be read as: function
/// pointers with the C calling convention, each the size of an address.
pub trait UnsafeFunctionPointer: Sealed + Copy {}

} // verus!
