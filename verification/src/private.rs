//! Sealing: traits that only types of this crate implement.
use vstd::prelude::*;

verus! {

/// A trait that only types of this crate implement.
pub trait Sealed {
}

} // verus!
