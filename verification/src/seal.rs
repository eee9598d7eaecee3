//! Keeps the marker traits of this crate closed to other crates.

use vstd::prelude::*;

verus! {

/// Implemented for the marker types of this crate and for nothing else.
pub trait Sealed {

}

} // verus!
