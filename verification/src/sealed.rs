//! The sealing trait that keeps trust markers inside the library.

use vstd::prelude::*;

verus! {

/// Implemented only by the library's own types, so that traits bounded
/// by it cannot be implemented outside.
pub trait Sealed {
}

} // verus!
