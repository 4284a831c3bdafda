//! General-purpose soundness traits: self-validation with optional
//! context, staged preparation, and data sources.

use vstd::prelude::*;
use crate::BrinyError;

verus! {

/// A trait to validate a value and confirm trust on the caller, with an
/// optional context parameter for validators that need one.
///
/// Every method has a conservative default: a type that overrides
/// nothing rejects everything.
pub trait Validate<C = ()> where Self: Sized {
    /// Validates the value, handing back a copy on success.
    fn validate(&self) -> Result<Self, BrinyError> {
        Err(BrinyError::bad_buffer())
    }

    /// Context-aware validation; by default the context is ignored.
    fn validate_with(&self, _ctx: C) -> Result<Self, BrinyError> {
        self.validate()
    }

    /// Whether validation fails, as a plain truth value.
    fn try_validate(&self) -> bool {
        match self.validate() {
            Ok(_) => false,
            Err(_) => true,
        }
    }
}

/// A trait for values that may not always be ready for arbitrary
/// changes: mutate through [`Prepared::prepare`], then read the final
/// form off with [`Prepared::finalize`].
pub trait Prepared<T = ()> {
    /// Borrows mutably to adjust the value ahead of finalization.
    fn prepare(&mut self);

    /// Computes the final data from a prepared value.
    fn finalize(&self) -> T;
}

/// A trait to fetch data from an arbitrary source.
pub trait Source<T> {
    /// Fetches a reference from the data source.
    fn fetch(&self) -> &T;

    /// Initializes the data source; by default there is nothing to do.
    fn init(&mut self) {
    }

    /// Fetches a reference given specific context; by default the
    /// context is ignored.
    fn fetch_with<U>(&self, _ctx: U) -> &T {
        self.fetch()
    }
}

} // verus!
