//! Trust-boundary types for zero-trust data handling.
//!
//! External data always arrives as [`UntrustedData`]; only a value that
//! passes its own [`Validate`] check can be wrapped as [`TrustedData`],
//! and nothing outside this module can forge that wrapper: a trusted
//! wrapper exists for a value if and only if the value satisfied its
//! validity predicate at construction.

use vstd::prelude::*;
use core::marker::PhantomData;
use crate::pack::{Pack, PackRef, Unpack, UnpackBuf};

verus! {

/// Validation failure: the value did not satisfy its own invariants.
#[derive(Debug, Clone, Copy, PartialEq, Eq, Structural)]
pub struct ValidationError;

/// A trait for types that know how to validate their own invariants.
///
/// The specification-level predicate [`Validate::spec_valid`] says which
/// values count as valid; the runtime check must decide exactly that
/// predicate. The optional context parameter admits validators that need
/// outside information.
pub trait Validate<C = ()> {
    /// Which values are valid. The default says nothing; an
    /// implementation that wants the trust boundary's contracts to mean
    /// something overrides it to match its runtime check.
    open spec fn spec_valid(&self) -> bool {
        arbitrary()
    }

    /// Decides validity, reporting a [`ValidationError`] for the rest.
    fn validate(&self) -> (r: Result<(), ValidationError>)
        ensures
            r is Ok <==> self.spec_valid(),
    ;

    /// Context-aware validation; by default the context is ignored.
    fn validate_with(&self, _ctx: &C) -> Result<(), ValidationError> {
        self.validate()
    }
}

/// Marker trait for values that have not been validated yet. It can be
/// implemented freely, and gates logic that must never run on checked
/// data.
pub trait Untrusted {
}

/// Wrapper for input from external, untrusted sources.
///
/// It holds the value together with a phantom lifetime anchoring it to
/// the context it came from, and releases it only for inspection or for
/// an explicit attempt to cross the trust boundary.
#[derive(Debug)]
pub struct UntrustedData<'a, T> {
    value: T,
    _marker: PhantomData<&'a ()>,
}

impl<'a, T> UntrustedData<'a, T> {
    /// The value carried.
    pub closed spec fn spec_value(&self) -> T {
        self.value
    }

    /// Wraps a value as untrusted.
    pub fn new(value: T) -> (r: Self)
        ensures
            r.spec_value() == value,
    {
        UntrustedData { value, _marker: PhantomData }
    }

    /// Borrows the value, still untrusted.
    pub fn as_ref(&self) -> (r: &T)
        ensures
            *r == self.spec_value(),
    {
        &self.value
    }

    /// Tries to cross the trust boundary: succeeds, yielding a trusted
    /// wrapper around the same value, exactly when the value is valid.
    pub fn trust(self) -> (r: Result<TrustedData<'a, T>, ValidationError>) where T: Validate
        ensures
            match r {
                Ok(td) => self.spec_value().spec_valid() && td.spec_value() == self.spec_value(),
                Err(_) => !self.spec_value().spec_valid(),
            },
    {
        let UntrustedData { value, _marker } = self;
        TrustedData::new(value)
    }
}

impl<'a, T> Untrusted for UntrustedData<'a, T> {
}

/// Wrapper for data that has passed validation.
///
/// This is the only way to hold a value as trusted, and it cannot be
/// constructed without passing the value's own validation.
#[derive(Debug)]
pub struct TrustedData<'a, T> {
    inner: T,
    _marker: PhantomData<&'a ()>,
}

impl<'a, T> TrustedData<'a, T> {
    /// The value carried.
    pub closed spec fn spec_value(&self) -> T {
        self.inner
    }

    /// Validates the value and, exactly when it is valid, wraps it as
    /// trusted.
    pub fn new(value: T) -> (r: Result<Self, ValidationError>) where T: Validate
        ensures
            match r {
                Ok(td) => value.spec_valid() && td.spec_value() == value,
                Err(_) => !value.spec_valid(),
            },
    {
        match value.validate() {
            Ok(()) => Ok(TrustedData { inner: value, _marker: PhantomData }),
            Err(e) => Err(e),
        }
    }

    /// Borrows the trusted value.
    pub fn as_ref(&self) -> (r: &T)
        ensures
            *r == self.spec_value(),
    {
        &self.inner
    }

    /// Borrows the trusted value.
    pub fn get(&self) -> (r: &T)
        ensures
            *r == self.spec_value(),
    {
        &self.inner
    }

    /// Consumes the wrapper and hands the trusted value out.
    pub fn into_inner(self) -> (r: T)
        ensures
            r == self.spec_value(),
    {
        let TrustedData { inner, _marker } = self;
        inner
    }

    /// Serializes the trusted value through its own packing.
    pub fn pack(&self, out: &mut PackRef) -> Result<(), ValidationError> where T: Pack {
        self.inner.pack(out)
    }

    /// Deserializes and validates a value from the given input buffer.
    pub fn unpack(input: UnpackBuf<'a>) -> Result<Self, ValidationError> where T: Unpack {
        T::unpack_and_validate(input)
    }

    /// Re-checks whether the value is still valid; useful after a long
    /// life or a transformation elsewhere.
    pub fn is_valid(&self) -> (r: bool) where T: Validate
        ensures
            r == self.spec_value().spec_valid(),
    {
        match self.inner.validate() {
            Ok(()) => true,
            Err(_) => false,
        }
    }

    /// Transforms the value while preserving the trust boundary: the
    /// transformed value is validated anew, and only wrapped again
    /// exactly when it passes.
    pub fn try_map<U: Validate, F: FnOnce(T) -> U>(self, f: F) -> (r: Result<
        TrustedData<'a, U>,
        ValidationError,
    >)
        requires
            f.requires((self.spec_value(),)),
        ensures
            match r {
                Ok(td) => f.ensures((self.spec_value(),), td.spec_value())
                    && td.spec_value().spec_valid(),
                Err(_) => exists|u: U| f.ensures((self.spec_value(),), u) && !u.spec_valid(),
            },
    {
        let TrustedData { inner, _marker } = self;
        let result = f(inner);
        TrustedData::new(result)
    }
}

/// Marker trait for values that have passed validation; only the
/// library's own trusted wrapper implements it, so external code cannot
/// mark data as trusted by fiat.
pub trait Trusted: crate::sealed::Sealed {
}

impl<'a, T: Validate> crate::sealed::Sealed for TrustedData<'a, T> {
}

impl<'a, T: Validate> Trusted for TrustedData<'a, T> {
}

impl<'a, T: Validate> Validate for UntrustedData<'a, T> {
    open spec fn spec_valid(&self) -> bool {
        self.spec_value().spec_valid()
    }

    fn validate(&self) -> (r: Result<(), ValidationError>) {
        let r = self.value.validate();
        proof {
            assert(r is Ok <==> self.value.spec_valid());
            assert(self.spec_valid() == self.value.spec_valid());
        }
        r
    }
}

impl<'a, T: Validate> Validate for TrustedData<'a, T> {
    open spec fn spec_valid(&self) -> bool {
        self.spec_value().spec_valid()
    }

    fn validate(&self) -> (r: Result<(), ValidationError>) {
        let r = self.inner.validate();
        proof {
            assert(r is Ok <==> self.inner.spec_valid());
            assert(self.spec_valid() == self.inner.spec_valid());
        }
        r
    }
}

/// Trait for types that can be built from untrusted input, validating
/// on the way in.
pub trait TrustFrom<'a, T>: Sized {
    /// Converts untrusted input into a trusted value of `Self`.
    fn trust_from(input: UntrustedData<'a, T>) -> Result<TrustedData<'a, Self>, ValidationError>;
}

} // verus!
