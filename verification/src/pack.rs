//! Binary packing and unpacking at the trust boundary.
//!
//! The traits here are implemented by users of the library: how a type
//! lays itself out in bytes is that type's own business. The buffer
//! wrappers carry the bytes across the boundary — [`PackRef`] owns the
//! destination a value is packed into, [`UnpackBuf`] borrows the source
//! a value is unpacked from.

use vstd::prelude::*;
use crate::trust::{TrustedData, ValidationError};

verus! {

/// An output buffer for packing: a fixed number of byte slots a value
/// is serialized into.
#[derive(Debug)]
pub struct PackRef {
    buf: Vec<u8>,
}

impl PackRef {
    /// The bytes currently held.
    pub closed spec fn spec_bytes(&self) -> Seq<u8> {
        self.buf@
    }

    /// Creates a zero-filled output buffer of `len` slots.
    pub fn new(len: usize) -> (r: Self)
        ensures
            r.spec_bytes().len() == len,
            forall|i: int| 0 <= i < len ==> r.spec_bytes()[i] == 0u8,
    {
        let mut buf: Vec<u8> = Vec::new();
        let mut i: usize = 0;
        while i < len
            invariant
                i <= len,
                buf@.len() == i,
                forall|j: int| 0 <= j < i ==> buf@[j] == 0u8,
            decreases len - i,
        {
            buf.push(0u8);
            i = i + 1;
        }
        PackRef { buf }
    }

    /// Mutable access to the byte slots, for the packing code to fill.
    pub fn ref_mut(&mut self) -> (r: &mut Vec<u8>)
        ensures
            r@ == old(self).spec_bytes(),
            final(self).spec_bytes() == final(r)@,
    {
        &mut self.buf
    }

    /// The packed bytes, read back.
    pub fn as_slice(&self) -> (r: &[u8])
        ensures
            r@ == self.spec_bytes(),
    {
        self.buf.as_slice()
    }

    /// Consumes the buffer and hands the packed bytes out.
    pub fn into_bytes(self) -> (r: Vec<u8>)
        ensures
            r@ == self.spec_bytes(),
    {
        let PackRef { buf } = self;
        buf
    }
}

/// An input buffer for unpacking: a borrowed view of the bytes a value
/// is deserialized from.
#[derive(Debug, Clone, Copy)]
pub struct UnpackBuf<'a> {
    buf: &'a [u8],
}

impl<'a> UnpackBuf<'a> {
    /// The bytes in view.
    pub closed spec fn spec_bytes(&self) -> Seq<u8> {
        self.buf@
    }

    /// Wraps a byte slice for unpacking.
    pub fn new(buf: &'a [u8]) -> (r: Self)
        ensures
            r.spec_bytes() == buf@,
    {
        UnpackBuf { buf }
    }

    /// The bytes in view, as a slice.
    pub fn as_slice(&self) -> (r: &'a [u8])
        ensures
            r@ == self.spec_bytes(),
    {
        self.buf
    }

    /// How many bytes are in view.
    pub fn len(&self) -> (r: usize)
        ensures
            r == self.spec_bytes().len(),
    {
        self.buf.len()
    }
}

/// Trait for types that can pack themselves into an output buffer.
pub trait Pack {
    /// Serializes `self` into the given buffer, reporting a validation
    /// error when the buffer does not fit the type's layout.
    fn pack(&self, out: &mut PackRef) -> Result<(), ValidationError>;

    /// Compresses `self` into the given buffer; by default plain
    /// packing, for types with no tighter encoding.
    fn compress(&self, out: &mut PackRef) -> Result<(), ValidationError> {
        self.pack(out)
    }
}

/// Trait for types that can unpack themselves from an input buffer,
/// validating as they go: only a value that passes its own validation
/// comes back, already wrapped as trusted.
pub trait Unpack where Self: Sized {
    /// Deserializes a value from the buffer and validates it.
    fn unpack_and_validate(input: UnpackBuf<'_>) -> Result<TrustedData<'_, Self>, ValidationError>;

    /// Decompresses a value from the buffer; by default plain
    /// unpacking, for types with no tighter encoding.
    fn decompress(input: UnpackBuf<'_>) -> Result<TrustedData<'_, Self>, ValidationError> {
        Self::unpack_and_validate(input)
    }
}

/// A wrapper marking data as packed; holds a reference to the value.
pub struct Packed<'a, T: Pack + Unpack> {
    data: &'a T,
}

impl<'a, T: Pack + Unpack> Packed<'a, T> {
    /// The value referred to.
    pub closed spec fn spec_data(&self) -> T {
        *self.data
    }

    /// Wraps a reference to a packed value.
    pub fn new(data: &'a T) -> (r: Self)
        ensures
            r.spec_data() == *data,
    {
        Packed { data }
    }

    /// The value referred to.
    pub fn as_ref(&self) -> (r: &'a T)
        ensures
            *r == self.spec_data(),
    {
        self.data
    }
}

/// A wrapper marking data as unpacked; holds a reference to the value.
pub struct Unpacked<'a, T: Pack + Unpack> {
    data: &'a T,
}

impl<'a, T: Pack + Unpack> Unpacked<'a, T> {
    /// The value referred to.
    pub closed spec fn spec_data(&self) -> T {
        *self.data
    }

    /// Wraps a reference to an unpacked value.
    pub fn new(data: &'a T) -> (r: Self)
        ensures
            r.spec_data() == *data,
    {
        Unpacked { data }
    }

    /// The value referred to.
    pub fn as_ref(&self) -> (r: &'a T)
        ensures
            *r == self.spec_data(),
    {
        self.data
    }
}

} // verus!
