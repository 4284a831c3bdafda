//! Marker traits that classify types by their memory characteristics.
//!
//! These carry no operations of their own: they let users of the
//! library state, per type, which handling disciplines are sound, and
//! gate generic code on those statements.

use vstd::prelude::*;

verus! {

/// Marker for types with a consistent, stable layout in memory.
pub trait StableLayout {
}

impl StableLayout for u8 {}

impl StableLayout for i8 {}

impl StableLayout for u16 {}

impl StableLayout for i16 {}

impl StableLayout for u32 {}

impl StableLayout for i32 {}

impl StableLayout for u64 {}

impl StableLayout for i64 {}

impl StableLayout for bool {}

/// Marker for types that are not interiorly mutable: nothing reachable
/// through a shared reference to them can change.
pub trait InteriorImmutable {
}

impl InteriorImmutable for u8 {}

impl InteriorImmutable for i8 {}

impl InteriorImmutable for u16 {}

impl InteriorImmutable for i16 {}

impl InteriorImmutable for u32 {}

impl InteriorImmutable for i32 {}

impl InteriorImmutable for u64 {}

impl InteriorImmutable for i64 {}

impl InteriorImmutable for bool {}

/// Marker for interiorly mutable types, the complement of
/// [`InteriorImmutable`]: a type whose value can change behind a shared
/// reference, such as a cell guarded by its own accounting.
pub trait Writable {
}

impl<T> Writable for crate::cell::NotUnsafeCell<T> {}

/// Marker for types subject to the null-pointer optimization: the
/// all-zero pattern is never a value of theirs.
pub trait NonNullable {
}

/// Marker for types whose values can be moved to and from plain bytes
/// without ever producing an unsound value.
pub trait RawConvert {
}

impl RawConvert for u8 {}

impl RawConvert for i8 {}

impl RawConvert for u16 {}

impl RawConvert for i16 {}

impl RawConvert for u32 {}

impl RawConvert for i32 {}

impl RawConvert for u64 {}

impl RawConvert for i64 {}

impl RawConvert for bool {}

/// Marker for types aligned exactly to one byte.
pub trait Unaligned {
}

impl Unaligned for u8 {}

impl Unaligned for i8 {}

impl Unaligned for bool {}

} // verus!
