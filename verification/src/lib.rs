//! A substrate for turning raw byte buffers into typed values only when
//! size, alignment and bit-pattern validity are all established, and for
//! sharing such values through runtime-checked borrow and reference-count
//! primitives that never touch a heap allocator.

use vstd::prelude::*;

pub mod casting;
pub mod cell;
pub mod darc;
pub mod naarc;
pub mod pack;
pub mod prelude;
pub mod raw;
pub mod sealed;
pub mod traits;
pub mod trust;
pub mod valid;

verus! {

/// Bit for an error caused by a rejected bit pattern.
pub const INVALID_BITPATTERN_CODE: u8 = 0x01;

/// Bit for an error caused by a size mismatch.
pub const SIZE_BOUND_FAILURE_CODE: u8 = 0x02;

/// Bit for an error caused by a misaligned base address.
pub const UNALIGNED_ACCESS_CODE: u8 = 0x04;

/// Bit for an error caused by a buffer unfit for its use.
pub const BAD_BUFFER_CODE: u8 = 0x08;

/// Bit for an error caused by a contended borrow.
pub const BORROW_CONFLICT_CODE: u8 = 0x10;

/// A composable error for anything that goes wrong internally.
///
/// Common cases include:
///
/// - raw data has an invalid bit pattern
/// - memory is unaligned
/// - buffers have incorrect sizes
///
/// Several failure reasons can hold at once; they combine as a bit set,
/// and the empty set (code 0) means that nothing went wrong.
#[derive(Debug, Clone, Copy, PartialEq, Eq, Structural)]
pub struct BrinyError {
    code: u8,
}

impl BrinyError {
    /// The set of failure reasons, one bit each.
    pub closed spec fn spec_code(self) -> u8 {
        self.code
    }

    /// Holds when the error carries at least one failure reason.
    pub open spec fn spec_is_err(self) -> bool {
        self.spec_code() != 0
    }

    /// Constructs an error from a bit set of failure reasons.
    pub fn new(code: u8) -> (r: Self)
        ensures
            r.spec_code() == code,
    {
        BrinyError { code }
    }

    /// The reserved empty error: no failure reason at all.
    pub fn reserved() -> (r: Self)
        ensures
            r.spec_code() == 0,
    {
        BrinyError { code: 0 }
    }

    /// An error carrying only the invalid-bit-pattern reason.
    pub fn invalid_bitpattern() -> (r: Self)
        ensures
            r.spec_code() == INVALID_BITPATTERN_CODE,
    {
        BrinyError { code: INVALID_BITPATTERN_CODE }
    }

    /// An error carrying only the size-mismatch reason.
    pub fn size_bound_failure() -> (r: Self)
        ensures
            r.spec_code() == SIZE_BOUND_FAILURE_CODE,
    {
        BrinyError { code: SIZE_BOUND_FAILURE_CODE }
    }

    /// An error carrying only the misalignment reason.
    pub fn unaligned_access() -> (r: Self)
        ensures
            r.spec_code() == UNALIGNED_ACCESS_CODE,
    {
        BrinyError { code: UNALIGNED_ACCESS_CODE }
    }

    /// An error carrying only the unfit-buffer reason.
    pub fn bad_buffer() -> (r: Self)
        ensures
            r.spec_code() == BAD_BUFFER_CODE,
    {
        BrinyError { code: BAD_BUFFER_CODE }
    }

    /// An error carrying only the contended-borrow reason.
    pub fn borrow_conflict() -> (r: Self)
        ensures
            r.spec_code() == BORROW_CONFLICT_CODE,
    {
        BrinyError { code: BORROW_CONFLICT_CODE }
    }

    /// Unites the failure reasons of two errors.
    pub fn add(self, rhs: Self) -> (r: Self)
        ensures
            r.spec_code() == (self.spec_code() | rhs.spec_code()),
    {
        BrinyError { code: self.code | rhs.code }
    }

    /// The bit set of failure reasons, as a byte.
    pub fn code(&self) -> (r: u8)
        ensures
            r == self.spec_code(),
    {
        self.code
    }

    /// Whether the error carries any failure reason.
    ///
    /// This returns `false` if and only if the reason set is empty.
    pub fn is_err(self) -> (r: bool)
        ensures
            r == self.spec_is_err(),
    {
        self.code != 0
    }

    /// Whether the reasons include an unaligned access.
    pub fn is_unaligned_access(self) -> (r: bool)
        ensures
            r == ((self.spec_code() & UNALIGNED_ACCESS_CODE) != 0),
    {
        (self.code & UNALIGNED_ACCESS_CODE) != 0
    }

    /// Whether the reasons include an unfit buffer.
    pub fn is_bad_buffer(self) -> (r: bool)
        ensures
            r == ((self.spec_code() & BAD_BUFFER_CODE) != 0),
    {
        (self.code & BAD_BUFFER_CODE) != 0
    }

    /// Whether the reasons include an invalid bit pattern.
    pub fn is_invalid_bitpattern(self) -> (r: bool)
        ensures
            r == ((self.spec_code() & INVALID_BITPATTERN_CODE) != 0),
    {
        (self.code & INVALID_BITPATTERN_CODE) != 0
    }

    /// Whether the reasons include a size mismatch.
    pub fn is_size_bound_failure(self) -> (r: bool)
        ensures
            r == ((self.spec_code() & SIZE_BOUND_FAILURE_CODE) != 0),
    {
        (self.code & SIZE_BOUND_FAILURE_CODE) != 0
    }
}

/// A simple marker for types that are safe to view as plain memory in
/// most situations.
pub trait SafeMemory {
}

impl SafeMemory for u8 {}

impl SafeMemory for u16 {}

impl SafeMemory for u32 {}

impl SafeMemory for u64 {}

impl SafeMemory for i8 {}

impl SafeMemory for i16 {}

impl SafeMemory for i32 {}

impl SafeMemory for i64 {}

} // verus!
