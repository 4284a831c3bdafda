//! Fixed-size raw byte buffers and the parsing trait over them.
//!
//! [`ByteBuf`] wraps a `[u8; N]` destined to be interpreted as some type
//! `T`; [`Raw`] is the trait such a type implements to parse itself out
//! of, and serialize itself into, a fixed-size byte array. Parsed values
//! come back wrapped as untrusted until they are validated.

use vstd::prelude::*;
use vstd::array::ArrayAdditionalExecFns;
use core::marker::PhantomData;
use core::str::FromStr;
use crate::trust::{UntrustedData, Validate, ValidationError};

verus! {

/// A trait for types that convert to and from a fixed-size byte buffer,
/// implemented by users of the library for their own wire formats.
pub trait Raw<const N: usize> where Self: Sized {
    /// Parses a fixed-size buffer, rejecting invalid contents.
    fn from_bytes(bytes: [u8; N]) -> Result<Self, ValidationError>;

    /// Serializes the value into a fixed-size buffer.
    fn to_bytes(&self) -> [u8; N];
}

impl Raw<4> for u32 {
    fn from_bytes(bytes: [u8; 4]) -> Result<Self, ValidationError> {
        Ok(vstd::bytes::u32_from_le_bytes(bytes.as_slice()))
    }

    fn to_bytes(&self) -> [u8; 4] {
        let v = vstd::bytes::u32_to_le_bytes(*self);
        [v[0], v[1], v[2], v[3]]
    }
}

/// A fixed-size byte buffer associated with a raw-parsable type `T`.
#[derive(Debug, Copy, PartialEq, Eq)]
pub struct ByteBuf<T, const N: usize> {
    buf: [u8; N],
    _phantom: PhantomData<T>,
}

impl<T, const N: usize> Clone for ByteBuf<T, N> {
    fn clone(&self) -> (r: Self)
        ensures
            r.spec_bytes() == self.spec_bytes(),
    {
        ByteBuf { buf: self.buf, _phantom: PhantomData }
    }
}

impl<T, const N: usize> ByteBuf<T, N> {
    /// The bytes held.
    pub closed spec fn spec_bytes(&self) -> Seq<u8> {
        self.buf@
    }

    /// Constructs a buffer from its bytes.
    pub fn new(buf: [u8; N]) -> (r: Self)
        ensures
            r.spec_bytes() == buf@,
    {
        ByteBuf { buf, _phantom: PhantomData }
    }

    /// Borrows the inner bytes.
    pub fn as_bytes(&self) -> (r: &[u8; N])
        ensures
            r@ == self.spec_bytes(),
    {
        &self.buf
    }

    /// Consumes the buffer and returns the bytes.
    pub fn into_bytes(self) -> (r: [u8; N])
        ensures
            r@ == self.spec_bytes(),
    {
        self.buf
    }

    /// The buffer's length, which is always `N`.
    pub fn len(&self) -> (r: usize)
        ensures
            r == N,
            r == self.spec_bytes().len(),
    {
        N
    }

    /// Whether every byte is zero.
    pub fn is_empty(&self) -> (r: bool)
        ensures
            r == (forall|i: int| 0 <= i < N ==> self.spec_bytes()[i] == 0u8),
    {
        let mut i: usize = 0;
        while i < N
            invariant
                i <= N,
                forall|j: int| 0 <= j < i ==> self.spec_bytes()[j] == 0u8,
        decreases N - i,
        {
            if *vstd::array::array_index_get(&self.buf, i) != 0u8 {
                proof {
                    assert(self.spec_bytes()[i as int] != 0u8);
                }
                return false;
            }
            i = i + 1;
        }
        true
    }

    /// Rebuilds a buffer from a slice, which must hold exactly `N`
    /// bytes.
    pub fn from_slice(bytes: &[u8]) -> (r: Result<Self, ValidationError>)
        ensures
            match r {
                Ok(b) => bytes@.len() == N && b.spec_bytes() == bytes@,
                Err(_) => bytes@.len() != N,
            },
    {
        if bytes.len() != N {
            return Err(ValidationError);
        }
        let mut buf: [u8; N] = [0u8; N];
        let mut i: usize = 0;
        while i < N
            invariant
                i <= N,
                bytes@.len() == N,
                buf@.len() == N,
                forall|j: int| 0 <= j < i ==> buf@[j] == bytes@[j],
            decreases N - i,
        {
            buf.set(i, *vstd::slice::slice_index_get(bytes, i));
            i = i + 1;
        }
        proof {
            assert(buf@ =~= bytes@);
        }
        Ok(ByteBuf::new(buf))
    }

    /// Parses the buffer into a `T`.
    pub fn parse(self) -> Result<T, ValidationError> where T: Raw<N> {
        T::from_bytes(self.buf)
    }

    /// Views the parsed value as untrusted data.
    pub fn as_untrusted(&self) -> Result<UntrustedData<'_, T>, ValidationError> where T: Raw<N> {
        match T::from_bytes(self.buf) {
            Ok(v) => Ok(UntrustedData::new(v)),
            Err(e) => Err(e),
        }
    }

    /// Parses and validates in one step; whatever comes out has passed
    /// its own validation.
    pub fn try_unpack(&self) -> (r: Result<T, ()>) where T: Raw<N> + Validate
        ensures
            r matches Ok(v) ==> v.spec_valid(),
    {
        let parsed = match T::from_bytes(self.buf) {
            Ok(v) => v,
            Err(_) => {
                return Err(());
            },
        };
        match parsed.validate() {
            Ok(()) => Ok(parsed),
            Err(_) => Err(()),
        }
    }

    /// Interprets the buffer as a sequence of untrusted values of `U`,
    /// one per `M`-byte chunk; the buffer must divide into whole chunks.
    pub fn chunks<U: Raw<M>, const M: usize>(&self) -> (r: Result<Chunks<'_, U, M>,
        ValidationError,
    >)
        ensures
            match r {
                Ok(c) => M > 0 && N as int % M as int == 0 && c.spec_remaining()
                    == self.spec_bytes(),
                Err(_) => M == 0 || N as int % M as int != 0,
            },
    {
        if M == 0 || N % M != 0 {
            return Err(ValidationError);
        }
        Ok(Chunks { buf: self.buf.as_slice(), _phantom: PhantomData })
    }

    /// Peeks the first value of `U` at the front of the buffer, if at
    /// least `M` bytes are there and they parse.
    pub fn peek<U: Raw<M>, const M: usize>(&self) -> (r: Option<UntrustedData<'_, U>>)
        ensures
            N < M ==> r is None,
    {
        if N < M {
            return None;
        }
        let mut tmp: [u8; M] = [0u8; M];
        let mut i: usize = 0;
        while i < M
            invariant
                i <= M,
                M <= N,
                tmp@.len() == M,
            decreases M - i,
        {
            tmp.set(i, *vstd::array::array_index_get(&self.buf, i));
            i = i + 1;
        }
        match U::from_bytes(tmp) {
            Ok(v) => Some(UntrustedData::new(v)),
            Err(_) => None,
        }
    }

    /// Pops the first value of `U` off the front of the buffer, handing
    /// back the value and the remaining tail.
    pub fn pop<U: Raw<M>, const M: usize>(&self) -> (r: Option<(UntrustedData<'_, U>, &[u8])>)
        ensures
            N < M ==> r is None,
            r matches Some((_, tail)) ==> tail@ == self.spec_bytes().skip(M as int),
    {
        if N < M {
            return None;
        }
        let mut tmp: [u8; M] = [0u8; M];
        let mut i: usize = 0;
        while i < M
            invariant
                i <= M,
                M <= N,
                tmp@.len() == M,
            decreases M - i,
        {
            tmp.set(i, *vstd::array::array_index_get(&self.buf, i));
            i = i + 1;
        }
        let tail = vstd::slice::slice_subrange(self.buf.as_slice(), M, N);
        proof {
            assert(tail@ =~= self.spec_bytes().skip(M as int));
        }
        match U::from_bytes(tmp) {
            Ok(v) => Some((UntrustedData::new(v), tail)),
            Err(_) => None,
        }
    }
}

impl<T: Clone, const N: usize> Validate for ByteBuf<T, N> {
    open spec fn spec_valid(&self) -> bool {
        N < 256
    }

    fn validate(&self) -> (r: Result<(), ValidationError>) {
        proof {
            assert(self.spec_valid() == (N < 256));
        }
        if N < 256 {
            Ok(())
        } else {
            Err(ValidationError)
        }
    }
}

impl<T, const N: usize> FromStr for ByteBuf<T, N> {
    type Err = ValidationError;

    fn from_str(s: &str) -> Result<Self, ValidationError> {
        let bytes = s.as_bytes();
        if bytes.len() > N {
            return Err(ValidationError);
        }
        let mut buf: [u8; N] = [0u8; N];
        let mut i: usize = 0;
        let n = bytes.len();
        while i < n
            invariant
                i <= n,
                n <= N,
                buf@.len() == N,
                n == bytes@.len(),
            decreases n - i,
        {
            buf.set(i, *vstd::slice::slice_index_get(bytes, i));
            i = i + 1;
        }
        Ok(ByteBuf::new(buf))
    }
}

/// A cursor over a byte slice that yields untrusted parsed values of
/// `T`, one per `CHUNK`-byte chunk, front to back.
pub struct Chunks<'a, T, const CHUNK: usize> {
    buf: &'a [u8],
    _phantom: PhantomData<T>,
}

impl<'a, T: Raw<CHUNK>, const CHUNK: usize> Chunks<'a, T, CHUNK> {
    /// The bytes not yet consumed.
    pub closed spec fn spec_remaining(&self) -> Seq<u8> {
        self.buf@
    }

    /// Yields the next chunk's parsed value, consuming `CHUNK` bytes.
    /// Ends when fewer than `CHUNK` bytes remain, or when a chunk fails
    /// to parse.
    pub fn next(&mut self) -> (r: Option<UntrustedData<'a, T>>)
        ensures
            match r {
                Some(_) => CHUNK > 0 && old(self).spec_remaining().len() >= CHUNK
                    && final(self).spec_remaining()
                        == old(self).spec_remaining().skip(CHUNK as int),
                None => old(self).spec_remaining().len() < CHUNK
                    || final(self).spec_remaining()
                        == old(self).spec_remaining().skip(CHUNK as int),
            },
    {
        if CHUNK == 0 || self.buf.len() < CHUNK {
            return None;
        }
        let mut tmp: [u8; CHUNK] = [0u8; CHUNK];
        let mut i: usize = 0;
        while i < CHUNK
            invariant
                i <= CHUNK,
                CHUNK <= self.buf@.len(),
                tmp@.len() == CHUNK,
            decreases CHUNK - i,
        {
            tmp.set(i, *vstd::slice::slice_index_get(self.buf, i));
            i = i + 1;
        }
        self.buf = vstd::slice::slice_subrange(self.buf, CHUNK, self.buf.len());
        match T::from_bytes(tmp) {
            Ok(v) => Some(UntrustedData::new(v)),
            Err(_) => None,
        }
    }

    /// Consumes the cursor, counting how many values it still yields:
    /// never more than fit in the remaining bytes.
    pub fn count(self) -> (r: usize)
        ensures
            r as int * (CHUNK as int) <= self.spec_remaining().len() as int,
        {
        let mut this = self;
        let mut n: usize = 0;
        loop
            invariant_except_break
                n as int * (CHUNK as int) + this.spec_remaining().len() as int
                    <= self.spec_remaining().len() as int,
            ensures
                n as int * (CHUNK as int) <= self.spec_remaining().len() as int,
            decreases this.spec_remaining().len(),
        {
            if n == usize::MAX {
                proof {
                    vstd::arithmetic::mul::lemma_mul_inequality(
                        n as int,
                        n as int,
                        CHUNK as int,
                    );
                }
                break ;
            }
            match this.next() {
                Some(_) => {
                    proof {
                        vstd::arithmetic::mul::lemma_mul_is_distributive_add_other_way(
                            CHUNK as int,
                            n as int,
                            1,
                        );
                    }
                    n = n + 1;
                },
                None => {
                    proof {
                        vstd::arithmetic::mul::lemma_mul_inequality(
                            n as int,
                            n as int,
                            CHUNK as int,
                        );
                    }
                    break ;
                },
            }
        }
        n
    }

    /// Consumes the cursor, collecting every value it still yields:
    /// never more than fit in the remaining bytes.
    pub fn collect(self) -> (r: Vec<UntrustedData<'a, T>>)
        ensures
            r@.len() as int * (CHUNK as int) <= self.spec_remaining().len() as int,
        {
        let mut this = self;
        let mut out: Vec<UntrustedData<'a, T>> = Vec::new();
        proof {
            assert(out@.len() == 0);
        }
        loop
            invariant_except_break
                out@.len() as int * (CHUNK as int) + this.spec_remaining().len() as int
                    <= self.spec_remaining().len() as int,
            ensures
                out@.len() as int * (CHUNK as int) <= self.spec_remaining().len() as int,
            decreases this.spec_remaining().len(),
        {
            match this.next() {
                Some(v) => {
                    proof {
                        vstd::arithmetic::mul::lemma_mul_is_distributive_add_other_way(
                            CHUNK as int,
                            out@.len() as int,
                            1,
                        );
                    }
                    out.push(v);
                },
                None => {
                    break ;
                },
            }
        }
        out
    }
}

} // verus!
