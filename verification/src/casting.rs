//! Conversions between byte buffers and typed values, guarded by size,
//! alignment and bit-pattern checks.
//!
//! A buffer is described by its contents together with the base address at
//! which it starts; alignment is judged against that base address. Nothing
//! here reinterprets memory in place: every conversion is an explicit,
//! checked copy.

use vstd::prelude::*;
use crate::{BrinyError, INVALID_BITPATTERN_CODE, SIZE_BOUND_FAILURE_CODE, UNALIGNED_ACCESS_CODE,
    BAD_BUFFER_CODE};

verus! {

/// Plain-old-data: a type with a fixed byte-level representation.
///
/// An implementation fixes the size and alignment of the type, the byte
/// representation of each value, and a predicate telling which size-long
/// bit patterns denote values at all. The contracts pin the
/// representation down: it always has the declared size, it always
/// satisfies the type's own validity predicate, and it determines the
/// value, so that decoding the bytes of a value gives that value back.
/// The specification functions default to saying nothing; an
/// implementation that wants the conversion contracts to mean something
/// overrides them.
pub trait Pod: Sized {
    /// Size of the representation in bytes.
    open spec fn spec_size() -> usize {
        arbitrary()
    }

    /// Required alignment of a base address, in bytes.
    open spec fn spec_align() -> usize {
        arbitrary()
    }

    /// The byte representation of a value.
    open spec fn repr(self) -> Seq<u8> {
        arbitrary()
    }

    /// Which size-long byte sequences denote a value of the type.
    open spec fn valid_bitpattern(s: Seq<u8>) -> bool {
        arbitrary()
    }

    /// Size of the representation in bytes; every type occupies at
    /// least one byte.
    fn size() -> (r: usize)
        ensures
            r == Self::spec_size(),
            0 < Self::spec_size(),
    ;

    /// Required alignment of a base address, in bytes; always positive.
    fn align() -> (r: usize)
        ensures
            r == Self::spec_align(),
            0 < Self::spec_align(),
    ;

    /// Decides whether the given bytes denote a value of the type.
    fn is_valid_bitpattern(bytes: &[u8]) -> (r: bool)
        ensures
            r == Self::valid_bitpattern(bytes@),
    ;

    /// Emits the byte representation of a value: it has the declared
    /// size and satisfies the type's own validity predicate.
    fn write_bytes(&self) -> (r: Vec<u8>)
        ensures
            r@ == self.repr(),
            r@.len() == Self::spec_size(),
            Self::valid_bitpattern(self.repr()),
    ;

    /// Builds the value denoted by a correctly sized, valid byte
    /// sequence — the one value with that representation.
    fn read_bytes(bytes: &[u8]) -> (r: Self)
        requires
            bytes@.len() == Self::spec_size(),
            Self::valid_bitpattern(bytes@),
        ensures
            r.repr() == bytes@,
            forall|o: Self| #[trigger] o.repr() == bytes@ ==> o == r,
    ;
}

/// `v` is the value the bytes denote: its representation is exactly the
/// bytes, and no other value of the type shares that representation.
pub open spec fn sole_value_of<T: Pod>(v: T, bytes: Seq<u8>) -> bool {
    &&& v.repr() == bytes
    &&& forall|o: T| #[trigger] o.repr() == bytes ==> o == v
}

impl Pod for u8 {
    open spec fn spec_size() -> usize {
        1
    }

    open spec fn spec_align() -> usize {
        1
    }

    open spec fn repr(self) -> Seq<u8> {
        seq![self]
    }

    open spec fn valid_bitpattern(s: Seq<u8>) -> bool {
        true
    }

    fn size() -> usize {
        1
    }

    fn align() -> usize {
        1
    }

    fn is_valid_bitpattern(bytes: &[u8]) -> bool {
        true
    }

    fn write_bytes(&self) -> (r: Vec<u8>) {
        let mut v: Vec<u8> = Vec::new();
        v.push(*self);
        proof {
            assert(v@ =~= self.repr());
        }
        v
    }

    fn read_bytes(bytes: &[u8]) -> (r: Self) {
        let r = bytes[0];
        proof {
            assert(r.repr() =~= bytes@);
            assert forall|o: u8| #[trigger] o.repr() == bytes@ implies o == r by {
                assert(o.repr()[0] == o);
            }
        }
        r
    }
}

impl Pod for u16 {
    open spec fn spec_size() -> usize {
        2
    }

    open spec fn spec_align() -> usize {
        2
    }

    open spec fn repr(self) -> Seq<u8> {
        vstd::bytes::spec_u16_to_le_bytes(self)
    }

    open spec fn valid_bitpattern(s: Seq<u8>) -> bool {
        true
    }

    fn size() -> usize {
        2
    }

    fn align() -> usize {
        2
    }

    fn is_valid_bitpattern(bytes: &[u8]) -> bool {
        true
    }

    fn write_bytes(&self) -> (r: Vec<u8>) {
        let r = vstd::bytes::u16_to_le_bytes(*self);
        proof {
            vstd::bytes::lemma_auto_spec_u16_to_from_le_bytes();
            assert(vstd::bytes::spec_u16_to_le_bytes(*self).len() == 2);
        }
        r
    }

    fn read_bytes(bytes: &[u8]) -> (r: Self) {
        let r = vstd::bytes::u16_from_le_bytes(bytes);
        proof {
            vstd::bytes::lemma_auto_spec_u16_to_from_le_bytes();
            assert(vstd::bytes::spec_u16_to_le_bytes(r).len() == 2);
            assert(vstd::bytes::spec_u16_to_le_bytes(vstd::bytes::spec_u16_from_le_bytes(bytes@))
                == bytes@);
            assert forall|o: u16| #[trigger] o.repr() == bytes@ implies o == r by {
                assert(vstd::bytes::spec_u16_to_le_bytes(o).len() == 2);
                assert(vstd::bytes::spec_u16_from_le_bytes(o.repr()) == o);
            }
        }
        r
    }
}

impl Pod for u32 {
    open spec fn spec_size() -> usize {
        4
    }

    open spec fn spec_align() -> usize {
        4
    }

    open spec fn repr(self) -> Seq<u8> {
        vstd::bytes::spec_u32_to_le_bytes(self)
    }

    open spec fn valid_bitpattern(s: Seq<u8>) -> bool {
        true
    }

    fn size() -> usize {
        4
    }

    fn align() -> usize {
        4
    }

    fn is_valid_bitpattern(bytes: &[u8]) -> bool {
        true
    }

    fn write_bytes(&self) -> (r: Vec<u8>) {
        let r = vstd::bytes::u32_to_le_bytes(*self);
        proof {
            vstd::bytes::lemma_auto_spec_u32_to_from_le_bytes();
            assert(vstd::bytes::spec_u32_to_le_bytes(*self).len() == 4);
        }
        r
    }

    fn read_bytes(bytes: &[u8]) -> (r: Self) {
        let r = vstd::bytes::u32_from_le_bytes(bytes);
        proof {
            vstd::bytes::lemma_auto_spec_u32_to_from_le_bytes();
            assert(vstd::bytes::spec_u32_to_le_bytes(r).len() == 4);
            assert(vstd::bytes::spec_u32_to_le_bytes(vstd::bytes::spec_u32_from_le_bytes(bytes@))
                == bytes@);
            assert forall|o: u32| #[trigger] o.repr() == bytes@ implies o == r by {
                assert(vstd::bytes::spec_u32_to_le_bytes(o).len() == 4);
                assert(vstd::bytes::spec_u32_from_le_bytes(o.repr()) == o);
            }
        }
        r
    }
}

impl Pod for u64 {
    open spec fn spec_size() -> usize {
        8
    }

    open spec fn spec_align() -> usize {
        8
    }

    open spec fn repr(self) -> Seq<u8> {
        vstd::bytes::spec_u64_to_le_bytes(self)
    }

    open spec fn valid_bitpattern(s: Seq<u8>) -> bool {
        true
    }

    fn size() -> usize {
        8
    }

    fn align() -> usize {
        8
    }

    fn is_valid_bitpattern(bytes: &[u8]) -> bool {
        true
    }

    fn write_bytes(&self) -> (r: Vec<u8>) {
        let r = vstd::bytes::u64_to_le_bytes(*self);
        proof {
            vstd::bytes::lemma_auto_spec_u64_to_from_le_bytes();
            assert(vstd::bytes::spec_u64_to_le_bytes(*self).len() == 8);
        }
        r
    }

    fn read_bytes(bytes: &[u8]) -> (r: Self) {
        let r = vstd::bytes::u64_from_le_bytes(bytes);
        proof {
            vstd::bytes::lemma_auto_spec_u64_to_from_le_bytes();
            assert(vstd::bytes::spec_u64_to_le_bytes(r).len() == 8);
            assert(vstd::bytes::spec_u64_to_le_bytes(vstd::bytes::spec_u64_from_le_bytes(bytes@))
                == bytes@);
            assert forall|o: u64| #[trigger] o.repr() == bytes@ implies o == r by {
                assert(vstd::bytes::spec_u64_to_le_bytes(o).len() == 8);
                assert(vstd::bytes::spec_u64_from_le_bytes(o.repr()) == o);
            }
        }
        r
    }
}

/// The failure reasons that reading one value out of a buffer reports:
/// a wrong length and a misaligned base are detected together and
/// combined; the bit pattern is judged only once the length is right.
pub open spec fn from_bytes_reasons<T: Pod>(bytes: Seq<u8>, base: int) -> u8 {
    let size_bad = bytes.len() != T::spec_size();
    let align_bad = base % (T::spec_align() as int) != 0;
    if size_bad || align_bad {
        (if size_bad {
            SIZE_BOUND_FAILURE_CODE
        } else {
            0
        }) | (if align_bad {
            UNALIGNED_ACCESS_CODE
        } else {
            0
        })
    } else if !T::valid_bitpattern(bytes) {
        INVALID_BITPATTERN_CODE
    } else {
        0
    }
}

/// Emits the byte representation of a value.
///
/// This direction always succeeds: any value's own storage is a legal
/// byte view of it.
pub fn to_bytes<T: Pod>(input: &T) -> (r: Vec<u8>)
    ensures
        r@ == input.repr(),
        r@.len() == T::spec_size(),
        T::valid_bitpattern(r@),
{
    input.write_bytes()
}

/// Reads one value of `T` out of a buffer that starts at address `base`.
///
/// Succeeds exactly when the buffer length equals the size of `T`, the
/// base address is a multiple of the alignment of `T`, and the bytes form
/// a valid bit pattern; the value returned is the one the bytes denote.
pub fn from_bytes<T: Pod>(bytes: &[u8], base: usize) -> (r: Result<T, BrinyError>)
    ensures
        match r {
            Ok(v) => from_bytes_reasons::<T>(bytes@, base as int) == 0 && sole_value_of(v, bytes@),
            Err(e) => e.spec_code() == from_bytes_reasons::<T>(bytes@, base as int)
                && e.spec_is_err(),
        },
{
    let size_bad = bytes.len() != T::size();
    let align_bad = base % T::align() != 0;
    if size_bad || align_bad {
        let c1: u8 = if size_bad {
            SIZE_BOUND_FAILURE_CODE
        } else {
            0
        };
        let c2: u8 = if align_bad {
            UNALIGNED_ACCESS_CODE
        } else {
            0
        };
        let e = BrinyError::new(c1 | c2);
        proof {
            assert((c1 | c2) != 0) by (bit_vector)
                requires
                    (c1 == 0x02u8 || c2 == 0x04u8),
            ;
        }
        Err(e)
    } else if !T::is_valid_bitpattern(bytes) {
        Err(BrinyError::invalid_bitpattern())
    } else {
        Ok(T::read_bytes(bytes))
    }
}

/// The failure reasons that the alignment-free read reports: only a wrong
/// length or a rejected bit pattern, never a misaligned base.
pub open spec fn from_bytes_unaligned_reasons<T: Pod>(bytes: Seq<u8>) -> u8 {
    if bytes.len() != T::spec_size() {
        SIZE_BOUND_FAILURE_CODE
    } else if !T::valid_bitpattern(bytes) {
        INVALID_BITPATTERN_CODE
    } else {
        0
    }
}

/// Reads one value of `T` out of a buffer whose base address is unknown.
///
/// The same size and bit-pattern checks as [`from_bytes`], but no
/// alignment check: the bytes are copied into naturally aligned storage,
/// so the buffer may start anywhere.
pub fn from_bytes_unaligned<T: Pod>(bytes: &[u8]) -> (r: Result<T, BrinyError>)
    ensures
        match r {
            Ok(v) => from_bytes_unaligned_reasons::<T>(bytes@) == 0 && sole_value_of(v, bytes@),
            Err(e) => e.spec_code() == from_bytes_unaligned_reasons::<T>(bytes@)
                && e.spec_is_err(),
        },
{
    if bytes.len() != T::size() {
        Err(BrinyError::size_bound_failure())
    } else if !T::is_valid_bitpattern(bytes) {
        Err(BrinyError::invalid_bitpattern())
    } else {
        Ok(T::read_bytes(bytes))
    }
}

/// The bytes of the `i`-th element-sized chunk of a buffer.
pub open spec fn spec_chunk<T: Pod>(bytes: Seq<u8>, i: int) -> Seq<u8> {
    bytes.subrange(i * (T::spec_size() as int), (i + 1) * (T::spec_size() as int))
}

/// How many whole elements of `T` fit in the buffer.
pub open spec fn spec_chunk_count<T: Pod>(bytes: Seq<u8>) -> int {
    bytes.len() as int / (T::spec_size() as int)
}

/// Whether every whole element-sized chunk of the buffer is a valid bit
/// pattern for `T`.
pub open spec fn spec_chunks_valid<T: Pod>(bytes: Seq<u8>) -> bool {
    forall|i: int|
        0 <= i < spec_chunk_count::<T>(bytes) ==> T::valid_bitpattern(
            #[trigger] spec_chunk::<T>(bytes, i),
        )
}

/// The failure reasons that reading a whole slice of values reports:
/// a length that is no multiple of the element size and a misaligned
/// base are detected together and combined; the elements' bit patterns
/// are judged only once the length divides evenly.
pub open spec fn slice_from_bytes_reasons<T: Pod>(bytes: Seq<u8>, base: int) -> u8 {
    let size_bad = bytes.len() as int % (T::spec_size() as int) != 0;
    let align_bad = base % (T::spec_align() as int) != 0;
    if size_bad || align_bad {
        (if size_bad {
            SIZE_BOUND_FAILURE_CODE
        } else {
            0
        }) | (if align_bad {
            UNALIGNED_ACCESS_CODE
        } else {
            0
        })
    } else if !spec_chunks_valid::<T>(bytes) {
        INVALID_BITPATTERN_CODE
    } else {
        0
    }
}

/// Reads a whole slice of `T` out of a buffer that starts at address
/// `base`.
///
/// Succeeds exactly when the buffer length is a multiple of the size of
/// `T`, the base address is a multiple of the alignment of `T`, and every
/// element-sized chunk is a valid bit pattern; the slice returned holds
/// one value per chunk, each denoted by its own chunk, in buffer order.
pub fn slice_from_bytes<T: Pod>(bytes: &[u8], base: usize) -> (r: Result<Vec<T>, BrinyError>)
    ensures
        match r {
            Ok(v) => slice_from_bytes_reasons::<T>(bytes@, base as int) == 0 && v@.len()
                == spec_chunk_count::<T>(bytes@) && forall|i: int|
                0 <= i < v@.len() ==> (#[trigger] v@[i]).repr() == spec_chunk::<T>(bytes@, i),
            Err(e) => e.spec_code() == slice_from_bytes_reasons::<T>(bytes@, base as int)
                && e.spec_is_err(),
        },
{
    let size = T::size();
    let len = bytes.len();
    let size_bad = len % size != 0;
    let align_bad = base % T::align() != 0;
    if size_bad || align_bad {
        let c1: u8 = if size_bad {
            SIZE_BOUND_FAILURE_CODE
        } else {
            0
        };
        let c2: u8 = if align_bad {
            UNALIGNED_ACCESS_CODE
        } else {
            0
        };
        let e = BrinyError::new(c1 | c2);
        proof {
            assert((c1 | c2) != 0) by (bit_vector)
                requires
                    (c1 == 0x02u8 || c2 == 0x04u8),
            ;
        }
        Err(e)
    } else {
        let mut out: Vec<T> = Vec::new();
        let mut off: usize = 0;
        proof {
            assert(out@.len() == 0);
        }
        while off < len
            invariant
                size == T::spec_size(),
                0 < size,
                len == bytes@.len(),
                len as int % (size as int) == 0,
                base as int % (T::spec_align() as int) == 0,
                off <= len,
                off == out@.len() * size,
                (len - off) % (size as int) == 0,
                forall|j: int|
                    0 <= j < out@.len() ==> (#[trigger] out@[j]).repr() == spec_chunk::<T>(
                        bytes@,
                        j,
                    ),
                forall|j: int|
                    0 <= j < out@.len() ==> T::valid_bitpattern(
                        #[trigger] spec_chunk::<T>(bytes@, j),
                    ),
            decreases len - off,
        {
            proof {
                if len - off < size {
                    vstd::arithmetic::div_mod::lemma_small_mod(
                        (len - off) as nat,
                        size as nat,
                    );
                }
            }
            let chunk = vstd::slice::slice_subrange(bytes, off, off + size);
            let ghost k = out@.len() as int;
            proof {
                vstd::arithmetic::mul::lemma_mul_is_distributive_add_other_way(
                    size as int,
                    k,
                    1,
                );
                assert(chunk@ == spec_chunk::<T>(bytes@, k));
            }
            if !T::is_valid_bitpattern(chunk) {
                proof {
                    let count = spec_chunk_count::<T>(bytes@);
                    vstd::arithmetic::div_mod::lemma_fundamental_div_mod(len as int, size as int);
                    assert(len as int == (size as int) * count);
                    assert(k * (size as int) < len as int);
                    assert(k < count) by (nonlinear_arith)
                        requires
                            k * (size as int) < len as int,
                            len as int == (size as int) * count,
                            (size as int) > 0,
                            k >= 0,
                    ;
                    assert(!spec_chunks_valid::<T>(bytes@));
                }
                return Err(BrinyError::invalid_bitpattern());
            }
            let v = T::read_bytes(chunk);
            out.push(v);
            off = off + size;
            proof {
                vstd::arithmetic::div_mod::lemma_mod_multiples_vanish(
                    1,
                    len - off,
                    size as int,
                );
            }
        }
        proof {
            vstd::arithmetic::div_mod::lemma_div_by_multiple(out@.len() as int, size as int);
            assert(out@.len() == spec_chunk_count::<T>(bytes@));
        }
        Ok(out)
    }
}

/// The concatenated byte representations of a sequence of values.
pub open spec fn spec_slice_repr<T: Pod>(s: Seq<T>) -> Seq<u8>
    decreases s.len(),
{
    if s.len() == 0 {
        Seq::empty()
    } else {
        spec_slice_repr::<T>(s.drop_last()) + s.last().repr()
    }
}

/// Emits the bytes of a whole slice: each element's representation in
/// order. Always succeeds, and alignment is trivial: every buffer of
/// single bytes is aligned.
pub fn slice_to_bytes<T: Pod>(slice: &[T]) -> (r: Vec<u8>)
    ensures
        r@ == spec_slice_repr::<T>(slice@),
        r@.len() == slice@.len() * (T::spec_size() as int),
{
    let mut out: Vec<u8> = Vec::new();
    let mut i: usize = 0;
    let n = slice.len();
    proof {
        assert(slice@.take(0) =~= Seq::<T>::empty());
    }
    while i < n
        invariant
            i <= n,
            n == slice@.len(),
            out@ == spec_slice_repr::<T>(slice@.take(i as int)),
            out@.len() == i * (T::spec_size() as int),
        decreases n - i,
    {
        let elem = vstd::slice::slice_index_get(slice, i);
        let mut bytes = elem.write_bytes();
        let ghost prev = out@;
        out.append(&mut bytes);
        proof {
            assert(slice@.take(i + 1).drop_last() =~= slice@.take(i as int));
            assert(slice@.take(i + 1).last() == slice@[i as int]);
            vstd::arithmetic::mul::lemma_mul_is_distributive_add_other_way(
                T::spec_size() as int,
                i as int,
                1,
            );
        }
        i = i + 1;
    }
    proof {
        assert(slice@.take(n as int) =~= slice@);
    }
    out
}

/// The failure reasons that the copying slice read reports: a buffer
/// length that is no multiple of the element size and a destination of
/// the wrong length are detected together and combined; the elements'
/// bit patterns are judged only once both lengths agree.
pub open spec fn copy_into_reasons<T: Pod>(bytes: Seq<u8>, out_len: int) -> u8 {
    let size_bad = bytes.len() as int % (T::spec_size() as int) != 0;
    let buf_bad = out_len != spec_chunk_count::<T>(bytes);
    if size_bad || buf_bad {
        (if size_bad {
            SIZE_BOUND_FAILURE_CODE
        } else {
            0
        }) | (if buf_bad {
            BAD_BUFFER_CODE
        } else {
            0
        })
    } else if !spec_chunks_valid::<T>(bytes) {
        INVALID_BITPATTERN_CODE
    } else {
        0
    }
}

/// Reads a whole slice of `T` out of a buffer that cannot be proven
/// aligned, by copying element-wise into caller-supplied storage.
///
/// The destination must already hold exactly one slot per element-sized
/// chunk of the buffer. Succeeds exactly when the buffer length divides
/// evenly, the destination length matches, and every chunk is a valid
/// bit pattern; on success every slot is overwritten with the value its
/// chunk denotes, and on failure the destination is left unchanged.
pub fn slice_from_bytes_copy_into<T: Pod>(bytes: &[u8], out: &mut Vec<T>) -> (r: Result<
    (),
    BrinyError,
>)
    ensures
        match r {
            Ok(()) => copy_into_reasons::<T>(bytes@, old(out)@.len() as int) == 0 && final(out)@.len()
                == old(out)@.len() && forall|i: int|
                0 <= i < final(out)@.len() ==> (#[trigger] final(out)@[i]).repr() == spec_chunk::<
                    T,
                >(bytes@, i),
            Err(e) => e.spec_code() == copy_into_reasons::<T>(bytes@, old(out)@.len() as int)
                && e.spec_is_err() && final(out)@ == old(out)@,
        },
{
    let size = T::size();
    let _positive_align = T::align();
    let len = bytes.len();
    let size_bad = len % size != 0;
    let buf_bad = len / size != out.len();
    proof {
        if !size_bad {
            vstd::arithmetic::div_mod::lemma_fundamental_div_mod(len as int, size as int);
        }
    }
    if size_bad || buf_bad {
        let c1: u8 = if size_bad {
            SIZE_BOUND_FAILURE_CODE
        } else {
            0
        };
        let c2: u8 = if buf_bad {
            BAD_BUFFER_CODE
        } else {
            0
        };
        let e = BrinyError::new(c1 | c2);
        proof {
            assert((c1 | c2) != 0) by (bit_vector)
                requires
                    (c1 == 0x02u8 || c2 == 0x08u8),
            ;
        }
        return Err(e);
    }
    let mut parsed = match slice_from_bytes::<T>(bytes, 0) {
        Ok(v) => v,
        Err(e) => {
            proof {
                assert(0int % (T::spec_align() as int) == 0);
            }
            return Err(e);
        },
    };
    let n = out.len();
    let mut i: usize = n;
    while i > 0
        invariant
            i <= n,
            n == out@.len(),
            parsed@.len() == i,
            forall|j: int|
                0 <= j < i ==> (#[trigger] parsed@[j]).repr() == spec_chunk::<T>(bytes@, j),
            forall|j: int|
                i <= j < n ==> (#[trigger] out@[j]).repr() == spec_chunk::<T>(bytes@, j),
        decreases i,
    {
        let v = match parsed.pop() {
            Some(v) => v,
            None => vstd::pervasive::unreached(),
        };
        i = i - 1;
        out.set(i, v);
    }
    Ok(())
}

/// Alignment rejection: whenever the base address is not a multiple of
/// the alignment of `T`, [`slice_from_bytes`] fails, and the error it
/// returns carries the unaligned-access reason.
pub proof fn lemma_slice_alignment_rejection<T: Pod>(bytes: Seq<u8>, base: int)
    requires
        base % (T::spec_align() as int) != 0,
    ensures
        slice_from_bytes_reasons::<T>(bytes, base) != 0,
        slice_from_bytes_reasons::<T>(bytes, base) & UNALIGNED_ACCESS_CODE != 0,
{
    assert((0x02u8 | 0x04u8) != 0 && ((0x02u8 | 0x04u8) & 0x04u8) != 0) by (bit_vector);
    assert((0u8 | 0x04u8) != 0 && ((0u8 | 0x04u8) & 0x04u8) != 0) by (bit_vector);
}

/// Size rejection: whenever the buffer length is not a multiple of the
/// size of `T`, [`slice_from_bytes`] fails, and the error it returns
/// carries the size-mismatch reason.
pub proof fn lemma_slice_size_rejection<T: Pod>(bytes: Seq<u8>, base: int)
    requires
        bytes.len() as int % (T::spec_size() as int) != 0,
    ensures
        slice_from_bytes_reasons::<T>(bytes, base) != 0,
        slice_from_bytes_reasons::<T>(bytes, base) & SIZE_BOUND_FAILURE_CODE != 0,
{
    assert((0x02u8 | 0x04u8) != 0 && ((0x02u8 | 0x04u8) & 0x02u8) != 0) by (bit_vector);
    assert((0x02u8 | 0u8) != 0 && ((0x02u8 | 0u8) & 0x02u8) != 0) by (bit_vector);
}

/// The failure reasons that a value cast reports: a size mismatch and a
/// source alignment below the target's are detected together and
/// combined; the source bytes are judged against the target's validity
/// predicate only once the layouts agree.
pub open spec fn cast_reasons<T: Pod, U: Pod>(v: T) -> u8 {
    let size_bad = T::spec_size() != U::spec_size();
    let align_bad = T::spec_align() < U::spec_align();
    if size_bad || align_bad {
        (if size_bad {
            SIZE_BOUND_FAILURE_CODE
        } else {
            0
        }) | (if align_bad {
            UNALIGNED_ACCESS_CODE
        } else {
            0
        })
    } else if !U::valid_bitpattern(v.repr()) {
        INVALID_BITPATTERN_CODE
    } else {
        0
    }
}

/// Reinterprets a value of `T` as a value of `U` with the same bytes.
///
/// Succeeds exactly when the two types have the same size, the alignment
/// of `T` is at least that of `U`, and the source bytes form a valid bit
/// pattern for `U`. No data is transformed: the result has exactly the
/// byte representation of the input.
pub fn cast<T: Pod, U: Pod>(input: &T) -> (r: Result<U, BrinyError>)
    ensures
        match r {
            Ok(u) => cast_reasons::<T, U>(*input) == 0 && sole_value_of(u, input.repr()),
            Err(e) => e.spec_code() == cast_reasons::<T, U>(*input) && e.spec_is_err(),
        },
{
    let size_bad = T::size() != U::size();
    let align_bad = T::align() < U::align();
    if size_bad || align_bad {
        let c1: u8 = if size_bad {
            SIZE_BOUND_FAILURE_CODE
        } else {
            0
        };
        let c2: u8 = if align_bad {
            UNALIGNED_ACCESS_CODE
        } else {
            0
        };
        let e = BrinyError::new(c1 | c2);
        proof {
            assert((c1 | c2) != 0) by (bit_vector)
                requires
                    (c1 == 0x02u8 || c2 == 0x04u8),
            ;
        }
        Err(e)
    } else {
        let bytes = input.write_bytes();
        if !U::is_valid_bitpattern(bytes.as_slice()) {
            Err(BrinyError::invalid_bitpattern())
        } else {
            Ok(U::read_bytes(bytes.as_slice()))
        }
    }
}

/// Reinterprets a value of `T` behind a mutable reference as a value of
/// `U`, exactly as [`cast`] does; the input is read, never changed.
pub fn cast_mut<T: Pod, U: Pod>(input: &mut T) -> (r: Result<U, BrinyError>)
    ensures
        *final(input) == *old(input),
        match r {
            Ok(u) => cast_reasons::<T, U>(*old(input)) == 0 && sole_value_of(u, old(input).repr()),
            Err(e) => e.spec_code() == cast_reasons::<T, U>(*old(input)) && e.spec_is_err(),
        },
{
    cast::<T, U>(input)
}

/// Bit-pattern round trip: a successful cast preserves the byte
/// representation exactly, so casting a value to a same-size type and
/// back again reproduces the original value, with no numeric
/// reinterpretation anywhere. The hypotheses are precisely what two
/// successful [`cast`] calls ensure.
pub proof fn lemma_cast_roundtrip<T: Pod, U: Pod>(t: T, u: U, t2: T)
    requires
        u.repr() == t.repr(),
        sole_value_of(t2, u.repr()),
    ensures
        t2 == t,
{
    assert(t.repr() == u.repr());
}

/// The failure reasons that a slice cast reports: the element types must
/// have exactly equal alignment, and every whole target-sized chunk of
/// the source bytes must be a valid bit pattern for the target type.
pub open spec fn cast_slice_reasons<T: Pod, U: Pod>(s: Seq<T>) -> u8 {
    if T::spec_align() != U::spec_align() {
        UNALIGNED_ACCESS_CODE
    } else if !spec_chunks_valid::<U>(spec_slice_repr::<T>(s)) {
        INVALID_BITPATTERN_CODE
    } else {
        0
    }
}

/// Reinterprets a slice of `T` as a slice of `U` over the same bytes.
///
/// Requires exactly equal alignment between the two element types. The
/// result covers as many whole values of `U` as fit in the source bytes:
/// the length is the total byte count divided by the size of `U`,
/// truncated toward zero. Callers that need an exact division must check
/// divisibility themselves.
pub fn cast_slice<T: Pod, U: Pod>(input: &[T]) -> (r: Result<Vec<U>, BrinyError>)
    ensures
        match r {
            Ok(v) => cast_slice_reasons::<T, U>(input@) == 0 && v@.len() == spec_chunk_count::<U>(
                spec_slice_repr::<T>(input@),
            ) && forall|i: int|
                0 <= i < v@.len() ==> (#[trigger] v@[i]).repr() == spec_chunk::<U>(
                    spec_slice_repr::<T>(input@),
                    i,
                ),
            Err(e) => e.spec_code() == cast_slice_reasons::<T, U>(input@) && e.spec_is_err(),
        },
{
    if T::align() != U::align() {
        return Err(BrinyError::unaligned_access());
    }
    let bytes = slice_to_bytes(input);
    let size = U::size();
    let total = bytes.len();
    let ghost all = spec_slice_repr::<T>(input@);
    let mut out: Vec<U> = Vec::new();
    let mut off: usize = 0;
    proof {
        assert(out@.len() == 0);
    }
    while total - off >= size
        invariant
            T::spec_align() == U::spec_align(),
            size == U::spec_size(),
            0 < size,
            all == spec_slice_repr::<T>(input@),
            total == all.len(),
            bytes@ == all,
            off <= total,
            off == out@.len() * size,
            forall|j: int|
                0 <= j < out@.len() ==> (#[trigger] out@[j]).repr() == spec_chunk::<U>(all, j),
            forall|j: int|
                0 <= j < out@.len() ==> U::valid_bitpattern(#[trigger] spec_chunk::<U>(all, j)),
        decreases total - off,
    {
        let chunk = vstd::slice::slice_subrange(bytes.as_slice(), off, off + size);
        let ghost k = out@.len() as int;
        proof {
            vstd::arithmetic::mul::lemma_mul_is_distributive_add_other_way(size as int, k, 1);
            assert(chunk@ == spec_chunk::<U>(all, k));
        }
        if !U::is_valid_bitpattern(chunk) {
            proof {
                let count = spec_chunk_count::<U>(all);
                assert(k < count) by (nonlinear_arith)
                    requires
                        k * (size as int) + (size as int) <= all.len() as int,
                        count == all.len() as int / (size as int),
                        (size as int) > 0,
                        k >= 0,
                ;
                assert(!spec_chunks_valid::<U>(all));
            }
            return Err(BrinyError::invalid_bitpattern());
        }
        let v = U::read_bytes(chunk);
        out.push(v);
        off = off + size;
    }
    proof {
        let k = out@.len() as int;
        vstd::arithmetic::div_mod::lemma_fundamental_div_mod_converse(
            total as int,
            size as int,
            k,
            total - k * size,
        );
        assert(out@.len() == spec_chunk_count::<U>(all));
    }
    Ok(out)
}

/// Round trip: decoding the bytes of a value yields that value again.
///
/// For every value of every plain-old-data type, reading back the buffer
/// written by [`to_bytes`] succeeds and reproduces the value exactly;
/// the buffer is correctly sized by construction and judged at base
/// address zero, which satisfies every alignment.
pub fn from_to_bytes_roundtrip<T: Pod>(v: &T) -> (r: T)
    ensures
        r == *v,
{
    let _positive_align = T::align();
    let bytes = to_bytes(v);
    let out = from_bytes::<T>(bytes.as_slice(), 0);
    match out {
        Ok(u) => {
            proof {
                assert((*v).repr() == bytes@);
            }
            u
        },
        Err(_) => {
            proof {
                assert(from_bytes_reasons::<T>(bytes@, 0) == 0);
            }
            vstd::pervasive::unreached()
        },
    }
}

} // verus!
