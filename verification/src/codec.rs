//! The canonical encoding of the values that are exchanged with the host.
//!
//! Integers are encoded as their little-endian bytes at fixed width, byte
//! arrays as their bytes, a pair as its parts one after the other, a
//! `Result` as one byte that tells `Ok` from `Err` followed by the payload,
//! and a [`Compact`] number in one, two, four or five bytes depending on its
//! size.

use vstd::prelude::*;
use vstd::bytes::*;
use vstd::slice::slice_subrange;
use crate::buffer::{lemma_written_to_chain, lemma_written_to_nothing, written_to, EncodeScope};
use crate::scale::{
    scale_decode_array, scale_decode_u128, scale_decode_u32, scale_decode_u64, scale_decode_u8,
    scale_encode_array, scale_encode_compact_u32, scale_encode_u128, scale_encode_u32,
    scale_encode_u64, scale_encode_u8,
};
use crate::error::EnvError;

verus! {

/// A value with a canonical encoding.
pub trait Encode {
    /// The canonical encoding of the value.
    spec fn encoding(&self) -> Seq<u8>;

    /// Appends the encoding to `dest`. Where `dest` has no room for it,
    /// `dest` ends up marked as overflowed.
    fn encode_to(&self, dest: &mut EncodeScope<'_>)
        ensures
            written_to(*old(dest), *final(dest), self.encoding()),
    ;
}

/// A value that can be read from the front of a byte sequence.
pub trait Decode: Sized {
    /// The value that `bytes` starts with, and the number of bytes that the
    /// value takes up; `None` where `bytes` starts with no value.
    spec fn decoding(bytes: Seq<u8>) -> Option<(Self, nat)>;

    /// A value takes up no more bytes than there are.
    proof fn lemma_decoding_in_bounds(bytes: Seq<u8>)
        ensures
            Self::decoding(bytes) matches Some((_, n)) ==> n <= bytes.len(),
    ;

    /// Reads a value from the front of `input` and returns it with the
    /// number of bytes that it takes up.
    fn decode(input: &[u8]) -> (result: Result<(Self, usize), EnvError>)
        ensures
            match result {
                Ok((value, n)) => Self::decoding(input@) == Some((value, n as nat)),
                Err(e) => e == EnvError::Decode && Self::decoding(input@) is None,
            },
    ;
}

/// A value that is read back from its own encoding.
pub trait Codec: Encode + Decode {
    /// Bytes that start with the encoding of a value decode to that value,
    /// which takes up exactly its encoding.
    proof fn lemma_round_trip(&self, rest: Seq<u8>)
        ensures
            Self::decoding(self.encoding() + rest) == Some((*self, self.encoding().len())),
    ;
}

/// The value that `bytes` is the complete encoding of: the value that
/// `bytes` starts with, provided that it takes up all of `bytes`.
pub open spec fn decoding_all<T: Decode>(bytes: Seq<u8>) -> Option<T> {
    match T::decoding(bytes) {
        Some((value, n)) => if n == bytes.len() {
            Some(value)
        } else {
            None
        },
        None => None,
    }
}

/// What is encoded is read back: the encoding of a value starts with that
/// value, which takes up all of it, so that a region that holds exactly the
/// encoding decodes to the value with no byte left over.
pub proof fn lemma_encode_then_decode<T: Codec>(value: T)
    ensures
        T::decoding(value.encoding()) == Some((value, value.encoding().len())),
        decoding_all::<T>(value.encoding()) == Some(value),
{
    value.lemma_round_trip(Seq::empty());
    assert(value.encoding() + Seq::<u8>::empty() =~= value.encoding());
}

/// Reads a value from `input` and insists that no byte is left over.
pub fn decode_all<T: Decode>(input: &[u8]) -> (result: Result<T, EnvError>)
    ensures
        match result {
            Ok(value) => decoding_all::<T>(input@) == Some(value),
            Err(e) => e == EnvError::Decode && decoding_all::<T>(input@) is None,
        },
{
    match T::decode(input) {
        Ok((value, n)) => {
            if n == input.len() {
                Ok(value)
            } else {
                Err(EnvError::Decode)
            }
        },
        Err(e) => Err(e),
    }
}

impl Encode for u8 {
    open spec fn encoding(&self) -> Seq<u8> {
        seq![*self]
    }

    fn encode_to(&self, dest: &mut EncodeScope<'_>) {
        scale_encode_u8(*self, dest)
    }
}

impl Decode for u8 {
    open spec fn decoding(bytes: Seq<u8>) -> Option<(u8, nat)> {
        if bytes.len() >= 1 {
            Some((bytes[0], 1nat))
        } else {
            None
        }
    }

    proof fn lemma_decoding_in_bounds(bytes: Seq<u8>) {
    }

    fn decode(input: &[u8]) -> (result: Result<(u8, usize), EnvError>) {
        match scale_decode_u8(input) {
            Ok(value) => Ok((value, 1)),
            Err(_) => Err(EnvError::Decode),
        }
    }
}

impl Codec for u8 {
    proof fn lemma_round_trip(&self, rest: Seq<u8>) {
    }
}

impl Encode for u32 {
    open spec fn encoding(&self) -> Seq<u8> {
        spec_u32_to_le_bytes(*self)
    }

    fn encode_to(&self, dest: &mut EncodeScope<'_>) {
        proof {
            lemma_auto_spec_u32_to_from_le_bytes();
        }
        scale_encode_u32(*self, dest)
    }
}

impl Decode for u32 {
    open spec fn decoding(bytes: Seq<u8>) -> Option<(u32, nat)> {
        if bytes.len() >= 4 {
            Some((spec_u32_from_le_bytes(bytes.take(4)), 4nat))
        } else {
            None
        }
    }

    proof fn lemma_decoding_in_bounds(bytes: Seq<u8>) {
    }

    fn decode(input: &[u8]) -> (result: Result<(u32, usize), EnvError>) {
        match scale_decode_u32(input) {
            Ok(value) => Ok((value, 4)),
            Err(_) => Err(EnvError::Decode),
        }
    }
}

impl Codec for u32 {
    proof fn lemma_round_trip(&self, rest: Seq<u8>) {
        lemma_auto_spec_u32_to_from_le_bytes();
        assert((self.encoding() + rest).take(4) =~= self.encoding());
    }
}

impl Encode for u64 {
    open spec fn encoding(&self) -> Seq<u8> {
        spec_u64_to_le_bytes(*self)
    }

    fn encode_to(&self, dest: &mut EncodeScope<'_>) {
        proof {
            lemma_auto_spec_u64_to_from_le_bytes();
        }
        scale_encode_u64(*self, dest)
    }
}

impl Decode for u64 {
    open spec fn decoding(bytes: Seq<u8>) -> Option<(u64, nat)> {
        if bytes.len() >= 8 {
            Some((spec_u64_from_le_bytes(bytes.take(8)), 8nat))
        } else {
            None
        }
    }

    proof fn lemma_decoding_in_bounds(bytes: Seq<u8>) {
    }

    fn decode(input: &[u8]) -> (result: Result<(u64, usize), EnvError>) {
        match scale_decode_u64(input) {
            Ok(value) => Ok((value, 8)),
            Err(_) => Err(EnvError::Decode),
        }
    }
}

impl Codec for u64 {
    proof fn lemma_round_trip(&self, rest: Seq<u8>) {
        lemma_auto_spec_u64_to_from_le_bytes();
        assert((self.encoding() + rest).take(8) =~= self.encoding());
    }
}

impl Encode for u128 {
    open spec fn encoding(&self) -> Seq<u8> {
        spec_u128_to_le_bytes(*self)
    }

    fn encode_to(&self, dest: &mut EncodeScope<'_>) {
        proof {
            lemma_auto_spec_u128_to_from_le_bytes();
        }
        scale_encode_u128(*self, dest)
    }
}

impl Decode for u128 {
    open spec fn decoding(bytes: Seq<u8>) -> Option<(u128, nat)> {
        if bytes.len() >= 16 {
            Some((spec_u128_from_le_bytes(bytes.take(16)), 16nat))
        } else {
            None
        }
    }

    proof fn lemma_decoding_in_bounds(bytes: Seq<u8>) {
    }

    fn decode(input: &[u8]) -> (result: Result<(u128, usize), EnvError>) {
        match scale_decode_u128(input) {
            Ok(value) => Ok((value, 16)),
            Err(_) => Err(EnvError::Decode),
        }
    }
}

impl Codec for u128 {
    proof fn lemma_round_trip(&self, rest: Seq<u8>) {
        lemma_auto_spec_u128_to_from_le_bytes();
        assert((self.encoding() + rest).take(16) =~= self.encoding());
    }
}

/// The array that holds exactly `bytes`.
pub open spec fn array_of<const N: usize>(bytes: Seq<u8>) -> [u8; N] {
    choose|array: [u8; N]| array@ == bytes
}

/// An array is the array that holds its bytes.
pub proof fn lemma_array_of<const N: usize>(array: [u8; N])
    ensures
        array_of::<N>(array@) == array,
{
    let chosen = array_of::<N>(array@);
    assert(chosen@ == array@);
    assert(chosen =~= array);
}

impl<const N: usize> Encode for [u8; N] {
    open spec fn encoding(&self) -> Seq<u8> {
        self@
    }

    fn encode_to(&self, dest: &mut EncodeScope<'_>) {
        scale_encode_array(self, dest)
    }
}

impl<const N: usize> Decode for [u8; N] {
    open spec fn decoding(bytes: Seq<u8>) -> Option<([u8; N], nat)> {
        if bytes.len() >= N {
            Some((array_of::<N>(bytes.take(N as int)), N as nat))
        } else {
            None
        }
    }

    proof fn lemma_decoding_in_bounds(bytes: Seq<u8>) {
    }

    fn decode(input: &[u8]) -> (result: Result<([u8; N], usize), EnvError>) {
        match scale_decode_array::<N>(input) {
            Ok(value) => {
                proof {
                    lemma_array_of(value);
                }
                Ok((value, N))
            },
            Err(_) => Err(EnvError::Decode),
        }
    }
}

impl<const N: usize> Codec for [u8; N] {
    proof fn lemma_round_trip(&self, rest: Seq<u8>) {
        assert((self.encoding() + rest).take(N as int) =~= self@);
        lemma_array_of(*self);
    }
}

impl Encode for () {
    open spec fn encoding(&self) -> Seq<u8> {
        Seq::empty()
    }

    fn encode_to(&self, dest: &mut EncodeScope<'_>) {
        proof {
            lemma_written_to_nothing(*dest);
        }
    }
}

impl Decode for () {
    open spec fn decoding(bytes: Seq<u8>) -> Option<((), nat)> {
        Some(((), 0nat))
    }

    proof fn lemma_decoding_in_bounds(bytes: Seq<u8>) {
    }

    fn decode(input: &[u8]) -> (result: Result<((), usize), EnvError>) {
        Ok(((), 0))
    }
}

impl Codec for () {
    proof fn lemma_round_trip(&self, rest: Seq<u8>) {
    }
}

/// The encoding of a `Result`: a zero byte and the encoding of the value for
/// `Ok`, a one byte and the encoding of the error for `Err`.
impl<T: Encode, E: Encode> Encode for Result<T, E> {
    open spec fn encoding(&self) -> Seq<u8> {
        match self {
            Ok(value) => seq![0u8] + value.encoding(),
            Err(error) => seq![1u8] + error.encoding(),
        }
    }

    fn encode_to(&self, dest: &mut EncodeScope<'_>) {
        match self {
            Ok(value) => {
                dest.write_byte(0);
                let ghost tagged = *dest;
                value.encode_to(dest);
                proof {
                    lemma_written_to_chain(*old(dest), tagged, *dest, seq![0u8], value.encoding());
                }
            },
            Err(error) => {
                dest.write_byte(1);
                let ghost tagged = *dest;
                error.encode_to(dest);
                proof {
                    lemma_written_to_chain(*old(dest), tagged, *dest, seq![1u8], error.encoding());
                }
            },
        }
    }
}

impl<T: Decode, E: Decode> Decode for Result<T, E> {
    open spec fn decoding(bytes: Seq<u8>) -> Option<(Result<T, E>, nat)> {
        if bytes.len() == 0 {
            None
        } else if bytes[0] == 0 {
            match T::decoding(bytes.skip(1)) {
                Some((value, n)) => Some((Ok(value), n + 1)),
                None => None,
            }
        } else if bytes[0] == 1 {
            match E::decoding(bytes.skip(1)) {
                Some((error, n)) => Some((Err(error), n + 1)),
                None => None,
            }
        } else {
            None
        }
    }

    proof fn lemma_decoding_in_bounds(bytes: Seq<u8>) {
        if bytes.len() > 0 {
            T::lemma_decoding_in_bounds(bytes.skip(1));
            E::lemma_decoding_in_bounds(bytes.skip(1));
        }
    }

    fn decode(input: &[u8]) -> (result: Result<(Result<T, E>, usize), EnvError>) {
        if input.len() == 0 {
            return Err(EnvError::Decode);
        }
        let payload = slice_subrange(input, 1, input.len());
        assert(payload@ =~= input@.skip(1));
        proof {
            T::lemma_decoding_in_bounds(payload@);
            E::lemma_decoding_in_bounds(payload@);
        }
        if input[0] == 0 {
            match T::decode(payload) {
                Ok((value, n)) => Ok((Ok(value), n + 1)),
                Err(e) => Err(e),
            }
        } else if input[0] == 1 {
            match E::decode(payload) {
                Ok((error, n)) => Ok((Err(error), n + 1)),
                Err(e) => Err(e),
            }
        } else {
            Err(EnvError::Decode)
        }
    }
}

impl<T: Codec, E: Codec> Codec for Result<T, E> {
    proof fn lemma_round_trip(&self, rest: Seq<u8>) {
        match self {
            Ok(value) => {
                value.lemma_round_trip(rest);
                assert((self.encoding() + rest).skip(1) =~= value.encoding() + rest);
            },
            Err(error) => {
                error.lemma_round_trip(rest);
                assert((self.encoding() + rest).skip(1) =~= error.encoding() + rest);
            },
        }
    }
}

/// The encoding of a pair: the encoding of the first part followed by the
/// encoding of the second.
impl<A: Encode, B: Encode> Encode for (A, B) {
    open spec fn encoding(&self) -> Seq<u8> {
        self.0.encoding() + self.1.encoding()
    }

    fn encode_to(&self, dest: &mut EncodeScope<'_>) {
        self.0.encode_to(dest);
        let ghost between = *dest;
        self.1.encode_to(dest);
        proof {
            lemma_written_to_chain(
                *old(dest),
                between,
                *dest,
                self.0.encoding(),
                self.1.encoding(),
            );
        }
    }
}

impl<A: Decode, B: Decode> Decode for (A, B) {
    open spec fn decoding(bytes: Seq<u8>) -> Option<((A, B), nat)> {
        match A::decoding(bytes) {
            Some((first, n)) => match B::decoding(bytes.skip(n as int)) {
                Some((second, m)) => Some(((first, second), n + m)),
                None => None,
            },
            None => None,
        }
    }

    proof fn lemma_decoding_in_bounds(bytes: Seq<u8>) {
        A::lemma_decoding_in_bounds(bytes);
        if let Some((_, n)) = A::decoding(bytes) {
            B::lemma_decoding_in_bounds(bytes.skip(n as int));
        }
    }

    fn decode(input: &[u8]) -> (result: Result<((A, B), usize), EnvError>) {
        let (first, n) = match A::decode(input) {
            Ok(decoded) => decoded,
            Err(e) => {
                return Err(e);
            },
        };
        proof {
            A::lemma_decoding_in_bounds(input@);
        }
        let rest = slice_subrange(input, n, input.len());
        assert(rest@ =~= input@.skip(n as int));
        proof {
            B::lemma_decoding_in_bounds(rest@);
        }
        match B::decode(rest) {
            Ok((second, m)) => Ok(((first, second), n + m)),
            Err(e) => Err(e),
        }
    }
}

impl<A: Codec, B: Codec> Codec for (A, B) {
    proof fn lemma_round_trip(&self, rest: Seq<u8>) {
        let first = self.0.encoding();
        let second = self.1.encoding();
        self.0.lemma_round_trip(second + rest);
        self.1.lemma_round_trip(rest);
        assert(self.encoding() + rest =~= first + (second + rest));
        assert((first + (second + rest)).skip(first.len() as int) =~= second + rest);
    }
}

/// A number that is encoded in compact form: the smaller the number, the
/// fewer the bytes.
#[derive(Clone, Copy, Debug, PartialEq, Eq, Structural)]
pub struct Compact(pub u32);

/// The compact form of a number. The two low bits of the first byte tell the
/// form: a number below 2^6 takes one byte, below 2^14 two, below 2^30 four,
/// each holding the number times four plus the form in little-endian order;
/// any other takes a byte `3` and the number's four little-endian bytes.
pub open spec fn compact_encoding(value: u32) -> Seq<u8> {
    if value <= 0x3f {
        seq![(value * 4) as u8]
    } else if value <= 0x3fff {
        spec_u16_to_le_bytes((value * 4 + 1) as u16)
    } else if value <= 0x3fff_ffff {
        spec_u32_to_le_bytes((value * 4 + 2) as u32)
    } else {
        seq![3u8] + spec_u32_to_le_bytes(value)
    }
}

impl Encode for Compact {
    open spec fn encoding(&self) -> Seq<u8> {
        compact_encoding(self.0)
    }

    fn encode_to(&self, dest: &mut EncodeScope<'_>) {
        scale_encode_compact_u32(self.0, dest)
    }
}

} // verus!
