//! The calls into the outside codec, each with the contract that the rest of
//! the crate relies on. Nothing here is proved: every contract restates what
//! the codec's source shows for the one type that the call is made for.

use vstd::prelude::*;
use vstd::bytes::*;
use crate::buffer::{written_to, EncodeScope};
use crate::codec::compact_encoding;

verus! {

/// The outside codec's error, which says in words why bytes did not decode.
#[verifier::external_type_specification]
#[verifier::external_body]
pub struct ExCodecError(parity_scale_codec::Error);

/// `<u8 as parity_scale_codec::Encode>::encode_to`: writes the byte itself.
#[verifier::external_body]
pub(crate) fn scale_encode_u8(value: u8, dest: &mut EncodeScope<'_>)
    ensures
        written_to(*old(dest), *final(dest), seq![value]),
{
    parity_scale_codec::Encode::encode_to(&value, dest)
}

/// `<u32 as parity_scale_codec::Encode>::encode_to`: writes the four
/// little-endian bytes of the number.
#[verifier::external_body]
pub(crate) fn scale_encode_u32(value: u32, dest: &mut EncodeScope<'_>)
    ensures
        written_to(*old(dest), *final(dest), spec_u32_to_le_bytes(value)),
{
    parity_scale_codec::Encode::encode_to(&value, dest)
}

/// `<u64 as parity_scale_codec::Encode>::encode_to`: writes the eight
/// little-endian bytes of the number.
#[verifier::external_body]
pub(crate) fn scale_encode_u64(value: u64, dest: &mut EncodeScope<'_>)
    ensures
        written_to(*old(dest), *final(dest), spec_u64_to_le_bytes(value)),
{
    parity_scale_codec::Encode::encode_to(&value, dest)
}

/// `<u128 as parity_scale_codec::Encode>::encode_to`: writes the sixteen
/// little-endian bytes of the number.
#[verifier::external_body]
pub(crate) fn scale_encode_u128(value: u128, dest: &mut EncodeScope<'_>)
    ensures
        written_to(*old(dest), *final(dest), spec_u128_to_le_bytes(value)),
{
    parity_scale_codec::Encode::encode_to(&value, dest)
}

/// `<[u8; N] as parity_scale_codec::Encode>::encode_to`: writes the bytes of
/// the array, with no length in front.
#[verifier::external_body]
pub(crate) fn scale_encode_array<const N: usize>(value: &[u8; N], dest: &mut EncodeScope<'_>)
    ensures
        written_to(*old(dest), *final(dest), value@),
{
    parity_scale_codec::Encode::encode_to(value, dest)
}

/// `<Compact<u32> as parity_scale_codec::Encode>::encode_to`: writes the
/// number in compact form.
#[verifier::external_body]
pub(crate) fn scale_encode_compact_u32(value: u32, dest: &mut EncodeScope<'_>)
    ensures
        written_to(*old(dest), *final(dest), compact_encoding(value)),
{
    parity_scale_codec::Encode::encode_to(&parity_scale_codec::Compact(value), dest)
}

/// `<u8 as parity_scale_codec::Decode>::decode` on a byte slice: succeeds
/// where there is a byte, and yields the first one.
#[verifier::external_body]
pub(crate) fn scale_decode_u8(input: &[u8]) -> (result: Result<u8, parity_scale_codec::Error>)
    ensures
        result is Ok <==> input@.len() >= 1,
        result matches Ok(value) ==> value == input@[0],
{
    let mut rest = input;
    <u8 as parity_scale_codec::Decode>::decode(&mut rest)
}

/// `<u32 as parity_scale_codec::Decode>::decode` on a byte slice: succeeds
/// where there are four bytes, and reads the first four as a little-endian
/// number.
#[verifier::external_body]
pub(crate) fn scale_decode_u32(input: &[u8]) -> (result: Result<u32, parity_scale_codec::Error>)
    ensures
        result is Ok <==> input@.len() >= 4,
        result matches Ok(value) ==> value == spec_u32_from_le_bytes(input@.take(4)),
{
    let mut rest = input;
    <u32 as parity_scale_codec::Decode>::decode(&mut rest)
}

/// `<u64 as parity_scale_codec::Decode>::decode` on a byte slice: succeeds
/// where there are eight bytes, and reads the first eight as a little-endian
/// number.
#[verifier::external_body]
pub(crate) fn scale_decode_u64(input: &[u8]) -> (result: Result<u64, parity_scale_codec::Error>)
    ensures
        result is Ok <==> input@.len() >= 8,
        result matches Ok(value) ==> value == spec_u64_from_le_bytes(input@.take(8)),
{
    let mut rest = input;
    <u64 as parity_scale_codec::Decode>::decode(&mut rest)
}

/// `<u128 as parity_scale_codec::Decode>::decode` on a byte slice: succeeds
/// where there are sixteen bytes, and reads the first sixteen as a
/// little-endian number.
#[verifier::external_body]
pub(crate) fn scale_decode_u128(input: &[u8]) -> (result: Result<u128, parity_scale_codec::Error>)
    ensures
        result is Ok <==> input@.len() >= 16,
        result matches Ok(value) ==> value == spec_u128_from_le_bytes(input@.take(16)),
{
    let mut rest = input;
    <u128 as parity_scale_codec::Decode>::decode(&mut rest)
}

/// `<[u8; N] as parity_scale_codec::Decode>::decode` on a byte slice:
/// succeeds where there are `N` bytes, and yields the first `N`.
#[verifier::external_body]
pub(crate) fn scale_decode_array<const N: usize>(input: &[u8]) -> (result: Result<
    [u8; N],
    parity_scale_codec::Error,
>)
    ensures
        result is Ok <==> input@.len() >= N,
        result matches Ok(value) ==> value@ == input@.take(N as int),
{
    let mut rest = input;
    <[u8; N] as parity_scale_codec::Decode>::decode(&mut rest)
}

} // verus!
