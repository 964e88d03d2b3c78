//! The types that a deployment target fixes: account ids, balances, hashes,
//! timestamps and block numbers, and the traits that operations ask of them.

use vstd::prelude::*;
use vstd::bytes::*;
use vstd::array::ref_mut_array_unsizing_coercion;
use crate::buffer::EncodeScope;
use crate::codec::{Codec, Decode, Encode};
use crate::error::EnvError;

verus! {

/// A number that the host hands over as its little-endian bytes at fixed
/// width, with no encoding on top.
pub trait FromLittleEndian: Sized {
    /// The byte array that holds the little-endian bytes.
    type Bytes;

    /// The bytes that a byte array holds.
    spec fn bytes_of(bytes: Self::Bytes) -> Seq<u8>;

    /// The number that little-endian bytes stand for.
    spec fn spec_from_le_bytes(bytes: Seq<u8>) -> Self;

    /// Returns the number that the little-endian bytes stand for.
    fn from_le_bytes(bytes: Self::Bytes) -> (value: Self)
        ensures
            value == Self::spec_from_le_bytes(Self::bytes_of(bytes)),
    ;
}

impl FromLittleEndian for u8 {
    type Bytes = [u8; 1];

    open spec fn bytes_of(bytes: [u8; 1]) -> Seq<u8> {
        bytes@
    }

    open spec fn spec_from_le_bytes(bytes: Seq<u8>) -> u8 {
        bytes[0]
    }

    fn from_le_bytes(bytes: [u8; 1]) -> u8 {
        bytes[0]
    }
}

impl FromLittleEndian for u16 {
    type Bytes = [u8; 2];

    open spec fn bytes_of(bytes: [u8; 2]) -> Seq<u8> {
        bytes@
    }

    open spec fn spec_from_le_bytes(bytes: Seq<u8>) -> u16 {
        spec_u16_from_le_bytes(bytes)
    }

    fn from_le_bytes(bytes: [u8; 2]) -> u16 {
        u16_from_le_bytes(bytes.as_slice())
    }
}

impl FromLittleEndian for u32 {
    type Bytes = [u8; 4];

    open spec fn bytes_of(bytes: [u8; 4]) -> Seq<u8> {
        bytes@
    }

    open spec fn spec_from_le_bytes(bytes: Seq<u8>) -> u32 {
        spec_u32_from_le_bytes(bytes)
    }

    fn from_le_bytes(bytes: [u8; 4]) -> u32 {
        u32_from_le_bytes(bytes.as_slice())
    }
}

impl FromLittleEndian for u64 {
    type Bytes = [u8; 8];

    open spec fn bytes_of(bytes: [u8; 8]) -> Seq<u8> {
        bytes@
    }

    open spec fn spec_from_le_bytes(bytes: Seq<u8>) -> u64 {
        spec_u64_from_le_bytes(bytes)
    }

    fn from_le_bytes(bytes: [u8; 8]) -> u64 {
        u64_from_le_bytes(bytes.as_slice())
    }
}

impl FromLittleEndian for u128 {
    type Bytes = [u8; 16];

    open spec fn bytes_of(bytes: [u8; 16]) -> Seq<u8> {
        bytes@
    }

    open spec fn spec_from_le_bytes(bytes: Seq<u8>) -> u128 {
        spec_u128_from_le_bytes(bytes)
    }

    fn from_le_bytes(bytes: [u8; 16]) -> u128 {
        u128_from_le_bytes(bytes.as_slice())
    }
}

/// A number that is handed over as its little-endian bytes is the number
/// that its encoding decodes to: the encoding of a number of fixed width is
/// its little-endian bytes.
pub proof fn lemma_little_endian_is_canonical()
    ensures
        forall|value: u8| u8::spec_from_le_bytes(#[trigger] value.encoding()) == value,
        forall|value: u32| u32::spec_from_le_bytes(#[trigger] value.encoding()) == value,
        forall|value: u64| u64::spec_from_le_bytes(#[trigger] value.encoding()) == value,
        forall|value: u128| u128::spec_from_le_bytes(#[trigger] value.encoding()) == value,
{
    lemma_auto_spec_u32_to_from_le_bytes();
    lemma_auto_spec_u64_to_from_le_bytes();
    lemma_auto_spec_u128_to_from_le_bytes();
    assert forall|value: u32| u32::spec_from_le_bytes(#[trigger] value.encoding()) == value by {
        assert(value.encoding() == spec_u32_to_le_bytes(value));
    }
    assert forall|value: u64| u64::spec_from_le_bytes(#[trigger] value.encoding()) == value by {
        assert(value.encoding() == spec_u64_to_le_bytes(value));
    }
    assert forall|value: u128| u128::spec_from_le_bytes(#[trigger] value.encoding()) == value by {
        assert(value.encoding() == spec_u128_to_le_bytes(value));
    }
}

/// `n` zero bytes.
pub open spec fn zeros(n: nat) -> Seq<u8> {
    Seq::new(n, |i: int| 0u8)
}

/// A hash value: a fixed number of bytes that is encoded as those bytes.
pub trait HashBytes: Encode + Sized {
    /// The number of bytes of every value of the type.
    spec fn width() -> nat;

    /// The bytes of the value.
    spec fn bytes(&self) -> Seq<u8>;

    /// Every value has `width()` bytes, and its encoding is its bytes.
    proof fn lemma_bytes(&self)
        ensures
            self.bytes().len() == Self::width(),
            self.encoding() == self.bytes(),
    ;

    /// Returns the value whose bytes are all zero.
    fn clear() -> (hash: Self)
        ensures
            hash.bytes() == zeros(Self::width()),
    ;

    /// Returns the bytes of the value.
    fn as_ref(&self) -> (bytes: &[u8])
        ensures
            bytes@ == self.bytes(),
    ;

    /// Returns the bytes of the value, to be written to.
    fn as_mut(&mut self) -> (bytes: &mut [u8])
        ensures
            bytes@ == old(self).bytes(),
            final(self).bytes() == final(bytes)@,
    ;
}

/// The default account id: 32 bytes.
#[derive(Clone, Copy, Debug, PartialEq, Eq)]
pub struct AccountId(pub [u8; 32]);

/// The default hash: 32 bytes.
#[derive(Clone, Copy, Debug, PartialEq, Eq)]
pub struct Hash(pub [u8; 32]);

impl Encode for AccountId {
    open spec fn encoding(&self) -> Seq<u8> {
        self.0@
    }

    fn encode_to(&self, dest: &mut EncodeScope<'_>) {
        self.0.encode_to(dest)
    }
}

impl Decode for AccountId {
    open spec fn decoding(bytes: Seq<u8>) -> Option<(AccountId, nat)> {
        match <[u8; 32]>::decoding(bytes) {
            Some((array, n)) => Some((AccountId(array), n)),
            None => None,
        }
    }

    proof fn lemma_decoding_in_bounds(bytes: Seq<u8>) {
    }

    fn decode(input: &[u8]) -> (result: Result<(AccountId, usize), EnvError>) {
        match <[u8; 32]>::decode(input) {
            Ok((array, n)) => Ok((AccountId(array), n)),
            Err(e) => Err(e),
        }
    }
}

impl Codec for AccountId {
    proof fn lemma_round_trip(&self, rest: Seq<u8>) {
        self.0.lemma_round_trip(rest);
    }
}

impl Encode for Hash {
    open spec fn encoding(&self) -> Seq<u8> {
        self.0@
    }

    fn encode_to(&self, dest: &mut EncodeScope<'_>) {
        self.0.encode_to(dest)
    }
}

impl Decode for Hash {
    open spec fn decoding(bytes: Seq<u8>) -> Option<(Hash, nat)> {
        match <[u8; 32]>::decoding(bytes) {
            Some((array, n)) => Some((Hash(array), n)),
            None => None,
        }
    }

    proof fn lemma_decoding_in_bounds(bytes: Seq<u8>) {
    }

    fn decode(input: &[u8]) -> (result: Result<(Hash, usize), EnvError>) {
        match <[u8; 32]>::decode(input) {
            Ok((array, n)) => Ok((Hash(array), n)),
            Err(e) => Err(e),
        }
    }
}

impl Codec for Hash {
    proof fn lemma_round_trip(&self, rest: Seq<u8>) {
        self.0.lemma_round_trip(rest);
    }
}

impl HashBytes for Hash {
    open spec fn width() -> nat {
        32
    }

    open spec fn bytes(&self) -> Seq<u8> {
        self.0@
    }

    proof fn lemma_bytes(&self) {
    }

    fn clear() -> (hash: Hash) {
        let hash = Hash([0u8; 32]);
        assert(hash.0@ =~= zeros(32));
        hash
    }

    fn as_ref(&self) -> (bytes: &[u8]) {
        self.0.as_slice()
    }

    fn as_mut(&mut self) -> (bytes: &mut [u8]) {
        ref_mut_array_unsizing_coercion(&mut self.0)
    }
}

/// The types that a deployment target fixes.
pub trait Environment {
    /// The type of an address.
    type AccountId: Codec;

    /// The type of balances.
    type Balance: Codec + FromLittleEndian;

    /// The type of hashes.
    type Hash: Codec + HashBytes;

    /// The type of a timestamp.
    type Timestamp: Codec + FromLittleEndian;

    /// The type of block numbers.
    type BlockNumber: Codec + FromLittleEndian;
}

/// The types of the default deployment target.
pub struct DefaultEnvironment;

impl Environment for DefaultEnvironment {
    type AccountId = AccountId;

    type Balance = u128;

    type Hash = Hash;

    type Timestamp = u64;

    type BlockNumber = u32;
}

/// An error of the contract language itself, as opposed to an error of the
/// contract.
#[derive(Clone, Copy, Debug, PartialEq, Eq, Structural)]
pub enum LangError {
    /// The callee failed to read the execution input of the call.
    CouldNotReadInput,
}

impl Encode for LangError {
    open spec fn encoding(&self) -> Seq<u8> {
        seq![1u8]
    }

    fn encode_to(&self, dest: &mut EncodeScope<'_>) {
        dest.write_byte(1);
    }
}

impl Decode for LangError {
    open spec fn decoding(bytes: Seq<u8>) -> Option<(LangError, nat)> {
        if bytes.len() >= 1 && bytes[0] == 1 {
            Some((LangError::CouldNotReadInput, 1nat))
        } else {
            None
        }
    }

    proof fn lemma_decoding_in_bounds(bytes: Seq<u8>) {
    }

    fn decode(input: &[u8]) -> (result: Result<(LangError, usize), EnvError>) {
        if input.len() >= 1 && input[0] == 1 {
            Ok((LangError::CouldNotReadInput, 1))
        } else {
            Err(EnvError::Decode)
        }
    }
}

impl Codec for LangError {
    proof fn lemma_round_trip(&self, rest: Seq<u8>) {
    }
}

/// The result of a message of another contract: what the message returned,
/// or the error for which the callee could not run it.
pub type MessageResult<T> = Result<T, LangError>;

/// The result of a constructor of another contract: what the constructor
/// returned, or the error for which the callee could not run it.
pub type ConstructorResult<T> = Result<T, LangError>;

} // verus!
