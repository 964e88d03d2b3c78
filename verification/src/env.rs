//! The environment instance: the scratch buffer of one invocation and the
//! layout of every operation in it.
//!
//! An operation is made in three steps. A function here lays out the
//! encoded arguments and the output region in the buffer; the caller hands
//! those regions to the host; a second function turns the host's status and
//! output into the typed result. A layout that does not fit the buffer is
//! reported as `None`: the invocation cannot go on then.

use vstd::prelude::*;
use vstd::array::ref_mut_array_unsizing_coercion;
use vstd::string::StringSliceAdditionalSpecFns;
use crate::buffer::ScopedBuffer;
use crate::codec::{decode_all, decoding_all, lemma_encode_then_decode, Codec, Decode, Encode};
use crate::debug::{spec_after_message, spec_attempts, DebugState};
use crate::error::{EnvError, HostResult, ReturnErrorCode};
use crate::topics::TopicsBuilder;
use crate::types::{Environment, FromLittleEndian};

verus! {

/// The size of the scratch buffer in bytes.
pub const BUFFER_CAPACITY: usize = 16384;

/// The environment of one contract invocation.
pub struct EnvInstance {
    /// The scratch buffer that every operation lays out its regions in.
    buffer: [u8; BUFFER_CAPACITY],
    /// Whether the host has accepted a debug message.
    debug_enabled: bool,
    /// Whether no debug message was attempted yet.
    first_run: bool,
}

/// The regions of an operation that hands the host one encoded argument and
/// gets bytes back.
pub struct LookupRegions<'a> {
    /// The encoded argument.
    pub input: &'a mut [u8],
    /// The rest of the buffer, for the host to write its output to.
    pub output: &'a mut [u8],
}

/// The regions of an operation that hands the host two encoded arguments.
pub struct PairRegions<'a> {
    /// The first encoded argument.
    pub first: &'a mut [u8],
    /// The second encoded argument.
    pub second: &'a mut [u8],
}

/// The typed result of a storage lookup for which the host has answered
/// with `status` and has left `output` in the output region.
pub open spec fn spec_storage_result<R: Decode>(status: HostResult, output: Seq<u8>) -> Result<
    Option<R>,
    EnvError,
> {
    match status {
        Ok(()) => match decoding_all::<R>(output) {
            Some(value) => Ok(Some(value)),
            None => Err(EnvError::Decode),
        },
        Err(ReturnErrorCode::KeyNotFound) => Ok(None),
        Err(code) => Err(EnvError::UnexpectedStatus(code)),
    }
}

/// The size of the region for a code hash.
pub const CODE_HASH_REGION_LEN: usize = 32;

/// The typed result of a code hash query for which the host has answered
/// with `status` and has left `output` in the output region.
pub open spec fn spec_code_hash_result<H: Decode>(status: HostResult, output: Seq<u8>) -> Result<
    H,
    EnvError,
> {
    match status {
        Ok(()) => match H::decoding(output) {
            Some((hash, _)) => Ok(hash),
            None => Err(EnvError::Decode),
        },
        Err(code) => Err(EnvError::ReturnError(code)),
    }
}

/// A read or a take of a key that the host does not know yields an absent
/// value and no error, whatever the output region holds.
pub proof fn lemma_unknown_key_is_absent<R: Decode>(output: Seq<u8>)
    ensures
        spec_storage_result::<R>(Err(ReturnErrorCode::KeyNotFound), output) == Ok::<
            Option<R>,
            EnvError,
        >(None),
{
}

/// The host's answer to a read of the encoded key `key`, where `storage`
/// is what the host keeps for the contract, encoded values by encoded keys:
/// the status, and the bytes that the host leaves in the output region.
pub open spec fn spec_host_read(storage: Map<Seq<u8>, Seq<u8>>, key: Seq<u8>) -> (
    HostResult,
    Seq<u8>,
) {
    if storage.contains_key(key) {
        (Ok(()), storage[key])
    } else {
        (Err(ReturnErrorCode::KeyNotFound), Seq::empty())
    }
}

/// The typed result of a read of `key` from `storage`.
pub open spec fn spec_read<K: Encode, R: Decode>(storage: Map<Seq<u8>, Seq<u8>>, key: K) -> Result<
    Option<R>,
    EnvError,
> {
    let answer = spec_host_read(storage, key.encoding());
    spec_storage_result::<R>(answer.0, answer.1)
}

/// A read of a key that was never written yields an absent value.
pub proof fn lemma_read_of_unwritten_key<K: Encode, R: Decode>(
    storage: Map<Seq<u8>, Seq<u8>>,
    key: K,
)
    requires
        !storage.contains_key(key.encoding()),
    ensures
        spec_read::<K, R>(storage, key) == Ok::<Option<R>, EnvError>(None),
{
}

/// A read of a key that was cleared yields an absent value.
pub proof fn lemma_read_of_cleared_key<K: Encode, R: Decode>(
    storage: Map<Seq<u8>, Seq<u8>>,
    key: K,
)
    ensures
        spec_read::<K, R>(storage.remove(key.encoding()), key) == Ok::<Option<R>, EnvError>(None),
{
}

/// A read of a key that was written yields the value that was written.
pub proof fn lemma_read_of_written_key<K: Encode, V: Codec>(
    storage: Map<Seq<u8>, Seq<u8>>,
    key: K,
    value: V,
)
    ensures
        spec_read::<K, V>(storage.insert(key.encoding(), value.encoding()), key) == Ok::<
            Option<V>,
            EnvError,
        >(Some(value)),
{
    lemma_encode_then_decode(value);
}

impl EnvInstance {
    /// Creates the environment of an invocation, with a zeroed buffer.
    pub fn new() -> (env: Self)
        ensures
            env.debug_state() == DebugState::FirstAttempt,
    {
        EnvInstance { buffer: [0u8; BUFFER_CAPACITY], debug_enabled: false, first_run: true }
    }

    /// The state of the switch in front of debug messages.
    pub closed spec fn debug_state(&self) -> DebugState {
        if self.debug_enabled {
            DebugState::Enabled
        } else if self.first_run {
            DebugState::FirstAttempt
        } else {
            DebugState::Disabled
        }
    }

    /// Returns a new scoped buffer for the entire scope of the buffer.
    pub fn scoped_buffer(&mut self) -> (scoped: ScopedBuffer<'_>)
        ensures
            scoped.appended() == Seq::<u8>::empty(),
            scoped.unused().len() == BUFFER_CAPACITY,
            final(self).debug_state() == old(self).debug_state(),
    {
        ScopedBuffer::from(ref_mut_array_unsizing_coercion(&mut self.buffer))
    }

    /// Returns the contract property value from its little-endian
    /// representation, as the host has written it to `bytes`. This skips the
    /// decoding step.
    pub fn get_property_little_endian<T: FromLittleEndian>(bytes: T::Bytes) -> (value: T)
        ensures
            value == T::spec_from_le_bytes(T::bytes_of(bytes)),
    {
        T::from_le_bytes(bytes)
    }

    /// Hands out the whole buffer for the host to write a property to.
    pub fn prepare_property(&mut self) -> (output: &mut [u8])
        ensures
            output@.len() == BUFFER_CAPACITY,
            final(self).debug_state() == old(self).debug_state(),
    {
        self.scoped_buffer().take_rest()
    }

    /// Returns the contract property value that the host has written to
    /// `filled`: the value that `filled` starts with.
    pub fn get_property<T: Decode>(filled: &[u8]) -> (result: Result<T, EnvError>)
        ensures
            match result {
                Ok(value) => T::decoding(filled@) matches Some((v, _)) && v == value,
                Err(e) => e == EnvError::Decode && T::decoding(filled@) is None,
            },
    {
        match T::decode(filled) {
            Ok((value, _)) => Ok(value),
            Err(e) => Err(e),
        }
    }

    /// Lays out one encoded argument at the start of the buffer. This is the
    /// layout of the operations that ask the host about a storage key or an
    /// account, that dispatch a runtime call, that hash an encoded value,
    /// and that end the invocation with a return value or a beneficiary.
    pub fn prepare_argument<T: Encode>(&mut self, value: &T) -> (region: Option<&mut [u8]>)
        ensures
            match region {
                Some(region) => {
                    &&& value.encoding().len() <= BUFFER_CAPACITY
                    &&& region@ == value.encoding()
                },
                None => value.encoding().len() > BUFFER_CAPACITY,
            },
            final(self).debug_state() == old(self).debug_state(),
    {
        let mut buffer = self.scoped_buffer();
        buffer.try_take_encoded(value)
    }

    /// Lays out two encoded arguments, one after the other. This is the
    /// layout of a storage write (key and value) and of a transfer
    /// (destination and value).
    pub fn prepare_arguments<A: Encode, B: Encode>(&mut self, first: &A, second: &B) -> (regions:
        Option<PairRegions<'_>>)
        ensures
            match regions {
                Some(regions) => {
                    &&& first.encoding().len() + second.encoding().len() <= BUFFER_CAPACITY
                    &&& regions.first@ == first.encoding()
                    &&& regions.second@ == second.encoding()
                },
                None => first.encoding().len() + second.encoding().len() > BUFFER_CAPACITY,
            },
            final(self).debug_state() == old(self).debug_state(),
    {
        let mut buffer = self.scoped_buffer();
        let first = match buffer.try_take_encoded(first) {
            Some(region) => region,
            None => {
                return None;
            },
        };
        match buffer.try_take_encoded(second) {
            Some(second) => Some(PairRegions { first, second }),
            None => None,
        }
    }

    /// Lays out a lookup: the encoded argument, and the rest of the buffer
    /// for the host's output. This is the layout of a storage read, of a
    /// storage take and of a chain extension call.
    pub fn prepare_lookup<K: Encode>(&mut self, key: &K) -> (regions: Option<
        LookupRegions<'_>,
    >)
        ensures
            match regions {
                Some(regions) => {
                    &&& key.encoding().len() <= BUFFER_CAPACITY
                    &&& regions.input@ == key.encoding()
                    &&& regions.output@.len() == BUFFER_CAPACITY - key.encoding().len()
                },
                None => key.encoding().len() > BUFFER_CAPACITY,
            },
            final(self).debug_state() == old(self).debug_state(),
    {
        let mut buffer = self.scoped_buffer();
        match buffer.try_take_encoded(key) {
            Some(input) => {
                let output = buffer.take_rest();
                Some(LookupRegions { input, output })
            },
            None => None,
        }
    }

    /// Turns the host's answer to a storage read or a storage take into the
    /// typed result. A key that the host does not know is no error but an
    /// absent value. A value must decode with no byte left over. Any other
    /// status is a breach of the protocol and ends the invocation.
    pub fn finish_storage_lookup<R: Decode>(status: HostResult, output: &[u8]) -> (result:
        Result<Option<R>, EnvError>)
        ensures
            result == spec_storage_result::<R>(status, output@),
    {
        match status {
            Ok(()) => match decode_all::<R>(output) {
                Ok(value) => Ok(Some(value)),
                Err(e) => Err(e),
            },
            Err(ReturnErrorCode::KeyNotFound) => Ok(None),
            Err(code) => Err(EnvError::UnexpectedStatus(code)),
        }
    }

    /// Lays out a code hash query: 32 bytes for the hash, and behind them
    /// the encoded account.
    pub fn prepare_code_hash<T: Encode>(&mut self, account_id: &T) -> (regions: Option<
        LookupRegions<'_>,
    >)
        ensures
            match regions {
                Some(regions) => {
                    &&& CODE_HASH_REGION_LEN + account_id.encoding().len() <= BUFFER_CAPACITY
                    &&& regions.input@ == account_id.encoding()
                    &&& regions.output@.len() == CODE_HASH_REGION_LEN
                },
                None => CODE_HASH_REGION_LEN + account_id.encoding().len() > BUFFER_CAPACITY,
            },
            final(self).debug_state() == old(self).debug_state(),
    {
        let mut scope = self.scoped_buffer();
        let output = scope.take(CODE_HASH_REGION_LEN);
        if scope.try_append_encoded(account_id) {
            let input = scope.take_appended();
            assert(input@ =~= account_id.encoding());
            Some(LookupRegions { input, output })
        } else {
            None
        }
    }

    /// Hands out 32 bytes for the host to write the hash of the running
    /// code to.
    pub fn prepare_own_code_hash(&mut self) -> (output: &mut [u8])
        ensures
            output@.len() == CODE_HASH_REGION_LEN,
            final(self).debug_state() == old(self).debug_state(),
    {
        self.scoped_buffer().take(CODE_HASH_REGION_LEN)
    }

    /// Turns the host's answer to a code hash query into the typed result:
    /// an error status is the error of the query, and after success the
    /// output starts with the hash.
    pub fn finish_code_hash<H: Decode>(status: HostResult, output: &[u8]) -> (result: Result<
        H,
        EnvError,
    >)
        ensures
            result == spec_code_hash_result::<H>(status, output@),
    {
        match status {
            Ok(()) => match H::decode(output) {
                Ok((hash, _)) => Ok(hash),
                Err(e) => Err(e),
            },
            Err(code) => Err(EnvError::ReturnError(code)),
        }
    }

    /// Says whether a debug message is handed to the host, and as which
    /// bytes. The first message of an invocation always is. Later ones are
    /// where the host has accepted a message before, and are not where it
    /// has refused the first.
    pub fn debug_message<'b>(&self, content: &'b str) -> (attempt: Option<&'b [u8]>)
        ensures
            match attempt {
                Some(bytes) => spec_attempts(self.debug_state()) && bytes@ == content.spec_bytes(),
                None => !spec_attempts(self.debug_state()),
            },
    {
        if self.debug_enabled || self.first_run {
            Some(content.as_bytes())
        } else {
            None
        }
    }

    /// Records the host's answer to a debug message that was handed to it.
    /// Any answer but `LoggingDisabled` switches messages on for the rest of
    /// the invocation. An answer to a message that was not to be handed to
    /// the host changes nothing.
    pub fn debug_message_sent(&mut self, status: HostResult)
        ensures
            final(self).debug_state() == spec_after_message(old(self).debug_state(), status),
    {
        if self.debug_enabled || self.first_run {
            let rejected = match status {
                Err(ReturnErrorCode::LoggingDisabled) => true,
                _ => false,
            };
            if !rejected {
                self.debug_enabled = true;
            }
            self.first_run = false;
        }
    }

    /// Starts the list of topics of an event at the start of the buffer.
    pub fn topics_builder<E: Environment>(&mut self) -> (builder: TopicsBuilder<'_, E>)
        ensures
            builder.encoded() == Seq::<u8>::empty(),
            builder.room() == BUFFER_CAPACITY,
            final(self).debug_state() == old(self).debug_state(),
    {
        TopicsBuilder::from(self.scoped_buffer())
    }

    /// Lays out an event whose topics are built: the encoded list of topics,
    /// and behind it the encoded event.
    pub fn prepare_emit_event<'a, E: Environment, Evt: Encode>(
        builder: TopicsBuilder<'a, E>,
        event: &Evt,
    ) -> (regions: Option<PairRegions<'a>>)
        ensures
            match regions {
                Some(regions) => {
                    &&& event.encoding().len() <= builder.room()
                    &&& regions.first@ == builder.encoded()
                    &&& regions.second@ == event.encoding()
                },
                None => event.encoding().len() > builder.room(),
            },
    {
        let (mut scope, enc_topics) = builder.output();
        match scope.try_take_encoded(event) {
            Some(enc_data) => Some(PairRegions { first: enc_topics, second: enc_data }),
            None => None,
        }
    }

    /// Turns the host's answer to a chain extension call into the typed
    /// result: `status_to_result` judges the status code, and where it
    /// finds no fault, `decode_to_result` reads the output.
    pub fn finish_call_chain_extension<T, E, ErrorCode, F, D>(
        status: u32,
        output: &[u8],
        status_to_result: F,
        decode_to_result: D,
    ) -> (result: Result<T, E>) where
        E: From<ErrorCode>,
        F: FnOnce(u32) -> Result<(), ErrorCode>,
        D: FnOnce(&[u8]) -> Result<T, E>,

        requires
            call_requires(status_to_result, (status,)),
            call_requires(decode_to_result, (output,)),
            forall|code: ErrorCode| call_requires(E::from, (code,)),
        ensures
            exists|judged: Result<(), ErrorCode>|
                {
                    &&& #[trigger] call_ensures(status_to_result, (status,), judged)
                    &&& judged is Ok ==> call_ensures(decode_to_result, (output,), result)
                    &&& judged is Err ==> result is Err && call_ensures(
                        E::from,
                        (judged->Err_0,),
                        result->Err_0,
                    )
                },
    {
        let judged = status_to_result(status);
        let ghost witness = judged;
        assert(call_ensures(status_to_result, (status,), witness));
        match judged {
            Ok(_) => decode_to_result(output),
            Err(code) => Err(E::from(code)),
        }
    }
}

} // verus!
