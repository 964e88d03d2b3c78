//! Calls into other contracts: plain calls, delegate calls and
//! instantiations.
//!
//! A callee that reverts is no failure of the call: the host hands back the
//! callee's output, and the output decodes to the callee's own result. Only
//! a status other than success and revert is an error of the call.

use vstd::prelude::*;
use crate::buffer::ScopedBuffer;
use crate::codec::{decode_all, decoding_all, lemma_encode_then_decode, Codec, Decode, Encode};
use crate::env::{EnvInstance, BUFFER_CAPACITY};
use crate::error::{EnvError, HostResult, ReturnErrorCode};
use crate::types::{ConstructorResult, Environment, LangError, MessageResult};

verus! {

/// The bit of the flag that forwards the input of the current call to the
/// callee and consumes it.
pub const FORWARD_INPUT: u32 = 0b0000_0001;

/// The bit of the flag that forwards a copy of the input of the current
/// call to the callee.
pub const CLONE_INPUT: u32 = 0b0000_0010;

/// The bit of the flag that hands the callee's result to the caller's
/// caller.
pub const TAIL_CALL: u32 = 0b0000_0100;

/// The bit of the flag that allows the callee to reenter the caller.
pub const ALLOW_REENTRY: u32 = 0b0000_1000;

/// The flags that customise a call: a set of the four flag bits.
#[derive(Clone, Copy, Debug, PartialEq, Eq, Structural)]
pub struct CallFlags {
    bits: u32,
}

impl CallFlags {
    /// The bits of the flags that are set.
    pub closed spec fn spec_bits(self) -> u32 {
        self.bits
    }

    /// Whether every bit of `flag` is set.
    pub open spec fn spec_contains(self, flag: u32) -> bool {
        self.spec_bits() & flag == flag
    }

    /// Whether the callee gets the input of the current call, so that the
    /// call has no input of its own.
    pub open spec fn reuses_input(self) -> bool {
        self.spec_contains(FORWARD_INPUT) || self.spec_contains(CLONE_INPUT)
    }

    /// Returns the flags with no bit set.
    pub fn empty() -> (flags: Self)
        ensures
            flags.spec_bits() == 0,
    {
        CallFlags { bits: 0 }
    }

    /// Returns the flags with the given bits set; bits that are no flag are
    /// dropped.
    pub fn from_bits_truncate(bits: u32) -> (flags: Self)
        ensures
            flags.spec_bits() == bits & 0b1111,
    {
        CallFlags { bits: bits & 0b1111 }
    }

    /// Returns the bits of the flags that are set.
    pub fn bits(&self) -> (bits: u32)
        ensures
            bits == self.spec_bits(),
    {
        self.bits
    }

    /// Returns whether every bit of `flag` is set.
    pub fn contains(&self, flag: u32) -> (contained: bool)
        ensures
            contained == self.spec_contains(flag),
    {
        self.bits & flag == flag
    }
}

/// The parameters of a plain call.
pub struct Call<E: Environment> {
    /// The account of the callee.
    pub callee: E::AccountId,
    /// The most gas that the callee may use.
    pub gas_limit: u64,
    /// The value that is transferred with the call.
    pub transferred_value: E::Balance,
    /// The flags of the call.
    pub call_flags: CallFlags,
}

/// The parameters of a delegate call.
pub struct DelegateCall<E: Environment> {
    /// The hash of the code that is run.
    pub code_hash: E::Hash,
    /// The flags of the call.
    pub call_flags: CallFlags,
}

/// A call with its input.
pub struct CallParams<CallType, Args> {
    /// The kind of call and its parameters.
    pub call_type: CallType,
    /// The input for the callee: a selector and the arguments.
    pub exec_input: Args,
}

/// The parameters of an instantiation.
pub struct CreateParams<E: Environment, Args> {
    /// The hash of the code of the new contract.
    pub code_hash: E::Hash,
    /// The most gas that the constructor may use.
    pub gas_limit: u64,
    /// The value that the new contract is endowed with.
    pub endowment: E::Balance,
    /// The input for the constructor: a selector and the arguments.
    pub exec_input: Args,
    /// The salt that goes into the address of the new contract.
    pub salt_bytes: Vec<u8>,
}

/// The regions of a plain call.
pub struct CallRegions<'a> {
    /// The encoded account of the callee.
    pub callee: &'a mut [u8],
    /// The encoded value that is transferred.
    pub transferred_value: &'a mut [u8],
    /// The encoded input, or nothing where the callee gets the input of the
    /// current call.
    pub input: &'a mut [u8],
    /// The rest of the buffer, for the output of the callee.
    pub output: &'a mut [u8],
}

/// The regions of a delegate call.
pub struct DelegateCallRegions<'a> {
    /// The encoded code hash.
    pub code_hash: &'a mut [u8],
    /// The encoded input, or nothing where the callee gets the input of the
    /// current call.
    pub input: &'a mut [u8],
    /// The rest of the buffer, for the output of the callee.
    pub output: &'a mut [u8],
}

/// The size of the region for the address of a new contract. An address
/// whose encoding is longer cannot be taken.
pub const ADDRESS_REGION_LEN: usize = 1024;

/// The regions of an instantiation.
pub struct CreateRegions<'a> {
    /// The encoded code hash.
    pub code_hash: &'a mut [u8],
    /// The encoded endowment.
    pub endowment: &'a mut [u8],
    /// The encoded input of the constructor.
    pub input: &'a mut [u8],
    /// The region for the address of the new contract.
    pub out_address: &'a mut [u8],
    /// The rest of the buffer, for the output of the constructor.
    pub out_return_value: &'a mut [u8],
}

/// The input bytes that a call with `flags` hands to the host: none where
/// the callee gets the input of the current call, else the encoding.
pub open spec fn spec_call_input(flags: CallFlags, encoded: Seq<u8>) -> Seq<u8> {
    if flags.reuses_input() {
        Seq::empty()
    } else {
        encoded
    }
}

/// The typed result of a call for which the host has answered with `status`
/// and has left `output` in the output region.
pub open spec fn spec_call_result<R: Decode>(status: HostResult, output: Seq<u8>) -> Result<
    MessageResult<R>,
    EnvError,
> {
    match status {
        Ok(()) | Err(ReturnErrorCode::CalleeReverted) => match decoding_all::<MessageResult<R>>(
            output,
        ) {
            Some(decoded) => Ok(decoded),
            None => Err(EnvError::Decode),
        },
        Err(code) => Err(EnvError::ReturnError(code)),
    }
}

/// A call whose callee reverts is judged as a call that succeeds: the output
/// is decoded, and the only error that can come of it is that the output
/// does not decode. The status itself is never handed on as an error.
pub proof fn lemma_revert_is_decoded<R: Decode>(output: Seq<u8>)
    ensures
        spec_call_result::<R>(Err(ReturnErrorCode::CalleeReverted), output) == spec_call_result::<R>(
            Ok(()),
            output,
        ),
        spec_call_result::<R>(Err(ReturnErrorCode::CalleeReverted), output) matches Err(e) ==> e
            == EnvError::Decode,
{
}

/// A callee that reverts with an encoded result hands that result to the
/// caller.
pub proof fn lemma_revert_payload_is_returned<R: Codec>(payload: MessageResult<R>)
    ensures
        spec_call_result::<R>(Err(ReturnErrorCode::CalleeReverted), payload.encoding()) == Ok::<
            MessageResult<R>,
            EnvError,
        >(payload),
{
    lemma_encode_then_decode(payload);
}

/// Every status of a call other than success and revert is handed on as the
/// error of the call, whatever the output region holds.
pub proof fn lemma_other_status_is_error<R: Decode>(code: ReturnErrorCode, output: Seq<u8>)
    requires
        code != ReturnErrorCode::CalleeReverted,
    ensures
        spec_call_result::<R>(Err(code), output) == Err::<MessageResult<R>, EnvError>(
            EnvError::ReturnError(code),
        ),
{
}

/// The result of a constructor that has reverted, read from its output: a
/// zero byte and a one byte are followed by the contract's own error, a one
/// byte alone is followed by an error of the language. Output that is
/// neither does not decode; this holds also of output that claims success
/// of a constructor that has reverted.
pub open spec fn spec_constructor_revert<A, ContractError: Decode>(output: Seq<u8>) -> Result<
    ConstructorResult<Result<A, ContractError>>,
    EnvError,
> {
    if output.len() >= 2 && output[0] == 0 && output[1] == 1 {
        match ContractError::decoding(output.skip(2)) {
            Some((error, _)) => Ok(Ok(Err(error))),
            None => Err(EnvError::Decode),
        }
    } else if output.len() >= 1 && output[0] == 1 {
        match LangError::decoding(output.skip(1)) {
            Some((error, _)) => Ok(Err(error)),
            None => Err(EnvError::Decode),
        }
    } else {
        Err(EnvError::Decode)
    }
}

/// The typed result of an instantiation for which the host has answered
/// with `status`, has left `address` in the address region and `output` in
/// the output region.
pub open spec fn spec_instantiate_result<E: Environment, ContractError: Decode>(
    status: HostResult,
    address: Seq<u8>,
    output: Seq<u8>,
) -> Result<ConstructorResult<Result<E::AccountId, ContractError>>, EnvError> {
    match status {
        Ok(()) => match E::AccountId::decoding(address) {
            Some((account_id, _)) => Ok(Ok(Ok(account_id))),
            None => Err(EnvError::Decode),
        },
        Err(ReturnErrorCode::CalleeReverted) => spec_constructor_revert::<
            E::AccountId,
            ContractError,
        >(output),
        Err(code) => Err(EnvError::ReturnError(code)),
    }
}

/// Reads the result of a constructor that has reverted from its output.
fn decode_constructor_revert<A, ContractError: Decode>(output: &[u8]) -> (result: Result<
    ConstructorResult<Result<A, ContractError>>,
    EnvError,
>)
    ensures
        result == spec_constructor_revert::<A, ContractError>(output@),
{
    let len = output.len();
    if len >= 2 && output[0] == 0 && output[1] == 1 {
        let payload = vstd::slice::slice_subrange(output, 2, len);
        assert(payload@ =~= output@.skip(2));
        match ContractError::decode(payload) {
            Ok((error, _)) => Ok(Ok(Err(error))),
            Err(e) => Err(e),
        }
    } else if len >= 1 && output[0] == 1 {
        let payload = vstd::slice::slice_subrange(output, 1, len);
        assert(payload@ =~= output@.skip(1));
        match LangError::decode(payload) {
            Ok((error, _)) => Ok(Err(error)),
            Err(e) => Err(e),
        }
    } else {
        Err(EnvError::Decode)
    }
}

/// Encodes the input of a call, unless the callee gets the input of the
/// current call.
fn take_call_input<'a, Args: Encode>(
    scope: &mut ScopedBuffer<'a>,
    flags: &CallFlags,
    exec_input: &Args,
) -> (input: Option<&'a mut [u8]>)
    requires
        old(scope).appended().len() == 0,
    ensures
        final(scope).appended() == Seq::<u8>::empty(),
        match input {
            Some(input) => {
                &&& spec_call_input(*flags, exec_input.encoding()).len() <= old(scope).unused().len()
                &&& input@ == spec_call_input(*flags, exec_input.encoding())
                &&& final(scope).unused().len() == old(scope).unused().len() - input@.len()
            },
            None => spec_call_input(*flags, exec_input.encoding()).len() > old(
                scope,
            ).unused().len(),
        },
{
    if !flags.contains(FORWARD_INPUT) && !flags.contains(CLONE_INPUT) {
        scope.try_take_encoded(exec_input)
    } else {
        let nothing: &'a mut [u8] = &mut [];
        assert(nothing@ =~= Seq::<u8>::empty());
        Some(nothing)
    }
}

impl EnvInstance {
    /// Lays out a plain call: the callee, the transferred value, the input
    /// unless the flags forward the input of the current call, and the rest
    /// of the buffer for the output.
    pub fn prepare_invoke_contract<E: Environment, Args: Encode>(
        &mut self,
        params: &CallParams<Call<E>, Args>,
    ) -> (regions: Option<CallRegions<'_>>)
        ensures
            match regions {
                Some(regions) => {
                    &&& spec_call_len(params) <= BUFFER_CAPACITY
                    &&& regions.callee@ == params.call_type.callee.encoding()
                    &&& regions.transferred_value@ == params.call_type.transferred_value.encoding()
                    &&& regions.input@ == spec_call_input(
                        params.call_type.call_flags,
                        params.exec_input.encoding(),
                    )
                    &&& regions.output@.len() == BUFFER_CAPACITY - spec_call_len(params)
                },
                None => spec_call_len(params) > BUFFER_CAPACITY,
            },
            final(self).debug_state() == old(self).debug_state(),
    {
        let mut scope = self.scoped_buffer();
        let callee = match scope.try_take_encoded(&params.call_type.callee) {
            Some(region) => region,
            None => {
                return None;
            },
        };
        let transferred_value = match scope.try_take_encoded(&params.call_type.transferred_value) {
            Some(region) => region,
            None => {
                return None;
            },
        };
        let input = match take_call_input(&mut scope, &params.call_type.call_flags, &params.exec_input) {
            Some(region) => region,
            None => {
                return None;
            },
        };
        let output = scope.take_rest();
        Some(CallRegions { callee, transferred_value, input, output })
    }

    /// Lays out a delegate call: the code hash, the input unless the flags
    /// forward the input of the current call, and the rest of the buffer
    /// for the output.
    pub fn prepare_invoke_contract_delegate<E: Environment, Args: Encode>(
        &mut self,
        params: &CallParams<DelegateCall<E>, Args>,
    ) -> (regions: Option<DelegateCallRegions<'_>>)
        ensures
            match regions {
                Some(regions) => {
                    &&& spec_delegate_call_len(params) <= BUFFER_CAPACITY
                    &&& regions.code_hash@ == params.call_type.code_hash.encoding()
                    &&& regions.input@ == spec_call_input(
                        params.call_type.call_flags,
                        params.exec_input.encoding(),
                    )
                    &&& regions.output@.len() == BUFFER_CAPACITY - spec_delegate_call_len(params)
                },
                None => spec_delegate_call_len(params) > BUFFER_CAPACITY,
            },
            final(self).debug_state() == old(self).debug_state(),
    {
        let mut scope = self.scoped_buffer();
        let code_hash = match scope.try_take_encoded(&params.call_type.code_hash) {
            Some(region) => region,
            None => {
                return None;
            },
        };
        let input = match take_call_input(&mut scope, &params.call_type.call_flags, &params.exec_input) {
            Some(region) => region,
            None => {
                return None;
            },
        };
        let output = scope.take_rest();
        Some(DelegateCallRegions { code_hash, input, output })
    }

    /// Turns the host's answer to a plain call or a delegate call into the
    /// typed result. After success and after a revert of the callee alike,
    /// the output decodes to the callee's own result, with no byte left
    /// over. Any other status is the error of the call.
    pub fn finish_invoke_contract<R: Decode>(status: HostResult, output: &[u8]) -> (result: Result<
        MessageResult<R>,
        EnvError,
    >)
        ensures
            result == spec_call_result::<R>(status, output@),
    {
        match status {
            Ok(()) | Err(ReturnErrorCode::CalleeReverted) => {
                match decode_all::<MessageResult<R>>(output) {
                    Ok(decoded) => Ok(decoded),
                    Err(e) => Err(e),
                }
            },
            Err(actual_error) => Err(EnvError::ReturnError(actual_error)),
        }
    }

    /// Lays out an instantiation: the code hash, the endowment, the input of
    /// the constructor, a region of 1024 bytes for the address of the new
    /// contract, and the rest of the buffer for the output of the
    /// constructor.
    pub fn prepare_instantiate_contract<E: Environment, Args: Encode>(
        &mut self,
        params: &CreateParams<E, Args>,
    ) -> (regions: Option<CreateRegions<'_>>)
        ensures
            match regions {
                Some(regions) => {
                    &&& spec_create_len(params) <= BUFFER_CAPACITY
                    &&& regions.code_hash@ == params.code_hash.encoding()
                    &&& regions.endowment@ == params.endowment.encoding()
                    &&& regions.input@ == params.exec_input.encoding()
                    &&& regions.out_address@.len() == ADDRESS_REGION_LEN
                    &&& regions.out_return_value@.len() == BUFFER_CAPACITY - spec_create_len(params)
                },
                None => spec_create_len(params) > BUFFER_CAPACITY,
            },
            final(self).debug_state() == old(self).debug_state(),
    {
        let mut scoped = self.scoped_buffer();
        let code_hash = match scoped.try_take_encoded(&params.code_hash) {
            Some(region) => region,
            None => {
                return None;
            },
        };
        let endowment = match scoped.try_take_encoded(&params.endowment) {
            Some(region) => region,
            None => {
                return None;
            },
        };
        let input = match scoped.try_take_encoded(&params.exec_input) {
            Some(region) => region,
            None => {
                return None;
            },
        };
        if scoped.remaining() < ADDRESS_REGION_LEN {
            return None;
        }
        let out_address = scoped.take(ADDRESS_REGION_LEN);
        let out_return_value = scoped.take_rest();
        Some(CreateRegions { code_hash, endowment, input, out_address, out_return_value })
    }
}

impl EnvInstance {
    /// Turns the host's answer to an instantiation into the typed result.
    /// After success the address region decodes to the account of the new
    /// contract. After a revert of the constructor the output decodes to
    /// the error that the constructor has reverted with. Any other status
    /// is the error of the instantiation.
    pub fn finish_instantiate_contract<E: Environment, ContractError: Decode>(
        status: HostResult,
        out_address: &[u8],
        out_return_value: &[u8],
    ) -> (result: Result<ConstructorResult<Result<E::AccountId, ContractError>>, EnvError>)
        ensures
            result == spec_instantiate_result::<E, ContractError>(
                status,
                out_address@,
                out_return_value@,
            ),
    {
        match status {
            Ok(()) => match E::AccountId::decode(out_address) {
                Ok((account_id, _)) => Ok(Ok(Ok(account_id))),
                Err(e) => Err(e),
            },
            Err(ReturnErrorCode::CalleeReverted) => decode_constructor_revert::<
                E::AccountId,
                ContractError,
            >(out_return_value),
            Err(actual_error) => Err(EnvError::ReturnError(actual_error)),
        }
    }
}

/// The number of bytes that the arguments of a plain call take up in the
/// buffer.
pub open spec fn spec_call_len<E: Environment, Args: Encode>(
    params: &CallParams<Call<E>, Args>,
) -> nat {
    params.call_type.callee.encoding().len() + params.call_type.transferred_value.encoding().len()
        + spec_call_input(params.call_type.call_flags, params.exec_input.encoding()).len()
}

/// The number of bytes that the arguments of a delegate call take up in the
/// buffer.
pub open spec fn spec_delegate_call_len<E: Environment, Args: Encode>(
    params: &CallParams<DelegateCall<E>, Args>,
) -> nat {
    params.call_type.code_hash.encoding().len() + spec_call_input(
        params.call_type.call_flags,
        params.exec_input.encoding(),
    ).len()
}

/// The number of bytes that the arguments of an instantiation and the
/// region for the address take up in the buffer.
pub open spec fn spec_create_len<E: Environment, Args: Encode>(
    params: &CreateParams<E, Args>,
) -> nat {
    params.code_hash.encoding().len() + params.endowment.encoding().len()
        + params.exec_input.encoding().len() + ADDRESS_REGION_LEN as nat
}

} // verus!
