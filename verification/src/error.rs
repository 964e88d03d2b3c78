//! Host status codes and the errors that operations surface to contract code.

use vstd::prelude::*;

verus! {

/// Every failure that the host can report for a call, one variant per code.
#[derive(Clone, Copy, Debug, PartialEq, Eq, Structural)]
pub enum ReturnErrorCode {
    /// The called function trapped and had its state changes reverted.
    CalleeTrapped,
    /// The called function ran to completion but decided to revert its state.
    CalleeReverted,
    /// The passed key does not exist in storage.
    KeyNotFound,
    /// No longer returned: there is only the minimum balance.
    BelowSubsistenceThreshold,
    /// The transfer failed for a reason that is not further specified.
    TransferFailed,
    /// No longer returned: an endowment is not required any more.
    EndowmentTooLow,
    /// No code could be found at the supplied code hash.
    CodeNotFound,
    /// The account that was called is no contract.
    NotCallable,
    /// The debug message had no effect because recording is switched off.
    LoggingDisabled,
    /// The dispatched runtime call was executed but returned an error.
    CallRuntimeFailed,
    /// ECDSA public key recovery failed.
    EcdsaRecoveryFailed,
    /// sr25519 signature verification failed.
    Sr25519VerifyFailed,
    /// The `xcm_execute` call failed.
    XcmExecutionFailed,
    /// The `xcm_send` call failed.
    XcmSendFailed,
    /// The host answered with a code outside the known set.
    Unknown,
}

/// What the host answers to a call: success, or one of the error codes.
pub type HostResult = Result<(), ReturnErrorCode>;

/// The status that a raw host return code stands for.
pub open spec fn spec_status_of(raw: u32) -> HostResult {
    if raw == 0 {
        Ok(())
    } else if raw == 1 {
        Err(ReturnErrorCode::CalleeTrapped)
    } else if raw == 2 {
        Err(ReturnErrorCode::CalleeReverted)
    } else if raw == 3 {
        Err(ReturnErrorCode::KeyNotFound)
    } else if raw == 4 {
        Err(ReturnErrorCode::BelowSubsistenceThreshold)
    } else if raw == 5 {
        Err(ReturnErrorCode::TransferFailed)
    } else if raw == 6 {
        Err(ReturnErrorCode::EndowmentTooLow)
    } else if raw == 7 {
        Err(ReturnErrorCode::CodeNotFound)
    } else if raw == 8 {
        Err(ReturnErrorCode::NotCallable)
    } else if raw == 9 {
        Err(ReturnErrorCode::LoggingDisabled)
    } else if raw == 10 {
        Err(ReturnErrorCode::CallRuntimeFailed)
    } else if raw == 11 {
        Err(ReturnErrorCode::EcdsaRecoveryFailed)
    } else if raw == 12 {
        Err(ReturnErrorCode::Sr25519VerifyFailed)
    } else if raw == 13 {
        Err(ReturnErrorCode::XcmExecutionFailed)
    } else if raw == 14 {
        Err(ReturnErrorCode::XcmSendFailed)
    } else {
        Err(ReturnErrorCode::Unknown)
    }
}

impl ReturnErrorCode {
    /// The number that the host uses for this error.
    pub open spec fn spec_code(self) -> u32 {
        match self {
            ReturnErrorCode::CalleeTrapped => 1,
            ReturnErrorCode::CalleeReverted => 2,
            ReturnErrorCode::KeyNotFound => 3,
            ReturnErrorCode::BelowSubsistenceThreshold => 4,
            ReturnErrorCode::TransferFailed => 5,
            ReturnErrorCode::EndowmentTooLow => 6,
            ReturnErrorCode::CodeNotFound => 7,
            ReturnErrorCode::NotCallable => 8,
            ReturnErrorCode::LoggingDisabled => 9,
            ReturnErrorCode::CallRuntimeFailed => 10,
            ReturnErrorCode::EcdsaRecoveryFailed => 11,
            ReturnErrorCode::Sr25519VerifyFailed => 12,
            ReturnErrorCode::XcmExecutionFailed => 13,
            ReturnErrorCode::XcmSendFailed => 14,
            ReturnErrorCode::Unknown => 15,
        }
    }

    /// Returns the number that the host uses for this error.
    pub fn code(self) -> (raw: u32)
        ensures
            raw == self.spec_code(),
            spec_status_of(raw) == Err::<(), ReturnErrorCode>(self),
    {
        match self {
            ReturnErrorCode::CalleeTrapped => 1,
            ReturnErrorCode::CalleeReverted => 2,
            ReturnErrorCode::KeyNotFound => 3,
            ReturnErrorCode::BelowSubsistenceThreshold => 4,
            ReturnErrorCode::TransferFailed => 5,
            ReturnErrorCode::EndowmentTooLow => 6,
            ReturnErrorCode::CodeNotFound => 7,
            ReturnErrorCode::NotCallable => 8,
            ReturnErrorCode::LoggingDisabled => 9,
            ReturnErrorCode::CallRuntimeFailed => 10,
            ReturnErrorCode::EcdsaRecoveryFailed => 11,
            ReturnErrorCode::Sr25519VerifyFailed => 12,
            ReturnErrorCode::XcmExecutionFailed => 13,
            ReturnErrorCode::XcmSendFailed => 14,
            ReturnErrorCode::Unknown => 15,
        }
    }
}

/// Turns a raw host return code into a status: `0` is success, `1` to `14`
/// are the known errors, anything else is [`ReturnErrorCode::Unknown`].
pub fn status_of(raw: u32) -> (status: HostResult)
    ensures
        status == spec_status_of(raw),
{
    match raw {
        0 => Ok(()),
        1 => Err(ReturnErrorCode::CalleeTrapped),
        2 => Err(ReturnErrorCode::CalleeReverted),
        3 => Err(ReturnErrorCode::KeyNotFound),
        4 => Err(ReturnErrorCode::BelowSubsistenceThreshold),
        5 => Err(ReturnErrorCode::TransferFailed),
        6 => Err(ReturnErrorCode::EndowmentTooLow),
        7 => Err(ReturnErrorCode::CodeNotFound),
        8 => Err(ReturnErrorCode::NotCallable),
        9 => Err(ReturnErrorCode::LoggingDisabled),
        10 => Err(ReturnErrorCode::CallRuntimeFailed),
        11 => Err(ReturnErrorCode::EcdsaRecoveryFailed),
        12 => Err(ReturnErrorCode::Sr25519VerifyFailed),
        13 => Err(ReturnErrorCode::XcmExecutionFailed),
        14 => Err(ReturnErrorCode::XcmSendFailed),
        _ => Err(ReturnErrorCode::Unknown),
    }
}

/// The errors that an operation hands to contract code.
#[derive(Clone, Copy, Debug, PartialEq, Eq, Structural)]
pub enum EnvError {
    /// Bytes that the host returned do not parse under the canonical encoding.
    Decode,
    /// The host reported a failure of the operation. The caller may handle
    /// it and go on.
    ReturnError(ReturnErrorCode),
    /// The host answered with a status that the operation has no meaning
    /// for. Host and guest disagree about the protocol: the invocation
    /// cannot go on, and the call must not be tried again.
    UnexpectedStatus(ReturnErrorCode),
}

impl EnvError {
    /// Whether the error ends the invocation.
    pub open spec fn spec_is_fatal(self) -> bool {
        self is UnexpectedStatus
    }

    /// Returns whether the error ends the invocation.
    pub fn is_fatal(&self) -> (fatal: bool)
        ensures
            fatal == self.spec_is_fatal(),
    {
        match self {
            EnvError::UnexpectedStatus(_) => true,
            _ => false,
        }
    }
}

/// The result of an operation whose host call has no output but its status.
pub open spec fn spec_status_result(status: HostResult) -> Result<(), EnvError> {
    match status {
        Ok(()) => Ok(()),
        Err(code) => Err(EnvError::ReturnError(code)),
    }
}

/// Turns the status of a host call that has no other output into the result
/// of the operation: every error code is handed on to the caller.
pub fn status_result(status: HostResult) -> (result: Result<(), EnvError>)
    ensures
        result == spec_status_result(status),
{
    match status {
        Ok(()) => Ok(()),
        Err(code) => Err(EnvError::ReturnError(code)),
    }
}

} // verus!
