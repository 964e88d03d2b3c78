//! The switch in front of debug messages.
//!
//! Whether the host records debug messages is not known up front, and it
//! can differ between a dry run and the run that counts. So the first
//! message of an invocation is always handed to the host. If the host
//! refuses it, no later message is handed over. Once the host has accepted
//! a message, every later one is handed over, whatever the host answers.

use vstd::prelude::*;
use crate::error::{HostResult, ReturnErrorCode};

verus! {

/// The state of the switch.
#[derive(Clone, Copy, Debug, PartialEq, Eq, Structural)]
pub enum DebugState {
    /// No message was handed to the host yet.
    FirstAttempt,
    /// The host has accepted a message.
    Enabled,
    /// The host has refused the first message.
    Disabled,
}

/// Whether an answer to a debug message shows that the host records debug
/// messages: every answer does but `LoggingDisabled`.
pub open spec fn spec_debug_accepted(status: HostResult) -> bool {
    status != Err::<(), ReturnErrorCode>(ReturnErrorCode::LoggingDisabled)
}

/// Whether a message is handed to the host in `state`.
pub open spec fn spec_attempts(state: DebugState) -> bool {
    state != DebugState::Disabled
}

/// The state after the host has answered a message with `status`.
pub open spec fn spec_answered(state: DebugState, status: HostResult) -> DebugState {
    if spec_debug_accepted(status) || state == DebugState::Enabled {
        DebugState::Enabled
    } else {
        DebugState::Disabled
    }
}

/// The state after one message: where the message is handed to the host,
/// the host answers with `status`; where it is not, nothing changes.
pub open spec fn spec_after_message(state: DebugState, status: HostResult) -> DebugState {
    if spec_attempts(state) {
        spec_answered(state, status)
    } else {
        state
    }
}

/// The state after a run of messages, where `answers[i]` is what the host
/// answers to message `i` if the message is handed to it.
pub open spec fn spec_after_messages(state: DebugState, answers: Seq<HostResult>) -> DebugState
    decreases answers.len(),
{
    if answers.len() == 0 {
        state
    } else {
        spec_after_message(spec_after_messages(state, answers.drop_last()), answers.last())
    }
}

/// The number of messages of a run that are handed to the host.
pub open spec fn spec_attempts_made(state: DebugState, answers: Seq<HostResult>) -> nat
    decreases answers.len(),
{
    if answers.len() == 0 {
        0
    } else {
        let before = spec_after_messages(state, answers.drop_last());
        spec_attempts_made(state, answers.drop_last()) + if spec_attempts(before) {
            1nat
        } else {
            0nat
        }
    }
}

/// If the host refuses the first message of an invocation, that message is
/// the only one of the invocation that is handed to the host.
pub proof fn lemma_refused_first_message_is_the_last_attempt(answers: Seq<HostResult>)
    requires
        answers.len() >= 1,
        !spec_debug_accepted(answers[0]),
    ensures
        spec_after_messages(DebugState::FirstAttempt, answers) == DebugState::Disabled,
        spec_attempts_made(DebugState::FirstAttempt, answers) == 1,
    decreases answers.len(),
{
    if answers.len() == 1 {
        let none = answers.drop_last();
        assert(none.len() == 0);
        assert(spec_after_messages(DebugState::FirstAttempt, none) == DebugState::FirstAttempt);
        assert(spec_attempts_made(DebugState::FirstAttempt, none) == 0);
        assert(answers.last() == answers[0]);
    } else {
        assert(answers.drop_last()[0] == answers[0]);
        lemma_refused_first_message_is_the_last_attempt(answers.drop_last());
    }
}

/// If the host accepts the first message of an invocation, every message
/// of the invocation is handed to the host, whatever the host answers to
/// the later ones.
pub proof fn lemma_accepted_first_message_latches(answers: Seq<HostResult>)
    requires
        answers.len() >= 1,
        spec_debug_accepted(answers[0]),
    ensures
        spec_after_messages(DebugState::FirstAttempt, answers) == DebugState::Enabled,
        spec_attempts_made(DebugState::FirstAttempt, answers) == answers.len(),
    decreases answers.len(),
{
    if answers.len() == 1 {
        let none = answers.drop_last();
        assert(none.len() == 0);
        assert(spec_after_messages(DebugState::FirstAttempt, none) == DebugState::FirstAttempt);
        assert(spec_attempts_made(DebugState::FirstAttempt, none) == 0);
        assert(answers.last() == answers[0]);
    } else {
        assert(answers.drop_last()[0] == answers[0]);
        lemma_accepted_first_message_latches(answers.drop_last());
    }
}

} // verus!
