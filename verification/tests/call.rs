use contract_env::call::{
    Call, CallFlags, CallParams, CreateParams, DelegateCall, ALLOW_REENTRY, CLONE_INPUT,
    FORWARD_INPUT, TAIL_CALL,
};
use contract_env::env::EnvInstance;
use contract_env::error::{EnvError, ReturnErrorCode};
use contract_env::types::{self, AccountId, DefaultEnvironment, LangError};

fn call(flags: u32) -> CallParams<Call<DefaultEnvironment>, [u8; 4]> {
    CallParams {
        call_type: Call {
            callee: AccountId([7u8; 32]),
            gas_limit: 5000,
            transferred_value: 100,
            call_flags: CallFlags::from_bits_truncate(flags),
        },
        exec_input: [0xde, 0xad, 0xbe, 0xef],
    }
}

#[test]
fn call_layout() {
    let mut env = EnvInstance::new();
    let params = call(0);
    let regions = env.prepare_invoke_contract(&params).unwrap();
    assert_eq!(regions.callee, &[7u8; 32][..]);
    let mut value = [0u8; 16];
    value[0] = 100;
    assert_eq!(regions.transferred_value, &value[..]);
    assert_eq!(regions.input, &[0xdeu8, 0xad, 0xbe, 0xef][..]);
    assert_eq!(regions.output.len(), 16384 - 32 - 16 - 4);
}

#[test]
fn forwarded_input_is_not_encoded() {
    let mut env = EnvInstance::new();
    for flags in [FORWARD_INPUT, CLONE_INPUT, FORWARD_INPUT | CLONE_INPUT, CLONE_INPUT | TAIL_CALL] {
        let params = call(flags);
        let regions = env.prepare_invoke_contract(&params).unwrap();
        assert_eq!(regions.input.len(), 0);
        assert_eq!(regions.output.len(), 16384 - 32 - 16);
    }
    for flags in [TAIL_CALL, ALLOW_REENTRY, TAIL_CALL | ALLOW_REENTRY] {
        let params = call(flags);
        let regions = env.prepare_invoke_contract(&params).unwrap();
        assert_eq!(regions.input.len(), 4);
    }
}

#[test]
fn input_is_selector_and_arguments() {
    let mut env = EnvInstance::new();
    let params: CallParams<Call<DefaultEnvironment>, ([u8; 4], (u32, u8))> = CallParams {
        call_type: Call {
            callee: AccountId([1u8; 32]),
            gas_limit: 0,
            transferred_value: 0,
            call_flags: CallFlags::empty(),
        },
        exec_input: ([0xaa, 0xbb, 0xcc, 0xdd], (3, 4)),
    };
    let regions = env.prepare_invoke_contract(&params).unwrap();
    assert_eq!(regions.input, &[0xaau8, 0xbb, 0xcc, 0xdd, 3, 0, 0, 0, 4][..]);
    assert_eq!(regions.output.len(), 16384 - 32 - 16 - 9);
}

#[test]
fn delegate_call_layout() {
    let mut env = EnvInstance::new();
    let params: CallParams<DelegateCall<DefaultEnvironment>, [u8; 4]> = CallParams {
        call_type: DelegateCall { code_hash: types::Hash([3u8; 32]), call_flags: CallFlags::empty() },
        exec_input: [1, 2, 3, 4],
    };
    let regions = env.prepare_invoke_contract_delegate(&params).unwrap();
    assert_eq!(regions.code_hash, &[3u8; 32][..]);
    assert_eq!(regions.input, &[1u8, 2, 3, 4][..]);
    assert_eq!(regions.output.len(), 16384 - 36);

    let params: CallParams<DelegateCall<DefaultEnvironment>, [u8; 4]> = CallParams {
        call_type: DelegateCall {
            code_hash: types::Hash([3u8; 32]),
            call_flags: CallFlags::from_bits_truncate(FORWARD_INPUT),
        },
        exec_input: [1, 2, 3, 4],
    };
    let regions = env.prepare_invoke_contract_delegate(&params).unwrap();
    assert_eq!(regions.input.len(), 0);
    assert_eq!(regions.output.len(), 16384 - 32);
}

#[test]
fn reverted_callee_yields_its_result() {
    assert_eq!(
        EnvInstance::finish_invoke_contract::<u32>(Err(ReturnErrorCode::CalleeReverted), &[1, 1]),
        Ok(Err(LangError::CouldNotReadInput))
    );
    assert_eq!(
        EnvInstance::finish_invoke_contract::<u32>(
            Err(ReturnErrorCode::CalleeReverted),
            &[0, 5, 0, 0, 0]
        ),
        Ok(Ok(5))
    );
    assert_eq!(
        EnvInstance::finish_invoke_contract::<u32>(Ok(()), &[0, 5, 0, 0, 0]),
        Ok(Ok(5))
    );
    assert_eq!(
        EnvInstance::finish_invoke_contract::<Result<u8, u8>>(
            Err(ReturnErrorCode::CalleeReverted),
            &[0, 1, 9]
        ),
        Ok(Ok(Err(9)))
    );
}

#[test]
fn other_statuses_of_a_call_are_errors() {
    for code in [
        ReturnErrorCode::CalleeTrapped,
        ReturnErrorCode::KeyNotFound,
        ReturnErrorCode::TransferFailed,
        ReturnErrorCode::CodeNotFound,
        ReturnErrorCode::NotCallable,
        ReturnErrorCode::Unknown,
    ] {
        assert_eq!(
            EnvInstance::finish_invoke_contract::<u32>(Err(code), &[0, 5, 0, 0, 0]),
            Err(EnvError::ReturnError(code))
        );
    }
}

#[test]
fn call_output_that_is_no_result_is_a_decode_error() {
    assert_eq!(
        EnvInstance::finish_invoke_contract::<u32>(Ok(()), &[]),
        Err(EnvError::Decode)
    );
    assert_eq!(
        EnvInstance::finish_invoke_contract::<u32>(Ok(()), &[2, 0, 0, 0, 0]),
        Err(EnvError::Decode)
    );
    assert_eq!(
        EnvInstance::finish_invoke_contract::<u32>(Ok(()), &[0, 5, 0, 0, 0, 0]),
        Err(EnvError::Decode)
    );
    assert_eq!(
        EnvInstance::finish_invoke_contract::<u32>(Err(ReturnErrorCode::CalleeReverted), &[1, 2]),
        Err(EnvError::Decode)
    );
}

fn create() -> CreateParams<DefaultEnvironment, ()> {
    CreateParams {
        code_hash: types::Hash([5u8; 32]),
        gas_limit: 0,
        endowment: 100,
        exec_input: (),
        salt_bytes: Vec::new(),
    }
}

#[test]
fn instantiate_with_empty_input_and_salt() {
    let mut env = EnvInstance::new();
    let params = create();
    let regions = env.prepare_instantiate_contract(&params).unwrap();
    assert_eq!(regions.code_hash, &[5u8; 32][..]);
    let mut endowment = [0u8; 16];
    endowment[0] = 100;
    assert_eq!(regions.endowment, &endowment[..]);
    assert_eq!(regions.input.len(), 0);
    assert_eq!(regions.out_address.len(), 1024);
    assert_eq!(regions.out_return_value.len(), 16384 - 32 - 16 - 1024);
    assert!(params.salt_bytes.is_empty());

    // The host derives the address and writes it to the address region.
    regions.out_address[..32].copy_from_slice(&[0xabu8; 32]);
    let result = EnvInstance::finish_instantiate_contract::<DefaultEnvironment, u8>(
        Ok(()),
        &regions.out_address[..32],
        &regions.out_return_value[..0],
    );
    assert_eq!(result, Ok(Ok(Ok(AccountId([0xab; 32])))));
}

#[test]
fn instantiate_host_failure_is_an_error() {
    for code in [
        ReturnErrorCode::CodeNotFound,
        ReturnErrorCode::CalleeTrapped,
        ReturnErrorCode::TransferFailed,
        ReturnErrorCode::Unknown,
    ] {
        assert_eq!(
            EnvInstance::finish_instantiate_contract::<DefaultEnvironment, u8>(
                Err(code),
                &[],
                &[]
            ),
            Err(EnvError::ReturnError(code))
        );
    }
}

#[test]
fn reverted_constructor_yields_its_error() {
    let revert = Err(ReturnErrorCode::CalleeReverted);
    assert_eq!(
        EnvInstance::finish_instantiate_contract::<DefaultEnvironment, u8>(revert, &[], &[0, 1, 9]),
        Ok(Ok(Err(9)))
    );
    assert_eq!(
        EnvInstance::finish_instantiate_contract::<DefaultEnvironment, u8>(revert, &[], &[1, 1]),
        Ok(Err(LangError::CouldNotReadInput))
    );
    for output in [&[][..], &[0][..], &[0, 0][..], &[0, 1][..], &[0, 2, 9][..], &[1][..], &[1, 0][..], &[2][..]] {
        assert_eq!(
            EnvInstance::finish_instantiate_contract::<DefaultEnvironment, u8>(revert, &[], output),
            Err(EnvError::Decode)
        );
    }
}

#[test]
fn address_that_does_not_decode_is_a_decode_error() {
    assert_eq!(
        EnvInstance::finish_instantiate_contract::<DefaultEnvironment, u8>(Ok(()), &[1u8; 31], &[]),
        Err(EnvError::Decode)
    );
}

#[test]
fn instantiate_needs_room_for_the_address() {
    let mut env = EnvInstance::new();
    let fits: CreateParams<DefaultEnvironment, [u8; 15312]> = CreateParams {
        code_hash: types::Hash([5u8; 32]),
        gas_limit: 0,
        endowment: 1,
        exec_input: [0u8; 15312],
        salt_bytes: vec![1, 2],
    };
    let regions = env.prepare_instantiate_contract(&fits).unwrap();
    assert_eq!(regions.out_address.len(), 1024);
    assert_eq!(regions.out_return_value.len(), 0);
    let overruns: CreateParams<DefaultEnvironment, [u8; 15313]> = CreateParams {
        code_hash: types::Hash([5u8; 32]),
        gas_limit: 0,
        endowment: 1,
        exec_input: [0u8; 15313],
        salt_bytes: vec![1, 2],
    };
    assert!(env.prepare_instantiate_contract(&overruns).is_none());
}

#[test]
fn call_flags() {
    let flags = CallFlags::from_bits_truncate(0xff);
    assert_eq!(flags.bits(), 0b1111);
    assert!(flags.contains(FORWARD_INPUT | TAIL_CALL));
    let flags = CallFlags::from_bits_truncate(CLONE_INPUT);
    assert!(flags.contains(CLONE_INPUT));
    assert!(!flags.contains(FORWARD_INPUT));
    assert!(!flags.contains(CLONE_INPUT | TAIL_CALL));
    assert!(flags.contains(0));
    assert_eq!(CallFlags::empty().bits(), 0);
}
