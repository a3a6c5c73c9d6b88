use vrf_oracle::direct::{
    initialize_configuration, update_configuration, DirectArgs, DirectError, DirectRequest,
    RandomnessConsumed, RandomnessFulfilled, RandomnessRequested, RequestClosed, VrfConfiguration,
    STATUS_CONSUMED, STATUS_FULFILLED, STATUS_PENDING,
};
use vrf_oracle::ed25519::ed25519_instruction;
use vrf_oracle::errors::VrfError;
use vrf_oracle::instruction::{AccountMeta, Instruction};
use vrf_oracle::instructions::request_compressed::CompressedRandomnessRequested;
use vrf_oracle::instructions::{
    close_request, consume, fulfill, fulfill_compressed, request, request_compressed,
    request_with_callback,
};
use vrf_oracle::light_cpi::{invoke_light_system_program, light_system_program};
use vrf_oracle::photon::CompressedRandomnessRequest;
use vrf_oracle::pubkey::Pubkey;
use vrf_oracle::vrf::signed_message;

fn authority() -> Pubkey {
    Pubkey::new([0xA0; 32])
}

fn requester() -> Pubkey {
    Pubkey::new([0xAB; 32])
}

fn treasury() -> Pubkey {
    Pubkey::new([0x77; 32])
}

fn config() -> VrfConfiguration {
    VrfConfiguration {
        admin: Pubkey::new([0xAD; 32]),
        authority: authority(),
        fee: 5_000,
        request_counter: 42,
        treasury: treasury(),
        bump: 254,
    }
}

fn args() -> DirectArgs {
    DirectArgs { requester: requester(), treasury: treasury(), seed: [0x11; 32], slot: 100, bump: 9 }
}

fn signed(request_id: u64, randomness: &[u8; 32]) -> Instruction {
    ed25519_instruction(&authority(), &[0x55; 64], &signed_message(request_id, randomness))
}

#[test]
fn direct_request_is_created_pending() {
    let mut c = config();
    let made = request::handler(&mut c, args()).unwrap();
    assert_eq!(
        made.request,
        DirectRequest {
            request_id: 42,
            requester: requester(),
            seed: [0x11; 32],
            request_slot: 100,
            callback_program: Pubkey::zero(),
            status: STATUS_PENDING,
            randomness: [0; 32],
            fulfilled_slot: 0,
            bump: 9,
        }
    );
    assert_eq!(made.fee, 5_000);
    assert_eq!(
        made.event,
        RandomnessRequested { request_id: 42, requester: requester(), seed: [0x11; 32], request_slot: 100 }
    );
    assert_eq!(c.request_counter, 43);
}

#[test]
fn direct_request_with_callback_names_the_program() {
    let mut c = config();
    let program = Pubkey::new([0xCB; 32]);
    let made = request_with_callback::handler(&mut c, args(), program).unwrap();
    assert_eq!(made.request.callback_program, program);
    assert_eq!(made.request.request_id, 42);
    assert_eq!(c.request_counter, 43);
    assert_eq!(
        request_with_callback::handler(&mut c, args(), Pubkey::zero()),
        Err(DirectError::ZeroAddressNotAllowed)
    );
    assert_eq!(c.request_counter, 43);
}

#[test]
fn direct_request_is_refused_for_each_reason() {
    let mut c = config();
    let mut wrong = args();
    wrong.treasury = requester();
    assert_eq!(request::handler(&mut c, wrong), Err(DirectError::WrongTreasury));
    c.request_counter = u64::MAX;
    assert_eq!(request::handler(&mut c, args()), Err(DirectError::CounterOverflow));
    assert_eq!(
        request_with_callback::handler(&mut c, args(), Pubkey::new([1; 32])),
        Err(DirectError::CounterOverflow)
    );
    assert_eq!(request_compressed::handler(&mut c, args()), Err(DirectError::CounterOverflow));
    assert_eq!(request_compressed::handler(&mut c, wrong), Err(DirectError::WrongTreasury));
    assert_eq!(c.request_counter, u64::MAX);
}

#[test]
fn direct_request_runs_through_its_life() {
    let mut c = config();
    let mut r = request::handler(&mut c, args()).unwrap().request;
    let randomness = [7u8; 32];
    let ix = signed(42, &randomness);

    assert_eq!(consume::handler(&mut r, &requester(), 42), Err(DirectError::RequestNotFulfilled));
    assert_eq!(close_request::handler(&r, &requester(), 42), Err(DirectError::RequestNotConsumed));

    assert_eq!(
        fulfill::handler(&c, &mut r, &requester(), Some(&ix), 42, randomness, 777),
        Err(DirectError::Unauthorized)
    );
    assert_eq!(
        fulfill::handler(&c, &mut r, &authority(), None, 42, randomness, 777),
        Err(DirectError::Proof(VrfError::InvalidEd25519Instruction))
    );
    assert_eq!(
        fulfill::handler(&c, &mut r, &authority(), Some(&ix), 43, randomness, 777),
        Err(DirectError::Proof(VrfError::InvalidEd25519Message))
    );
    assert_eq!(r.status, STATUS_PENDING);
    assert_eq!(
        fulfill::handler(&c, &mut r, &authority(), Some(&ix), 42, randomness, 777),
        Ok(RandomnessFulfilled { request_id: 42, randomness })
    );
    assert_eq!(r.status, STATUS_FULFILLED);
    assert_eq!(r.randomness, randomness);
    assert_eq!(r.fulfilled_slot, 777);
    assert_eq!(
        fulfill::handler(&c, &mut r, &authority(), Some(&ix), 42, randomness, 778),
        Err(DirectError::RequestNotPending)
    );
    assert_eq!(r.fulfilled_slot, 777);

    assert_eq!(consume::handler(&mut r, &authority(), 42), Err(DirectError::Unauthorized));
    assert_eq!(
        consume::handler(&mut r, &requester(), 42),
        Ok(RandomnessConsumed { request_id: 42, requester: requester() })
    );
    assert_eq!(r.status, STATUS_CONSUMED);
    assert_eq!(consume::handler(&mut r, &requester(), 42), Err(DirectError::RequestNotFulfilled));

    assert_eq!(close_request::handler(&r, &authority(), 42), Err(DirectError::Unauthorized));
    assert_eq!(
        close_request::handler(&r, &requester(), 42),
        Ok(RequestClosed { request_id: 42, requester: requester() })
    );
}

#[test]
fn compressed_request_is_created_and_fulfilled() {
    let mut c = config();
    let made = request_compressed::handler(&mut c, args()).unwrap();
    let pending = CompressedRandomnessRequest {
        request_id: 42,
        requester: requester(),
        seed: [0x11; 32],
        request_slot: 100,
        status: 0,
        randomness: [0; 32],
    };
    assert_eq!(made.request, pending);
    assert_eq!(made.data, pending.to_bytes());
    assert_eq!(made.fee, 5_000);
    assert_eq!(
        made.event,
        CompressedRandomnessRequested {
            request_id: 42,
            requester: requester(),
            seed: [0x11; 32],
            request_slot: 100
        }
    );
    assert_eq!(c.request_counter, 43);

    let randomness = [7u8; 32];
    let ix = signed(42, &randomness);
    let done =
        fulfill_compressed::handler(&c, &authority(), Some(&ix), 42, randomness, &pending).unwrap();
    let mut updated = pending;
    updated.status = 1;
    updated.randomness = randomness;
    assert_eq!(done.updated, updated);
    assert_eq!(done.input_data, pending.to_bytes());
    assert_eq!(done.output_data, updated.to_bytes());
    assert_eq!(done.event, RandomnessFulfilled { request_id: 42, randomness });
}

#[test]
fn compressed_fulfillment_is_refused_for_each_reason() {
    let c = config();
    let randomness = [7u8; 32];
    let ix = signed(42, &randomness);
    let pending = CompressedRandomnessRequest {
        request_id: 42,
        requester: requester(),
        seed: [0x11; 32],
        request_slot: 100,
        status: 0,
        randomness: [0; 32],
    };
    let run = |signer: &Pubkey, first: Option<&Instruction>, id: u64, current: &CompressedRandomnessRequest| {
        fulfill_compressed::handler(&c, signer, first, id, randomness, current).map(|_| ())
    };
    assert_eq!(run(&authority(), Some(&ix), 42, &pending), Ok(()));
    assert_eq!(run(&requester(), Some(&ix), 42, &pending), Err(DirectError::Unauthorized));
    assert_eq!(
        run(&authority(), None, 42, &pending),
        Err(DirectError::Proof(VrfError::InvalidEd25519Instruction))
    );
    let mut other = pending;
    other.request_id = 41;
    assert_eq!(run(&authority(), Some(&ix), 42, &other), Err(DirectError::CompressedAccountMismatch));
    let mut fulfilled = pending;
    fulfilled.status = 1;
    assert_eq!(run(&authority(), Some(&ix), 42, &fulfilled), Err(DirectError::RequestNotPending));
}

#[test]
fn light_system_instruction_puts_the_fee_payer_first() {
    let payer = Pubkey::new([1; 32]);
    let remaining = vec![
        AccountMeta::new_readonly(Pubkey::new([2; 32]), false),
        AccountMeta::new(Pubkey::new([3; 32]), true),
    ];
    let ix = invoke_light_system_program(&payer, &remaining, &[9, 8, 7]);
    assert_eq!(ix.program_id, light_system_program());
    assert_eq!(
        bs58::encode(ix.program_id.to_bytes()).into_string(),
        "SySTEM1eSU2p4BGQfQpimFEWWSC1XDFeun3Nqzz3rT7"
    );
    assert_eq!(ix.accounts, vec![AccountMeta::new(payer, true), remaining[0], remaining[1]]);
    assert_eq!(ix.data, vec![49, 212, 191, 129, 39, 194, 43, 196, 9, 8, 7]);
    let empty = invoke_light_system_program(&payer, &Vec::new(), &[]);
    assert_eq!(empty.accounts.len(), 1);
    assert_eq!(empty.data.len(), 8);
}

#[test]
fn configuration_is_set_up_and_updated() {
    let admin = Pubkey::new([0xAD; 32]);
    let c = initialize_configuration(admin, authority(), treasury(), 5_000, 254).unwrap();
    assert_eq!(c, config_with_counter(0));
    assert_eq!(
        initialize_configuration(admin, Pubkey::zero(), treasury(), 1, 0),
        Err(DirectError::ZeroAddressNotAllowed)
    );
    assert_eq!(
        initialize_configuration(admin, authority(), Pubkey::zero(), 1, 0),
        Err(DirectError::ZeroAddressNotAllowed)
    );
    let mut c = config();
    let before = c;
    assert_eq!(
        update_configuration(&mut c, &requester(), None, Some(1), None, None),
        Err(DirectError::Unauthorized)
    );
    assert_eq!(
        update_configuration(&mut c, &admin, Some(requester()), Some(1), Some(Pubkey::zero()), None),
        Err(DirectError::ZeroAddressNotAllowed)
    );
    assert_eq!(
        update_configuration(&mut c, &admin, None, None, None, Some(Pubkey::zero())),
        Err(DirectError::ZeroAddressNotAllowed)
    );
    assert_eq!(c, before);
    assert_eq!(update_configuration(&mut c, &admin, Some(requester()), Some(9), None, None), Ok(()));
    assert_eq!(c.authority, requester());
    assert_eq!(c.fee, 9);
    assert_eq!(c.treasury, treasury());
    assert_eq!(c.admin, admin);
    assert_eq!(c.request_counter, 42);
    assert_eq!(update_configuration(&mut c, &admin, None, None, Some(authority()), Some(requester())), Ok(()));
    assert_eq!(c.treasury, authority());
    assert_eq!(c.admin, requester());
}

fn config_with_counter(request_counter: u64) -> VrfConfiguration {
    let mut c = config();
    c.request_counter = request_counter;
    c
}
