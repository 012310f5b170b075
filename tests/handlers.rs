use echo::error::{EchoError, ProgramFault};
use echo::instruction::{
    assert_with_msg, auth_echo_ix, echo_ix, init_auth_echo_ix, init_vending_echo_ix, plan_init_auth_echo,
    plan_init_vending_echo, plan_vending_echo, vending_echo_ix, EchoInstruction,
};
use echo::address::{derive_address, encode_header, keys_equal, verify_address};
use echo::processor::{HostCall, Processor, Services};
use echo::slot::{copy_range, sums_to_zero, write_enveloped, Account, Key};
use solana_program::pubkey::Pubkey;

fn key(n: u8) -> Key {
    [n; 32]
}

fn account(k: Key, is_signer: bool, data: Vec<u8>) -> Account {
    Account { key: k, is_signer, data }
}

fn program_id() -> Key {
    key(200)
}

fn services() -> Services {
    Services { system_program: [0u8; 32], token_program: key(77) }
}

fn pda(label: &[u8], k: &Key, number: u64) -> (Key, u8) {
    let (addr, bump) = Pubkey::find_program_address(
        &[label, k.as_ref(), &number.to_le_bytes()],
        &Pubkey::new_from_array(program_id()),
    );
    (addr.to_bytes(), bump)
}

fn expected_header(bump: u8, number: u64) -> Vec<u8> {
    let mut h = vec![bump];
    h.extend_from_slice(&number.to_le_bytes());
    h
}

#[test]
fn echo_writes_short_payload_into_blank_buffer() {
    let mut accounts = vec![account(key(1), false, vec![0u8; 20])];
    assert_eq!(echo_ix(&program_id(), &mut accounts, &vec![1, 2, 3]), Ok(()));
    let data = &accounts[0].data;
    assert_eq!(&data[0..4], &[3, 0, 0, 0]);
    assert_eq!(&data[4..7], &[1, 2, 3]);
    assert!(data[7..].iter().all(|b| *b == 0));
    assert_eq!(data.len(), 20);
}

#[test]
fn echo_payload_one_short_of_capacity() {
    let mut accounts = vec![account(key(1), false, vec![0u8; 10])];
    assert_eq!(echo_ix(&program_id(), &mut accounts, &vec![9, 9, 9, 9, 9]), Ok(()));
    assert_eq!(accounts[0].data, vec![5, 0, 0, 0, 9, 9, 9, 9, 9, 0]);
}

#[test]
fn echo_payload_exactly_at_capacity() {
    let mut accounts = vec![account(key(1), false, vec![0u8; 10])];
    assert_eq!(echo_ix(&program_id(), &mut accounts, &vec![1, 2, 3, 4, 5, 6]), Ok(()));
    assert_eq!(accounts[0].data, vec![6, 0, 0, 0, 1, 2, 3, 4, 5, 6]);
}

#[test]
fn echo_payload_over_capacity_is_cut() {
    let mut accounts = vec![account(key(1), false, vec![0u8; 10])];
    assert_eq!(echo_ix(&program_id(), &mut accounts, &vec![1, 2, 3, 4, 5, 6, 7]), Ok(()));
    assert_eq!(accounts[0].data, vec![6, 0, 0, 0, 1, 2, 3, 4, 5, 6]);
}

#[test]
fn echo_refuses_nonblank_buffer() {
    let before = vec![0, 0, 1, 0, 0, 0, 0, 0];
    let mut accounts = vec![account(key(1), false, before.clone())];
    assert_eq!(
        echo_ix(&program_id(), &mut accounts, &vec![]),
        Err(ProgramFault::Echo(EchoError::BufferNonZero))
    );
    assert_eq!(accounts[0].data, before);
}

#[test]
fn echo_accepts_bytes_that_wrap_to_zero() {
    let mut accounts = vec![account(key(1), false, vec![128, 128, 0, 0, 0, 0])];
    assert_eq!(echo_ix(&program_id(), &mut accounts, &vec![7]), Ok(()));
    assert_eq!(accounts[0].data, vec![1, 0, 0, 0, 7, 0]);
}

#[test]
fn echo_needs_an_account() {
    let mut accounts: Vec<Account> = vec![];
    assert_eq!(echo_ix(&program_id(), &mut accounts, &vec![1]), Err(ProgramFault::NotEnoughAccountKeys));
}

#[test]
fn echo_refuses_buffer_below_prefix() {
    let mut accounts = vec![account(key(1), false, vec![0u8; 3])];
    assert_eq!(echo_ix(&program_id(), &mut accounts, &vec![1]), Err(ProgramFault::AccountDataTooSmall));
}

#[test]
fn authorized_init_plans_creation_at_derived_address() {
    let authority = key(5);
    let (addr, bump) = pda(b"authority", &authority, 42);
    let accounts = vec![account(addr, false, vec![]), account(authority, true, vec![]), account([0u8; 32], false, vec![])];
    let c = plan_init_auth_echo(&program_id(), &[0u8; 32], &accounts, 42, 32).unwrap();
    assert_eq!(c.address, addr);
    assert_eq!(c.payer, authority);
    assert_eq!(c.space, 32);
    assert_eq!(c.seeds, vec![b"authority".to_vec(), authority.to_vec(), 42u64.to_le_bytes().to_vec(), vec![bump]]);
}

#[test]
fn authorized_init_refuses_wrong_address() {
    let authority = key(5);
    let accounts = vec![account(key(9), false, vec![]), account(authority, true, vec![]), account([0u8; 32], false, vec![])];
    assert_eq!(
        plan_init_auth_echo(&program_id(), &[0u8; 32], &accounts, 42, 32).err(),
        Some(ProgramFault::InvalidArgument)
    );
}

#[test]
fn authorized_init_needs_signature() {
    let authority = key(5);
    let (addr, _) = pda(b"authority", &authority, 42);
    let accounts = vec![account(addr, false, vec![]), account(authority, false, vec![]), account([0u8; 32], false, vec![])];
    assert_eq!(
        plan_init_auth_echo(&program_id(), &[0u8; 32], &accounts, 42, 32).err(),
        Some(ProgramFault::MissingRequiredSignature)
    );
}

#[test]
fn authorized_init_refuses_wrong_system_program() {
    let authority = key(5);
    let (addr, _) = pda(b"authority", &authority, 42);
    let accounts = vec![account(addr, false, vec![]), account(authority, true, vec![]), account(key(3), false, vec![])];
    assert_eq!(
        plan_init_auth_echo(&program_id(), &[0u8; 32], &accounts, 42, 32).err(),
        Some(ProgramFault::InvalidArgument)
    );
}

#[test]
fn authorized_init_needs_three_accounts() {
    let accounts = vec![account(key(1), false, vec![]), account(key(5), true, vec![])];
    assert_eq!(
        plan_init_auth_echo(&program_id(), &[0u8; 32], &accounts, 42, 32).err(),
        Some(ProgramFault::NotEnoughAccountKeys)
    );
}

fn authorized_buffer(nonce: u64, capacity: usize) -> (Key, Key, u8, Vec<Account>) {
    let authority = key(5);
    let (addr, bump) = pda(b"authority", &authority, nonce);
    let mut accounts =
        vec![account(addr, false, vec![0u8; capacity]), account(authority, true, vec![]), account([0u8; 32], false, vec![])];
    assert_eq!(init_auth_echo_ix(&program_id(), &[0u8; 32], &mut accounts, nonce, Ok(())), Ok(()));
    (addr, authority, bump, accounts)
}

#[test]
fn authorized_init_writes_full_header() {
    let nonce = 0x0102_0304_0506_0708u64;
    let (_, _, bump, accounts) = authorized_buffer(nonce, 32);
    let data = &accounts[0].data;
    assert_eq!(&data[0..4], &[9, 0, 0, 0]);
    assert_eq!(data[4..13].to_vec(), expected_header(bump, nonce));
    assert_eq!(data[12], 0x01);
}

#[test]
fn authorized_init_reports_failed_creation() {
    let authority = key(5);
    let (addr, _) = pda(b"authority", &authority, 42);
    let mut accounts =
        vec![account(addr, false, vec![0u8; 32]), account(authority, true, vec![]), account([0u8; 32], false, vec![])];
    assert_eq!(
        init_auth_echo_ix(&program_id(), &[0u8; 32], &mut accounts, 42, Err(ProgramFault::External(1))),
        Err(ProgramFault::External(1))
    );
    assert_eq!(accounts[0].data, vec![0u8; 32]);
}

#[test]
fn authorized_init_refuses_small_buffer() {
    let authority = key(5);
    let (addr, _) = pda(b"authority", &authority, 42);
    let mut accounts =
        vec![account(addr, false, vec![0u8; 12]), account(authority, true, vec![]), account([0u8; 32], false, vec![])];
    assert_eq!(
        init_auth_echo_ix(&program_id(), &[0u8; 32], &mut accounts, 42, Ok(())),
        Err(ProgramFault::AccountDataTooSmall)
    );
}

#[test]
fn authorized_echo_by_same_signer_succeeds_and_keeps_header() {
    let (addr, authority, bump, init) = authorized_buffer(42, 32);
    let mut accounts = vec![account(addr, false, init[0].data.clone()), account(authority, true, vec![])];
    assert_eq!(auth_echo_ix(&program_id(), &mut accounts, &vec![10, 11, 12]), Ok(()));
    let data = &accounts[0].data;
    assert_eq!(&data[0..4], &[12, 0, 0, 0]);
    assert_eq!(data[4..13].to_vec(), expected_header(bump, 42));
    assert_eq!(&data[13..16], &[10, 11, 12]);
    assert_eq!(auth_echo_ix(&program_id(), &mut accounts, &vec![1; 40]), Ok(()));
    let data = &accounts[0].data;
    assert_eq!(&data[0..4], &[28, 0, 0, 0]);
    assert_eq!(data[4..13].to_vec(), expected_header(bump, 42));
    assert_eq!(data[13..32].to_vec(), vec![1u8; 19]);
}

#[test]
fn authorized_echo_by_other_signer_fails() {
    let (addr, _, _, init) = authorized_buffer(42, 32);
    let before = init[0].data.clone();
    let mut accounts = vec![account(addr, false, before.clone()), account(key(6), true, vec![])];
    assert_eq!(auth_echo_ix(&program_id(), &mut accounts, &vec![1]), Err(ProgramFault::InvalidArgument));
    assert_eq!(accounts[0].data, before);
}

#[test]
fn authorized_echo_needs_signature() {
    let (addr, authority, _, init) = authorized_buffer(42, 32);
    let mut accounts = vec![account(addr, false, init[0].data.clone()), account(authority, false, vec![])];
    assert_eq!(auth_echo_ix(&program_id(), &mut accounts, &vec![1]), Err(ProgramFault::MissingRequiredSignature));
}

fn vending_accounts(price: u64, data: Vec<u8>) -> (Key, u8, Vec<Account>) {
    let mint = key(8);
    let (addr, bump) = pda(b"vending machine", &mint, price);
    let accounts = vec![
        account(addr, false, data),
        account(key(2), true, vec![]),
        account(key(3), false, vec![]),
        account(mint, false, vec![]),
        account(key(77), false, vec![]),
    ];
    (addr, bump, accounts)
}

fn vending_buffer(price: u64) -> (u8, Vec<u8>) {
    let mint = key(8);
    let (addr, bump) = pda(b"vending machine", &mint, price);
    let mut accounts =
        vec![account(addr, false, vec![0u8; 24]), account(mint, false, vec![]), account(key(2), true, vec![]), account([0u8; 32], false, vec![])];
    let c = plan_init_vending_echo(&program_id(), &[0u8; 32], &accounts, price, 24).unwrap();
    assert_eq!(c.address, addr);
    assert_eq!(c.payer, key(2));
    assert_eq!(c.seeds[0], b"vending machine".to_vec());
    assert_eq!(init_vending_echo_ix(&program_id(), &[0u8; 32], &mut accounts, price, Ok(())), Ok(()));
    (bump, accounts[0].data.clone())
}

#[test]
fn vending_echo_burns_recorded_price() {
    let (bump, slot) = vending_buffer(100);
    assert_eq!(slot[4..13].to_vec(), expected_header(bump, 100));
    let (_, _, accounts) = vending_accounts(100, slot);
    let b = plan_vending_echo(&program_id(), &key(77), &accounts).unwrap();
    assert_eq!(b.amount, 100);
    assert_eq!(b.owner, key(2));
    assert_eq!(b.holding, key(3));
    assert_eq!(b.mint, key(8));
}

#[test]
fn vending_echo_writes_after_burn() {
    let (bump, slot) = vending_buffer(100);
    let (_, _, mut accounts) = vending_accounts(100, slot);
    assert_eq!(vending_echo_ix(&program_id(), &key(77), &mut accounts, &vec![4, 5], Ok(())), Ok(()));
    let data = &accounts[0].data;
    assert_eq!(&data[0..4], &[11, 0, 0, 0]);
    assert_eq!(data[4..13].to_vec(), expected_header(bump, 100));
    assert_eq!(&data[13..15], &[4, 5]);
}

#[test]
fn vending_echo_failed_burn_leaves_buffer_unchanged() {
    let (_, slot) = vending_buffer(100);
    let (_, _, mut accounts) = vending_accounts(100, slot.clone());
    let insufficient = ProgramFault::External(0x1_0000_0001);
    assert_eq!(vending_echo_ix(&program_id(), &key(77), &mut accounts, &vec![4, 5], Err(insufficient)), Err(insufficient));
    assert_eq!(accounts[0].data, slot);
}

#[test]
fn vending_echo_refuses_wrong_token_program() {
    let (_, slot) = vending_buffer(100);
    let (_, _, accounts) = vending_accounts(100, slot);
    assert_eq!(plan_vending_echo(&program_id(), &key(78), &accounts).err(), Some(ProgramFault::InvalidArgument));
}

#[test]
fn vending_echo_refuses_other_mint() {
    let (_, slot) = vending_buffer(100);
    let (_, _, mut accounts) = vending_accounts(100, slot);
    accounts[3].key = key(9);
    assert_eq!(plan_vending_echo(&program_id(), &key(77), &accounts).err(), Some(ProgramFault::InvalidArgument));
}

#[test]
fn vending_echo_needs_five_accounts() {
    let (_, slot) = vending_buffer(100);
    let (_, _, mut accounts) = vending_accounts(100, slot);
    accounts.pop();
    assert_eq!(plan_vending_echo(&program_id(), &key(77), &accounts).err(), Some(ProgramFault::NotEnoughAccountKeys));
}

#[test]
fn decode_each_instruction() {
    let mut echo = vec![0u8, 2, 0, 0, 0, 7, 8];
    match EchoInstruction::try_from_slice(&echo) {
        Ok(EchoInstruction::Echo { data }) => assert_eq!(data, vec![7, 8]),
        other => panic!("{:?}", other),
    }
    echo[0] = 2;
    assert!(matches!(EchoInstruction::try_from_slice(&echo), Ok(EchoInstruction::AuthorizedEcho { .. })));
    echo[0] = 4;
    assert!(matches!(EchoInstruction::try_from_slice(&echo), Ok(EchoInstruction::VendingMachineEcho { .. })));
    let mut init = vec![1u8];
    init.extend_from_slice(&42u64.to_le_bytes());
    init.extend_from_slice(&32u64.to_le_bytes());
    match EchoInstruction::try_from_slice(&init) {
        Ok(EchoInstruction::InitializeAuthorizedEcho { buffer_seed, buffer_size }) => {
            assert_eq!(buffer_seed, 42);
            assert_eq!(buffer_size, 32);
        }
        other => panic!("{:?}", other),
    }
    init[0] = 3;
    match EchoInstruction::try_from_slice(&init) {
        Ok(EchoInstruction::InitializeVendingMachine { price, buffer_size }) => {
            assert_eq!(price, 42);
            assert_eq!(buffer_size, 32);
        }
        other => panic!("{:?}", other),
    }
}

#[test]
fn decode_refuses_malformed_bytes() {
    for bad in [vec![], vec![5u8], vec![0u8, 2, 0, 0, 0, 7], vec![0u8, 1, 0, 0, 0, 7, 8], vec![1u8, 0, 0]] {
        assert_eq!(EchoInstruction::try_from_slice(&bad).err(), Some(ProgramFault::InvalidAccountData));
    }
}

#[test]
fn processor_routes_echo() {
    let mut accounts = vec![account(key(1), false, vec![0u8; 8])];
    let ix = vec![0u8, 2, 0, 0, 0, 7, 8];
    assert!(matches!(Processor::plan_instruction(&program_id(), &services(), &accounts, &ix), Ok(HostCall::Nothing)));
    assert_eq!(Processor::process_instruction(&program_id(), &services(), &mut accounts, &ix, Ok(())), Ok(()));
    assert_eq!(accounts[0].data, vec![2, 0, 0, 0, 7, 8, 0, 0]);
}

#[test]
fn processor_routes_authorized_lifecycle() {
    let authority = key(5);
    let (addr, bump) = pda(b"authority", &authority, 42);
    let mut accounts =
        vec![account(addr, false, vec![0u8; 32]), account(authority, true, vec![]), account([0u8; 32], false, vec![])];
    let mut ix = vec![1u8];
    ix.extend_from_slice(&42u64.to_le_bytes());
    ix.extend_from_slice(&32u64.to_le_bytes());
    match Processor::plan_instruction(&program_id(), &services(), &accounts, &ix) {
        Ok(HostCall::Create(c)) => assert_eq!(c.address, addr),
        _ => panic!("expected a creation"),
    }
    assert_eq!(Processor::process_instruction(&program_id(), &services(), &mut accounts, &ix, Ok(())), Ok(()));
    assert_eq!(accounts[0].data[4..13].to_vec(), expected_header(bump, 42));
    let write = vec![2u8, 1, 0, 0, 0, 99];
    assert_eq!(Processor::process_instruction(&program_id(), &services(), &mut accounts, &write, Ok(())), Ok(()));
    assert_eq!(accounts[0].data[13], 99);
}

#[test]
fn processor_routes_vending_burn() {
    let (_, slot) = vending_buffer(100);
    let (_, _, accounts) = vending_accounts(100, slot);
    let ix = vec![4u8, 0, 0, 0, 0];
    match Processor::plan_instruction(&program_id(), &services(), &accounts, &ix) {
        Ok(HostCall::Burn(b)) => assert_eq!(b.amount, 100),
        _ => panic!("expected a burn"),
    }
}

#[test]
fn processor_refuses_malformed_instruction() {
    let mut accounts = vec![account(key(1), false, vec![0u8; 8])];
    assert_eq!(
        Processor::process_instruction(&program_id(), &services(), &mut accounts, &vec![9u8], Ok(())),
        Err(ProgramFault::InvalidAccountData)
    );
}

#[test]
fn derivation_matches_host() {
    let authority = key(5);
    let (addr, bump) = pda(b"authority", &authority, 7);
    let r = derive_address(&b"authority".to_vec(), &authority, &7u64.to_le_bytes().to_vec(), &program_id());
    assert_eq!(r, Some((addr, bump)));
    assert!(verify_address(&addr, &b"authority".to_vec(), &authority, &7u64.to_le_bytes().to_vec(), &program_id()));
    assert!(!verify_address(&key(1), &b"authority".to_vec(), &authority, &7u64.to_le_bytes().to_vec(), &program_id()));
}

#[test]
fn small_helpers() {
    assert!(keys_equal(&key(1), &key(1)));
    assert!(!keys_equal(&key(1), &key(2)));
    assert_eq!(encode_header(3, 0x0807_0605_0403_0201), vec![3, 1, 2, 3, 4, 5, 6, 7, 8]);
    assert_eq!(copy_range(&vec![1, 2, 3, 4], 1, 3), vec![2, 3]);
    assert!(sums_to_zero(&vec![255, 1]));
    assert!(!sums_to_zero(&vec![255, 2]));
    assert_eq!(assert_with_msg(true, ProgramFault::InvalidArgument), Ok(()));
    assert_eq!(assert_with_msg(false, ProgramFault::InvalidArgument), Err(ProgramFault::InvalidArgument));
    let mut buf = vec![0u8; 6];
    assert!(write_enveloped(&mut buf, &vec![1, 2, 3]));
    assert_eq!(buf, vec![2, 0, 0, 0, 1, 2]);
    assert_eq!(EchoError::BufferNonZero.code(), 0);
    assert_eq!(EchoError::BufferNonZero.message(), "Buffer consists of non-zero data");
}
