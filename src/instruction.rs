use vstd::prelude::*;
use vstd::bytes::{spec_u32_from_le_bytes, spec_u64_from_le_bytes, u32_from_le_bytes, u64_from_le_bytes};
use vstd::bytes::spec_u64_to_le_bytes;
use crate::slot::{Account, Key, byte_sum, copy_range, fitted, written, write_enveloped};
use crate::error::{EchoError, ProgramFault};
use vstd::bytes::u64_to_le_bytes;
use crate::slot::{copy_key, sums_to_zero};
use crate::address::{authority_seed, vending_seed, derive_address, encode_header, keys_equal, verify_address};
use crate::address::{authority_label, vending_label, derived, gated_seeds, header, program_address};

verus! {

/// An instruction of this program, as decoded from its bytes.
#[derive(Debug)]
pub enum EchoInstruction {
    /// Writes `data` into an unrestricted, blank buffer.
    Echo { data: Vec<u8> },
    /// Creates a buffer bound to the signing authority and `buffer_seed`.
    InitializeAuthorizedEcho { buffer_seed: u64, buffer_size: usize },
    /// Writes `data` into a buffer bound to the signing authority.
    AuthorizedEcho { data: Vec<u8> },
    /// Creates a buffer bound to a mint and a `price`.
    InitializeVendingMachine { price: u64, buffer_size: usize },
    /// Burns the buffer's price from the signer's holding, then writes `data`.
    VendingMachineEcho { data: Vec<u8> },
}

/// What an instruction asks for, over plain values.
pub enum Operation {
    Echo(Seq<u8>),
    InitializeAuthorizedEcho(u64, usize),
    AuthorizedEcho(Seq<u8>),
    InitializeVendingMachine(u64, usize),
    VendingMachineEcho(Seq<u8>),
}

impl View for EchoInstruction {
    type V = Operation;

    open spec fn view(&self) -> Operation {
        match self {
            EchoInstruction::Echo { data } => Operation::Echo(data@),
            EchoInstruction::InitializeAuthorizedEcho { buffer_seed, buffer_size } =>
                Operation::InitializeAuthorizedEcho(*buffer_seed, *buffer_size),
            EchoInstruction::AuthorizedEcho { data } => Operation::AuthorizedEcho(data@),
            EchoInstruction::InitializeVendingMachine { price, buffer_size } =>
                Operation::InitializeVendingMachine(*price, *buffer_size),
            EchoInstruction::VendingMachineEcho { data } => Operation::VendingMachineEcho(data@),
        }
    }
}

/// The byte array that follows the tag: its four-byte length, then exactly
/// that many bytes, ending the input.
pub open spec fn parse_bytes(b: Seq<u8>) -> Option<Seq<u8>> {
    if b.len() >= 5 && b.len() - 5 == spec_u32_from_le_bytes(b.subrange(1, 5)) {
        Some(b.skip(5))
    } else {
        None
    }
}

/// The number and size that follow the tag: two little-endian `u64`s,
/// ending the input, the second within `usize`.
pub open spec fn parse_sized(b: Seq<u8>) -> Option<(u64, usize)> {
    if b.len() == 17 && spec_u64_from_le_bytes(b.subrange(9, 17)) <= usize::MAX {
        Some((spec_u64_from_le_bytes(b.subrange(1, 9)), spec_u64_from_le_bytes(b.subrange(9, 17)) as usize))
    } else {
        None
    }
}

/// The operation that the bytes `b` encode: a tag byte selects the variant,
/// its fields follow in order, and nothing may follow them.
pub open spec fn parse(b: Seq<u8>) -> Option<Operation> {
    if b.len() == 0 {
        None
    } else if b[0] == 0 {
        match parse_bytes(b) { Some(d) => Some(Operation::Echo(d)), None => None }
    } else if b[0] == 1 {
        match parse_sized(b) { Some((n, s)) => Some(Operation::InitializeAuthorizedEcho(n, s)), None => None }
    } else if b[0] == 2 {
        match parse_bytes(b) { Some(d) => Some(Operation::AuthorizedEcho(d)), None => None }
    } else if b[0] == 3 {
        match parse_sized(b) { Some((n, s)) => Some(Operation::InitializeVendingMachine(n, s)), None => None }
    } else if b[0] == 4 {
        match parse_bytes(b) { Some(d) => Some(Operation::VendingMachineEcho(d)), None => None }
    } else {
        None
    }
}

fn decode_bytes(b: &Vec<u8>) -> (r: Option<Vec<u8>>)
    ensures
        match parse_bytes(b@) {
            Some(d) => r matches Some(v) && v@ == d,
            None => r is None,
        },
{
    if b.len() < 5 {
        return None;
    }
    let len_bytes = copy_range(b, 1, 5);
    let len = u32_from_le_bytes(len_bytes.as_slice());
    if (b.len() - 5) as u64 != len as u64 {
        return None;
    }
    let d = copy_range(b, 5, b.len());
    assert(d@ =~= b@.skip(5));
    Some(d)
}

fn decode_sized(b: &Vec<u8>) -> (r: Option<(u64, usize)>)
    ensures
        r == parse_sized(b@),
{
    if b.len() != 17 {
        return None;
    }
    let n = u64_from_le_bytes(copy_range(b, 1, 9).as_slice());
    let s = u64_from_le_bytes(copy_range(b, 9, 17).as_slice());
    if s > usize::MAX as u64 {
        return None;
    }
    Some((n, s as usize))
}

impl EchoInstruction {
    /// Decodes an instruction from its bytes; fails with `InvalidAccountData`
    /// on bytes that encode none.
    pub fn try_from_slice(b: &Vec<u8>) -> (r: Result<EchoInstruction, ProgramFault>)
        ensures
            match parse(b@) {
                Some(op) => r matches Ok(ins) && ins@ == op,
                None => r == Err::<EchoInstruction, _>(ProgramFault::InvalidAccountData),
            },
    {
        let bad = Err(ProgramFault::InvalidAccountData);
        if b.len() == 0 {
            return bad;
        }
        let tag = b[0];
        if tag == 0 || tag == 2 || tag == 4 {
            match decode_bytes(b) {
                Some(data) => {
                    if tag == 0 {
                        Ok(EchoInstruction::Echo { data })
                    } else if tag == 2 {
                        Ok(EchoInstruction::AuthorizedEcho { data })
                    } else {
                        Ok(EchoInstruction::VendingMachineEcho { data })
                    }
                },
                None => bad,
            }
        } else if tag == 1 || tag == 3 {
            match decode_sized(b) {
                Some((n, s)) => {
                    if tag == 1 {
                        Ok(EchoInstruction::InitializeAuthorizedEcho { buffer_seed: n, buffer_size: s })
                    } else {
                        Ok(EchoInstruction::InitializeVendingMachine { price: n, buffer_size: s })
                    }
                },
                None => bad,
            }
        } else {
            bad
        }
    }
}

} // verus!

verus! {

/// The outcome of a handler over the accounts it was given: the new data of
/// the first account, or the error.
pub type Outcome = Result<Seq<u8>, ProgramFault>;

/// Stores `content` into the buffer `slot`, cut to what fits.
pub open spec fn store(slot: Seq<u8>, content: Seq<u8>) -> Outcome {
    if fitted(content, slot.len()).len() <= u32::MAX {
        Ok(written(slot, content))
    } else {
        Err(ProgramFault::BorshIoError)
    }
}

/// `after` is `before` with the data of the first account replaced by `data`.
pub open spec fn slot_replaced(before: Seq<Account>, after: Seq<Account>, data: Seq<u8>) -> bool {
    &&& before.len() >= 1
    &&& after.len() == before.len()
    &&& after[0].key == before[0].key
    &&& after[0].is_signer == before[0].is_signer
    &&& after[0].data@ == data
    &&& forall|i: int| 1 <= i < before.len() ==> after[i] == before[i]
}

/// The accounts after a handler with this outcome returned `r`.
pub open spec fn applied(outcome: Outcome, r: Result<(), ProgramFault>, before: Seq<Account>, after: Seq<Account>) -> bool {
    match outcome {
        Ok(d) => r is Ok && slot_replaced(before, after, d),
        Err(e) => r == Err::<(), ProgramFault>(e) && after == before,
    }
}

/// An unrestricted write: the buffer must be blank, its bytes summing to
/// zero in wrapping arithmetic; `data` is stored cut to what fits.
pub open spec fn echo_outcome(accounts: Seq<Account>, data: Seq<u8>) -> Outcome {
    if accounts.len() < 1 {
        Err(ProgramFault::NotEnoughAccountKeys)
    } else if byte_sum(accounts[0].data@) % 256 != 0 {
        Err(ProgramFault::Echo(EchoError::BufferNonZero))
    } else if accounts[0].data@.len() < 4 {
        Err(ProgramFault::AccountDataTooSmall)
    } else {
        store(accounts[0].data@, data)
    }
}

/// The checks before a gated buffer is created: enough accounts, the
/// signer signed, the system program is the expected one and the buffer's
/// address is the one derived from the label, the binding key and the number.
/// Gives the address and bump.
pub open spec fn init_checks(
    program_id: Seq<u8>,
    system_program: Seq<u8>,
    accounts: Seq<Account>,
    label: Seq<u8>,
    key_at: int,
    signer_at: int,
    system_at: int,
    number: u64,
) -> Result<(Seq<u8>, u8), ProgramFault> {
    if accounts.len() <= system_at {
        Err(ProgramFault::NotEnoughAccountKeys)
    } else if !accounts[signer_at].is_signer {
        Err(ProgramFault::MissingRequiredSignature)
    } else if accounts[system_at].key@ != system_program {
        Err(ProgramFault::InvalidArgument)
    } else {
        match derived(label, accounts[key_at].key@, number, program_id) {
            Some((k, b)) => if k == accounts[0].key@ {
                Ok((k, b))
            } else {
                Err(ProgramFault::InvalidArgument)
            },
            None => Err(ProgramFault::InvalidArgument),
        }
    }
}

/// The header written into a new gated buffer, once the host created it.
pub open spec fn init_outcome(checks: Result<(Seq<u8>, u8), ProgramFault>, accounts: Seq<Account>, number: u64, created: Result<(), ProgramFault>) -> Outcome {
    match checks {
        Err(e) => Err(e),
        Ok((_, bump)) => match created {
            Err(e) => Err(e),
            Ok(_) => if accounts[0].data@.len() < 13 {
                Err(ProgramFault::AccountDataTooSmall)
            } else {
                Ok(written(accounts[0].data@, header(bump, number)))
            },
        },
    }
}

/// The checks before a gated buffer is written: the buffer holds a header
/// and lives at the address derived from the label, the binding key and the
/// header's number bytes.
pub open spec fn gated_checks(program_id: Seq<u8>, accounts: Seq<Account>, label: Seq<u8>, key_at: int) -> Result<(), ProgramFault> {
    if accounts[0].data@.len() < 13 {
        Err(ProgramFault::AccountDataTooSmall)
    } else if program_address(gated_seeds(label, accounts[key_at].key@, accounts[0].data@.subrange(5, 13)), program_id)
        matches Some((k, _)) && k == accounts[0].key@ {
        Ok(())
    } else {
        Err(ProgramFault::InvalidArgument)
    }
}

/// The header of a gated buffer, carried ahead of `data`.
pub open spec fn gated_content(slot: Seq<u8>, data: Seq<u8>) -> Seq<u8> {
    slot.subrange(4, 13) + data
}

/// A write by the authority a buffer is bound to.
pub open spec fn auth_echo_outcome(program_id: Seq<u8>, accounts: Seq<Account>, data: Seq<u8>) -> Outcome {
    if accounts.len() < 2 {
        Err(ProgramFault::NotEnoughAccountKeys)
    } else if !accounts[1].is_signer {
        Err(ProgramFault::MissingRequiredSignature)
    } else {
        match gated_checks(program_id, accounts, authority_label(), 1) {
            Err(e) => Err(e),
            Ok(_) => store(accounts[0].data@, gated_content(accounts[0].data@, data)),
        }
    }
}

/// The checks before a paid write: enough accounts, the user signed, the
/// token program is the expected one, and the buffer is bound to the mint.
pub open spec fn vending_checks(program_id: Seq<u8>, token_program: Seq<u8>, accounts: Seq<Account>) -> Result<(), ProgramFault> {
    if accounts.len() < 5 {
        Err(ProgramFault::NotEnoughAccountKeys)
    } else if !accounts[1].is_signer {
        Err(ProgramFault::MissingRequiredSignature)
    } else if accounts[4].key@ != token_program {
        Err(ProgramFault::InvalidArgument)
    } else {
        gated_checks(program_id, accounts, vending_label(), 3)
    }
}

/// A paid write: after the checks, the burn of the price must have
/// succeeded before anything is written.
pub open spec fn vending_echo_outcome(program_id: Seq<u8>, token_program: Seq<u8>, accounts: Seq<Account>, data: Seq<u8>, burned: Result<(), ProgramFault>) -> Outcome {
    match vending_checks(program_id, token_program, accounts) {
        Err(e) => Err(e),
        Ok(_) => match burned {
            Err(e) => Err(e),
            Ok(_) => store(accounts[0].data@, gated_content(accounts[0].data@, data)),
        },
    }
}

/// The price recorded in a gated buffer's header.
pub open spec fn recorded_number(slot: Seq<u8>) -> u64 {
    spec_u64_from_le_bytes(slot.subrange(5, 13))
}

/// A request to the host to create a buffer account, signed for the
/// derived address with its seeds.
pub struct CreateAccount {
    pub payer: Key,
    pub address: Key,
    pub space: u64,
    pub seeds: Vec<Vec<u8>>,
}

/// A request to the host's token program to burn `amount` from `holding`.
pub struct Burn {
    pub owner: Key,
    pub holding: Key,
    pub mint: Key,
    pub amount: u64,
}

/// Returns `err` unless `statement` holds.
pub fn assert_with_msg(statement: bool, err: ProgramFault) -> (r: Result<(), ProgramFault>)
    ensures
        r == (if statement { Ok(()) } else { Err(err) }),
{
    if !statement {
        Err(err)
    } else {
        Ok(())
    }
}

/// Stores `content` into the first account's data, cut to what fits.
fn replace_slot(accounts: &mut Vec<Account>, content: &Vec<u8>) -> (r: Result<(), ProgramFault>)
    requires
        old(accounts)@.len() >= 1,
        old(accounts)@[0].data@.len() >= 4,
    ensures
        applied(store(old(accounts)@[0].data@, content@), r, old(accounts)@, final(accounts)@),
{
    let cap = accounts[0].data.len() - 4;
    let cut = if content.len() <= cap { content.len() } else { cap };
    if cut > 0xffff_ffff {
        return Err(ProgramFault::BorshIoError);
    }
    let mut buf: Vec<u8> = Vec::new();
    std::mem::swap(&mut buf, &mut accounts[0].data);
    let ok = write_enveloped(&mut buf, content);
    std::mem::swap(&mut buf, &mut accounts[0].data);
    Ok(())
}

} // verus!

verus! {

/// `c` asks to create the buffer `address` of `space` bytes, paid by
/// `payer`, signed with the buffer's seeds and its bump.
pub open spec fn create_request(c: CreateAccount, payer: Key, address: Seq<u8>, space: usize, seeds: Seq<Seq<u8>>, bump: u8) -> bool {
    &&& c.payer == payer
    &&& c.address@ == address
    &&& c.space == space as u64
    &&& c.seeds@.len() == 4
    &&& c.seeds@[0]@ == seeds[0]
    &&& c.seeds@[1]@ == seeds[1]
    &&& c.seeds@[2]@ == seeds[2]
    &&& c.seeds@[3]@ == seq![bump]
}

/// Writes `data` into an unrestricted buffer, the first account, which must
/// be blank: its bytes must sum to zero in wrapping `u8` arithmetic. What
/// does not fit after the four-byte length prefix is dropped.
pub fn echo_ix(_program_id: &Key, accounts: &mut Vec<Account>, data: &Vec<u8>) -> (r: Result<(), ProgramFault>)
    ensures
        applied(echo_outcome(old(accounts)@, data@), r, old(accounts)@, final(accounts)@),
{
    if accounts.len() < 1 {
        return Err(ProgramFault::NotEnoughAccountKeys);
    }
    assert_with_msg(sums_to_zero(&accounts[0].data), ProgramFault::Echo(EchoError::BufferNonZero))?;
    if accounts[0].data.len() < 4 {
        return Err(ProgramFault::AccountDataTooSmall);
    }
    replace_slot(accounts, data)
}

fn check_init(
    program_id: &Key,
    system_program: &Key,
    accounts: &Vec<Account>,
    label: &Vec<u8>,
    key_at: usize,
    signer_at: usize,
    system_at: usize,
    number: u64,
) -> (r: Result<(Key, u8), ProgramFault>)
    requires
        key_at < system_at,
        signer_at < system_at,
    ensures
        match init_checks(program_id@, system_program@, accounts@, label@, key_at as int, signer_at as int, system_at as int, number) {
            Ok((k, b)) => r matches Ok((k2, b2)) && k2@ == k && b2 == b,
            Err(e) => r == Err::<(Key, u8), ProgramFault>(e),
        },
{
    if accounts.len() <= system_at {
        return Err(ProgramFault::NotEnoughAccountKeys);
    }
    assert_with_msg(accounts[signer_at].is_signer, ProgramFault::MissingRequiredSignature)?;
    assert_with_msg(keys_equal(&accounts[system_at].key, system_program), ProgramFault::InvalidArgument)?;
    let numeric = u64_to_le_bytes(number);
    match derive_address(label, &accounts[key_at].key, &numeric, program_id) {
        Some((k, b)) => {
            assert_with_msg(keys_equal(&k, &accounts[0].key), ProgramFault::InvalidArgument)?;
            Ok((k, b))
        },
        None => Err(ProgramFault::InvalidArgument),
    }
}

fn plan_gated_init(
    program_id: &Key,
    system_program: &Key,
    accounts: &Vec<Account>,
    label: Vec<u8>,
    key_at: usize,
    signer_at: usize,
    system_at: usize,
    number: u64,
    size: usize,
) -> (r: Result<CreateAccount, ProgramFault>)
    requires
        key_at < system_at,
        signer_at < system_at,
    ensures
        match init_checks(program_id@, system_program@, accounts@, label@, key_at as int, signer_at as int, system_at as int, number) {
            Ok((k, b)) => r matches Ok(c) && create_request(c, accounts@[signer_at as int].key, k, size,
                gated_seeds(label@, accounts@[key_at as int].key@, spec_u64_to_le_bytes(number)), b),
            Err(e) => r == Err::<CreateAccount, ProgramFault>(e),
        },
{
    let (address, bump) = check_init(program_id, system_program, accounts, &label, key_at, signer_at, system_at, number)?;
    let ghost label_view = label@;
    let mut seeds: Vec<Vec<u8>> = Vec::with_capacity(4);
    seeds.push(label);
    seeds.push(copy_key(&accounts[key_at].key));
    seeds.push(u64_to_le_bytes(number));
    let bump_seed: Vec<u8> = vec![bump];
    assert(bump_seed@ =~= seq![bump]);
    seeds.push(bump_seed);
    Ok(CreateAccount { payer: accounts[signer_at].key, address, space: size as u64, seeds })
}

fn gated_init(
    program_id: &Key,
    system_program: &Key,
    accounts: &mut Vec<Account>,
    label: &Vec<u8>,
    key_at: usize,
    signer_at: usize,
    system_at: usize,
    number: u64,
    created: Result<(), ProgramFault>,
) -> (r: Result<(), ProgramFault>)
    requires
        key_at < system_at,
        signer_at < system_at,
    ensures
        applied(
            init_outcome(init_checks(program_id@, system_program@, old(accounts)@, label@, key_at as int, signer_at as int, system_at as int, number), old(accounts)@, number, created),
            r, old(accounts)@, final(accounts)@),
{
    let (_, bump) = check_init(program_id, system_program, accounts, label, key_at, signer_at, system_at, number)?;
    created?;
    if accounts[0].data.len() < 13 {
        return Err(ProgramFault::AccountDataTooSmall);
    }
    let head = encode_header(bump, number);
    replace_slot(accounts, &head)
}

/// The account creation that `InitializeAuthorizedEcho` asks of the host:
/// accounts are the buffer, the signing authority and the system program;
/// the buffer must live at the address derived from `authority`, the
/// authority's key and `buffer_seed`.
pub fn plan_init_auth_echo(program_id: &Key, system_program: &Key, accounts: &Vec<Account>, buffer_seed: u64, buffer_size: usize) -> (r: Result<CreateAccount, ProgramFault>)
    ensures
        match init_checks(program_id@, system_program@, accounts@, authority_label(), 1, 1, 2, buffer_seed) {
            Ok((k, b)) => r matches Ok(c) && create_request(c, accounts@[1].key, k, buffer_size,
                gated_seeds(authority_label(), accounts@[1].key@, spec_u64_to_le_bytes(buffer_seed)), b),
            Err(e) => r == Err::<CreateAccount, ProgramFault>(e),
        },
{
    plan_gated_init(program_id, system_program, accounts, authority_seed(), 1, 1, 2, buffer_seed, buffer_size)
}

/// Initializes an authority-bound buffer once the host has run the
/// creation: with the checks passed and `created` a success, writes the
/// header (bump and all eight bytes of `buffer_seed`) into the new buffer.
pub fn init_auth_echo_ix(program_id: &Key, system_program: &Key, accounts: &mut Vec<Account>, buffer_seed: u64, created: Result<(), ProgramFault>) -> (r: Result<(), ProgramFault>)
    ensures
        applied(
            init_outcome(init_checks(program_id@, system_program@, old(accounts)@, authority_label(), 1, 1, 2, buffer_seed), old(accounts)@, buffer_seed, created),
            r, old(accounts)@, final(accounts)@),
{
    let label = authority_seed();
    gated_init(program_id, system_program, accounts, &label, 1, 1, 2, buffer_seed, created)
}

/// The account creation that `InitializeVendingMachine` asks of the host:
/// accounts are the buffer, the mint, the paying signer and the system
/// program; the buffer must live at the address derived from
/// `vending machine`, the mint's key and `price`.
pub fn plan_init_vending_echo(program_id: &Key, system_program: &Key, accounts: &Vec<Account>, price: u64, buffer_size: usize) -> (r: Result<CreateAccount, ProgramFault>)
    ensures
        match init_checks(program_id@, system_program@, accounts@, vending_label(), 1, 2, 3, price) {
            Ok((k, b)) => r matches Ok(c) && create_request(c, accounts@[2].key, k, buffer_size,
                gated_seeds(vending_label(), accounts@[1].key@, spec_u64_to_le_bytes(price)), b),
            Err(e) => r == Err::<CreateAccount, ProgramFault>(e),
        },
{
    plan_gated_init(program_id, system_program, accounts, vending_seed(), 1, 2, 3, price, buffer_size)
}

/// Initializes a buffer bound to a mint and a price once the host has run
/// the creation: writes the header (bump and all eight bytes of `price`).
pub fn init_vending_echo_ix(program_id: &Key, system_program: &Key, accounts: &mut Vec<Account>, price: u64, created: Result<(), ProgramFault>) -> (r: Result<(), ProgramFault>)
    ensures
        applied(
            init_outcome(init_checks(program_id@, system_program@, old(accounts)@, vending_label(), 1, 2, 3, price), old(accounts)@, price, created),
            r, old(accounts)@, final(accounts)@),
{
    let label = vending_seed();
    gated_init(program_id, system_program, accounts, &label, 1, 2, 3, price, created)
}

fn check_gated(program_id: &Key, accounts: &Vec<Account>, label: &Vec<u8>, key_at: usize) -> (r: Result<(), ProgramFault>)
    requires
        key_at < accounts@.len(),
    ensures
        r == gated_checks(program_id@, accounts@, label@, key_at as int),
{
    if accounts[0].data.len() < 13 {
        return Err(ProgramFault::AccountDataTooSmall);
    }
    let numeric = copy_range(&accounts[0].data, 5, 13);
    assert_with_msg(verify_address(&accounts[0].key, label, &accounts[key_at].key, &numeric, program_id), ProgramFault::InvalidArgument)
}

fn write_gated(accounts: &mut Vec<Account>, data: &Vec<u8>) -> (r: Result<(), ProgramFault>)
    requires
        old(accounts)@.len() >= 1,
        old(accounts)@[0].data@.len() >= 13,
    ensures
        applied(store(old(accounts)@[0].data@, gated_content(old(accounts)@[0].data@, data@)), r, old(accounts)@, final(accounts)@),
{
    let mut content = copy_range(&accounts[0].data, 4, 13);
    let mut i: usize = 0;
    while i < data.len()
        invariant
            i <= data@.len(),
            content@ == accounts@[0].data@.subrange(4, 13) + data@.take(i as int),
        decreases data@.len() - i,
    {
        content.push(data[i]);
        i = i + 1;
        assert(content@ =~= accounts@[0].data@.subrange(4, 13) + data@.take(i as int));
    }
    assert(data@.take(data@.len() as int) =~= data@);
    replace_slot(accounts, &content)
}

/// Writes into an authority-bound buffer: accounts are the buffer and the
/// authority, which must sign and, with the number recorded in the buffer's
/// header, derive the buffer's address. The header is carried ahead of
/// `data`; what does not fit is cut from the end of `data`.
pub fn auth_echo_ix(program_id: &Key, accounts: &mut Vec<Account>, data: &Vec<u8>) -> (r: Result<(), ProgramFault>)
    ensures
        applied(auth_echo_outcome(program_id@, old(accounts)@, data@), r, old(accounts)@, final(accounts)@),
{
    if accounts.len() < 2 {
        return Err(ProgramFault::NotEnoughAccountKeys);
    }
    assert_with_msg(accounts[1].is_signer, ProgramFault::MissingRequiredSignature)?;
    let label = authority_seed();
    check_gated(program_id, accounts, &label, 1)?;
    write_gated(accounts, data)
}

/// The burn that `VendingMachineEcho` asks of the host: accounts are the
/// buffer, the signing user, the user's token holding, the mint and the
/// token program. The amount is the price recorded in the buffer's header.
pub fn plan_vending_echo(program_id: &Key, token_program: &Key, accounts: &Vec<Account>) -> (r: Result<Burn, ProgramFault>)
    ensures
        match vending_checks(program_id@, token_program@, accounts@) {
            Ok(_) => r matches Ok(b) && b.owner == accounts@[1].key && b.holding == accounts@[2].key
                && b.mint == accounts@[3].key && b.amount == recorded_number(accounts@[0].data@),
            Err(e) => r == Err::<Burn, ProgramFault>(e),
        },
{
    check_vending(program_id, token_program, accounts)?;
    let amount = u64_from_le_bytes(copy_range(&accounts[0].data, 5, 13).as_slice());
    Ok(Burn { owner: accounts[1].key, holding: accounts[2].key, mint: accounts[3].key, amount })
}

fn check_vending(program_id: &Key, token_program: &Key, accounts: &Vec<Account>) -> (r: Result<(), ProgramFault>)
    ensures
        r == vending_checks(program_id@, token_program@, accounts@),
{
    if accounts.len() < 5 {
        return Err(ProgramFault::NotEnoughAccountKeys);
    }
    assert_with_msg(accounts[1].is_signer, ProgramFault::MissingRequiredSignature)?;
    assert_with_msg(keys_equal(&accounts[4].key, token_program), ProgramFault::InvalidArgument)?;
    let label = vending_seed();
    check_gated(program_id, accounts, &label, 3)
}

/// Writes into a buffer bound to a mint and a price, once the host has run
/// the burn of `plan_vending_echo`: with the checks passed and `burned` a
/// success, the header is carried ahead of `data` as in `auth_echo_ix`;
/// a failed burn is returned and nothing is written.
pub fn vending_echo_ix(program_id: &Key, token_program: &Key, accounts: &mut Vec<Account>, data: &Vec<u8>, burned: Result<(), ProgramFault>) -> (r: Result<(), ProgramFault>)
    ensures
        applied(vending_echo_outcome(program_id@, token_program@, old(accounts)@, data@, burned), r, old(accounts)@, final(accounts)@),
{
    check_vending(program_id, token_program, accounts)?;
    burned?;
    write_gated(accounts, data)
}

} // verus!
