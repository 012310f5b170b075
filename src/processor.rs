use vstd::prelude::*;
use vstd::bytes::spec_u64_to_le_bytes;
use crate::slot::{Account, Key};
use crate::error::ProgramFault;
use crate::address::{authority_label, vending_label, gated_seeds};
use crate::instruction::{
    Burn, CreateAccount, EchoInstruction, Operation, Outcome, applied, auth_echo_ix, auth_echo_outcome, create_request,
    echo_ix, echo_outcome, init_auth_echo_ix, init_checks, init_outcome, init_vending_echo_ix, parse, plan_init_auth_echo,
    plan_init_vending_echo, plan_vending_echo, recorded_number, vending_checks, vending_echo_ix, vending_echo_outcome,
};

verus! {

/// The addresses of the host's well-known programs that instructions call.
#[derive(Clone, Copy)]
pub struct Services {
    pub system_program: Key,
    pub token_program: Key,
}

/// What the host must run for an instruction before its effects are applied.
pub enum HostCall {
    /// Nothing: the instruction only writes its buffer.
    Nothing,
    /// Create the buffer account.
    Create(CreateAccount),
    /// Burn the price from the user's holding.
    Burn(Burn),
}

/// What the instruction bytes `b` do to `accounts`, given the result of
/// the host's call for it (ignored by the instructions that make none).
pub open spec fn process_outcome(
    program_id: Seq<u8>,
    services: Services,
    accounts: Seq<Account>,
    b: Seq<u8>,
    host_result: Result<(), ProgramFault>,
) -> Outcome {
    match parse(b) {
        None => Err(ProgramFault::InvalidAccountData),
        Some(Operation::Echo(d)) => echo_outcome(accounts, d),
        Some(Operation::InitializeAuthorizedEcho(n, _)) => init_outcome(
            init_checks(program_id, services.system_program@, accounts, authority_label(), 1, 1, 2, n), accounts, n, host_result),
        Some(Operation::AuthorizedEcho(d)) => auth_echo_outcome(program_id, accounts, d),
        Some(Operation::InitializeVendingMachine(p, _)) => init_outcome(
            init_checks(program_id, services.system_program@, accounts, vending_label(), 1, 2, 3, p), accounts, p, host_result),
        Some(Operation::VendingMachineEcho(d)) => vending_echo_outcome(program_id, services.token_program@, accounts, d, host_result),
    }
}

/// `r` is the host call that the instruction bytes `b` ask for, or the
/// error that stops them first.
pub open spec fn planned(program_id: Seq<u8>, services: Services, accounts: Seq<Account>, b: Seq<u8>, r: Result<HostCall, ProgramFault>) -> bool {
    match parse(b) {
        None => r == Err::<HostCall, ProgramFault>(ProgramFault::InvalidAccountData),
        Some(Operation::Echo(_)) => r matches Ok(HostCall::Nothing),
        Some(Operation::AuthorizedEcho(_)) => r matches Ok(HostCall::Nothing),
        Some(Operation::InitializeAuthorizedEcho(n, s)) =>
            match init_checks(program_id, services.system_program@, accounts, authority_label(), 1, 1, 2, n) {
                Ok((k, bump)) => r matches Ok(HostCall::Create(c)) && create_request(c, accounts[1].key, k, s,
                    gated_seeds(authority_label(), accounts[1].key@, spec_u64_to_le_bytes(n)), bump),
                Err(e) => r == Err::<HostCall, ProgramFault>(e),
            },
        Some(Operation::InitializeVendingMachine(p, s)) =>
            match init_checks(program_id, services.system_program@, accounts, vending_label(), 1, 2, 3, p) {
                Ok((k, bump)) => r matches Ok(HostCall::Create(c)) && create_request(c, accounts[2].key, k, s,
                    gated_seeds(vending_label(), accounts[1].key@, spec_u64_to_le_bytes(p)), bump),
                Err(e) => r == Err::<HostCall, ProgramFault>(e),
            },
        Some(Operation::VendingMachineEcho(_)) => match vending_checks(program_id, services.token_program@, accounts) {
            Ok(_) => r matches Ok(HostCall::Burn(burn)) && burn.owner == accounts[1].key && burn.holding == accounts[2].key
                && burn.mint == accounts[3].key && burn.amount == recorded_number(accounts[0].data@),
            Err(e) => r == Err::<HostCall, ProgramFault>(e),
        },
    }
}

/// The program's entry: decodes an instruction and routes it to its handler.
pub struct Processor {}

impl Processor {
    /// The host call that an instruction needs before it can be applied.
    pub fn plan_instruction(program_id: &Key, services: &Services, accounts: &Vec<Account>, instruction_data: &Vec<u8>) -> (r: Result<HostCall, ProgramFault>)
        ensures
            planned(program_id@, *services, accounts@, instruction_data@, r),
    {
        let instruction = EchoInstruction::try_from_slice(instruction_data)?;
        match instruction {
            EchoInstruction::Echo { .. } => Ok(HostCall::Nothing),
            EchoInstruction::AuthorizedEcho { .. } => Ok(HostCall::Nothing),
            EchoInstruction::InitializeAuthorizedEcho { buffer_seed, buffer_size } => {
                let c = plan_init_auth_echo(program_id, &services.system_program, accounts, buffer_seed, buffer_size)?;
                Ok(HostCall::Create(c))
            },
            EchoInstruction::InitializeVendingMachine { price, buffer_size } => {
                let c = plan_init_vending_echo(program_id, &services.system_program, accounts, price, buffer_size)?;
                Ok(HostCall::Create(c))
            },
            EchoInstruction::VendingMachineEcho { .. } => {
                let b = plan_vending_echo(program_id, &services.token_program, accounts)?;
                Ok(HostCall::Burn(b))
            },
        }
    }

    /// Decodes an instruction and applies it to `accounts`, given the
    /// result of the host call that `plan_instruction` asked for.
    pub fn process_instruction(
        program_id: &Key,
        services: &Services,
        accounts: &mut Vec<Account>,
        instruction_data: &Vec<u8>,
        host_result: Result<(), ProgramFault>,
    ) -> (r: Result<(), ProgramFault>)
        ensures
            applied(process_outcome(program_id@, *services, old(accounts)@, instruction_data@, host_result), r, old(accounts)@, final(accounts)@),
    {
        let instruction = EchoInstruction::try_from_slice(instruction_data)?;
        match instruction {
            EchoInstruction::Echo { data } => echo_ix(program_id, accounts, &data),
            EchoInstruction::InitializeAuthorizedEcho { buffer_seed, .. } =>
                init_auth_echo_ix(program_id, &services.system_program, accounts, buffer_seed, host_result),
            EchoInstruction::AuthorizedEcho { data } => auth_echo_ix(program_id, accounts, &data),
            EchoInstruction::InitializeVendingMachine { price, .. } =>
                init_vending_echo_ix(program_id, &services.system_program, accounts, price, host_result),
            EchoInstruction::VendingMachineEcho { data } =>
                vending_echo_ix(program_id, &services.token_program, accounts, &data, host_result),
        }
    }
}

} // verus!
