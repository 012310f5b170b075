use vstd::prelude::*;
use vstd::bytes::{
    spec_u32_from_le_bytes, spec_u32_to_le_bytes, spec_u64_to_le_bytes, lemma_auto_spec_u32_to_from_le_bytes,
    lemma_auto_spec_u64_to_from_le_bytes,
};
use crate::slot::{Account, byte_sum, fitted, written, lemma_envelope_len};
use crate::error::{EchoError, ProgramFault};
use crate::address::{authority_label, vending_label, gated_seeds, header, program_address};
use crate::instruction::{
    auth_echo_outcome, echo_outcome, gated_content, init_checks, init_outcome, recorded_number, store, vending_checks,
    vending_echo_outcome,
};

verus! {

/// What a buffer holds in its envelope: as many bytes after the four-byte
/// length prefix as the prefix gives.
pub open spec fn read_back(slot: Seq<u8>) -> Seq<u8> {
    slot.subrange(4, 4 + spec_u32_from_le_bytes(slot.take(4)) as int)
}

/// The header bytes of a gated buffer.
pub open spec fn header_of(slot: Seq<u8>) -> Seq<u8> {
    slot.subrange(4, 13)
}

/// A gated buffer after a run of writes, each carrying its header ahead of
/// the next payload; `None` once one of them fails.
pub open spec fn write_all(slot: Seq<u8>, payloads: Seq<Seq<u8>>) -> Option<Seq<u8>>
    decreases payloads.len(),
{
    if payloads.len() == 0 {
        Some(slot)
    } else {
        match write_all(slot, payloads.drop_last()) {
            Some(s) => match store(s, gated_content(s, payloads.last())) {
                Ok(t) => Some(t),
                Err(_) => None,
            },
            None => None,
        }
    }
}

proof fn lemma_written_layout(old: Seq<u8>, content: Seq<u8>)
    requires
        old.len() >= 4,
        fitted(content, old.len()).len() <= u32::MAX,
    ensures
        written(old, content).len() == old.len(),
        read_back(written(old, content)) == fitted(content, old.len()),
        fitted(content, old.len()).len() + 4 <= old.len(),
        forall|i: int| 0 <= i < fitted(content, old.len()).len() ==> #[trigger] written(old, content)[4 + i] == fitted(content, old.len())[i],
{
    let c = fitted(content, old.len());
    lemma_envelope_len(c);
    lemma_auto_spec_u32_to_from_le_bytes();
    let w = written(old, content);
    assert(w.take(4) =~= spec_u32_to_le_bytes(c.len() as u32));
    assert(read_back(w) =~= c);
}

/// Writing a blank buffer of `capacity` bytes through the unrestricted
/// handler succeeds (within the envelope's `u32` length) and reads back as
/// the payload cut to `capacity - 4` bytes, never more.
pub proof fn lemma_echo_reads_back(accounts: Seq<Account>, data: Seq<u8>)
    requires
        accounts.len() >= 1,
        byte_sum(accounts[0].data@) % 256 == 0,
        4 <= accounts[0].data@.len() <= u32::MAX,
    ensures
        echo_outcome(accounts, data) matches Ok(d) && d.len() == accounts[0].data@.len()
            && read_back(d) == (if data.len() + 4 <= d.len() { data } else { data.take(d.len() - 4) })
            && read_back(d).len() <= d.len() - 4,
{
    lemma_written_layout(accounts[0].data@, data);
}

/// The unrestricted handler refuses a buffer whose bytes do not sum to zero,
/// whatever the payload.
pub proof fn lemma_nonblank_refused(accounts: Seq<Account>, data: Seq<u8>)
    requires
        accounts.len() >= 1,
        byte_sum(accounts[0].data@) % 256 != 0,
    ensures
        echo_outcome(accounts, data) == Err::<Seq<u8>, ProgramFault>(ProgramFault::Echo(EchoError::BufferNonZero)),
{
}

proof fn lemma_store_keeps_header(slot: Seq<u8>, data: Seq<u8>)
    requires
        slot.len() >= 13,
    ensures
        store(slot, gated_content(slot, data)) matches Ok(t) ==> t.len() == slot.len() && header_of(t) == header_of(slot),
{
    let c = gated_content(slot, data);
    if fitted(c, slot.len()).len() <= u32::MAX {
        lemma_written_layout(slot, c);
        let t = written(slot, c);
        assert forall|i: int| 0 <= i < 9 implies header_of(t)[i] == header_of(slot)[i] by {
            assert(t[4 + i] == fitted(c, slot.len())[i]);
        }
        assert(header_of(t) =~= header_of(slot));
    }
}

/// A buffer initialized with `number` holds the header of its bump and all
/// eight bytes of `number`; a later write by the same authority, who signs,
/// succeeds (within the envelope's `u32` length), while one by a signer from
/// whose key the buffer's address does not derive fails with `InvalidArgument`.
pub proof fn lemma_authority_round_trip(
    program_id: Seq<u8>,
    system_program: Seq<u8>,
    init_accounts: Seq<Account>,
    number: u64,
    created: Seq<u8>,
    echo_accounts: Seq<Account>,
    data: Seq<u8>,
)
    requires
        init_outcome(init_checks(program_id, system_program, init_accounts, authority_label(), 1, 1, 2, number), init_accounts, number, Ok(())) == Ok::<Seq<u8>, ProgramFault>(created),
        created.len() <= u32::MAX,
        echo_accounts.len() >= 2,
        echo_accounts[0].key == init_accounts[0].key,
        echo_accounts[0].data@ == created,
        echo_accounts[1].is_signer,
    ensures
        init_checks(program_id, system_program, init_accounts, authority_label(), 1, 1, 2, number) matches Ok((_, bump))
            && header_of(created) == header(bump, number),
        echo_accounts[1].key == init_accounts[1].key ==> auth_echo_outcome(program_id, echo_accounts, data) is Ok,
        !(program_address(gated_seeds(authority_label(), echo_accounts[1].key@, spec_u64_to_le_bytes(number)), program_id)
            matches Some((k, _)) && k == init_accounts[0].key@)
            ==> auth_echo_outcome(program_id, echo_accounts, data) == Err::<Seq<u8>, ProgramFault>(ProgramFault::InvalidArgument),
{
    let slot = init_accounts[0].data@;
    let bump = init_checks(program_id, system_program, init_accounts, authority_label(), 1, 1, 2, number)->Ok_0.1;
    lemma_written_layout(slot, header(bump, number));
    lemma_auto_spec_u64_to_from_le_bytes();
    assert forall|i: int| 0 <= i < 9 implies header_of(created)[i] == header(bump, number)[i] by {
        assert(created[4 + i] == fitted(header(bump, number), slot.len())[i]);
    }
    assert(header_of(created) =~= header(bump, number));
    assert(created.subrange(5, 13) =~= header(bump, number).skip(1));
    assert(header(bump, number).skip(1) =~= spec_u64_to_le_bytes(number));
    lemma_written_layout(created, gated_content(created, data));
}

/// A buffer initialized with a `price` records that price in full: the
/// burn that a later paid write asks for is of exactly `price`.
pub proof fn lemma_vending_records_price(
    program_id: Seq<u8>,
    system_program: Seq<u8>,
    accounts: Seq<Account>,
    price: u64,
    created: Seq<u8>,
)
    requires
        init_outcome(init_checks(program_id, system_program, accounts, vending_label(), 1, 2, 3, price), accounts, price, Ok(())) == Ok::<Seq<u8>, ProgramFault>(created),
    ensures
        recorded_number(created) == price,
{
    let slot = accounts[0].data@;
    let bump = init_checks(program_id, system_program, accounts, vending_label(), 1, 2, 3, price)->Ok_0.1;
    lemma_auto_spec_u64_to_from_le_bytes();
    lemma_written_layout(slot, header(bump, price));
    assert forall|i: int| 0 <= i < 9 implies header_of(created)[i] == header(bump, price)[i] by {
        assert(created[4 + i] == fitted(header(bump, price), slot.len())[i]);
    }
    assert(created.subrange(5, 13) =~= header(bump, price).skip(1));
    assert(header(bump, price).skip(1) =~= spec_u64_to_le_bytes(price));
}

/// A paid write whose burn failed leaves the buffer as it was: the outcome
/// is an error, the burn's own error once the checks passed.
pub proof fn lemma_failed_burn_writes_nothing(
    program_id: Seq<u8>,
    token_program: Seq<u8>,
    accounts: Seq<Account>,
    data: Seq<u8>,
    failure: ProgramFault,
)
    ensures
        vending_echo_outcome(program_id, token_program, accounts, data, Err(failure)) is Err,
        vending_checks(program_id, token_program, accounts) is Ok
            ==> vending_echo_outcome(program_id, token_program, accounts, data, Err(failure)) == Err::<Seq<u8>, ProgramFault>(failure),
{
}

/// A gated write that succeeds keeps the buffer's length and its header
/// bytes.
pub proof fn lemma_gated_write_keeps_header(
    program_id: Seq<u8>,
    token_program: Seq<u8>,
    accounts: Seq<Account>,
    data: Seq<u8>,
    burned: Result<(), ProgramFault>,
)
    ensures
        auth_echo_outcome(program_id, accounts, data) matches Ok(t)
            ==> t.len() == accounts[0].data@.len() && header_of(t) == header_of(accounts[0].data@),
        vending_echo_outcome(program_id, token_program, accounts, data, burned) matches Ok(t)
            ==> t.len() == accounts[0].data@.len() && header_of(t) == header_of(accounts[0].data@),
{
    if accounts.len() >= 1 && accounts[0].data@.len() >= 13 {
        lemma_store_keeps_header(accounts[0].data@, data);
    }
}

/// However many gated writes follow one another, as long as they succeed,
/// the buffer keeps its length and its header bytes.
pub proof fn lemma_header_survives_writes(slot: Seq<u8>, payloads: Seq<Seq<u8>>)
    requires
        slot.len() >= 13,
    ensures
        write_all(slot, payloads) matches Some(t) ==> t.len() == slot.len() && header_of(t) == header_of(slot),
    decreases payloads.len(),
{
    if payloads.len() > 0 {
        lemma_header_survives_writes(slot, payloads.drop_last());
        if let Some(s) = write_all(slot, payloads.drop_last()) {
            lemma_store_keeps_header(s, payloads.last());
        }
    }
}

} // verus!
