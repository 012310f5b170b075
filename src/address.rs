use vstd::prelude::*;
use vstd::bytes::{spec_u64_to_le_bytes, u64_to_le_bytes};
use crate::slot::Key;

verus! {

/// The address that the host derives for a program from a list of seeds,
/// with the bump that made it valid; `None` where no bump gives an address
/// off the curve or the seeds are out of the host's limits.
pub uninterp spec fn program_address(seeds: Seq<Seq<u8>>, program_id: Seq<u8>) -> Option<(Seq<u8>, u8)>;

/// The derivation result as plain byte sequences.
pub open spec fn address_view(r: Option<(Key, u8)>) -> Option<(Seq<u8>, u8)> {
    match r {
        Some((k, b)) => Some((k@, b)),
        None => None,
    }
}

/// The seed label of buffers bound to an authority: `authority`.
pub open spec fn authority_label() -> Seq<u8> {
    seq![97u8, 117, 116, 104, 111, 114, 105, 116, 121]
}

/// The seed label of buffers bound to a mint and a price: `vending machine`.
pub open spec fn vending_label() -> Seq<u8> {
    seq![118u8, 101, 110, 100, 105, 110, 103, 32, 109, 97, 99, 104, 105, 110, 101]
}

/// The seeds of a gated buffer: a label, the key that binds it and the
/// eight little-endian bytes of its number.
pub open spec fn gated_seeds(label: Seq<u8>, key: Seq<u8>, numeric: Seq<u8>) -> Seq<Seq<u8>> {
    seq![label, key, numeric]
}

/// Where a gated buffer with these seeds lives, and its bump.
pub open spec fn derived(label: Seq<u8>, key: Seq<u8>, number: u64, program_id: Seq<u8>) -> Option<(Seq<u8>, u8)> {
    program_address(gated_seeds(label, key, spec_u64_to_le_bytes(number)), program_id)
}

/// The header of a gated buffer: the bump, then the eight little-endian
/// bytes of its number.
pub open spec fn header(bump: u8, number: u64) -> Seq<u8> {
    seq![bump] + spec_u64_to_le_bytes(number)
}

/// Relies on `Pubkey::try_find_program_address` of solana-program: the
/// address and bump found for three seeds, a function of the seeds and the
/// program id alone.
#[verifier::external_body]
fn find_program_address(label: &Vec<u8>, key: &Key, numeric: &Vec<u8>, program_id: &Key) -> (r: Option<(Key, u8)>)
    ensures
        address_view(r) == program_address(gated_seeds(label@, key@, numeric@), program_id@),
{
    let seeds: [&[u8]; 3] = [label.as_slice(), key.as_slice(), numeric.as_slice()];
    let program = solana_program::pubkey::Pubkey::new_from_array(*program_id);
    solana_program::pubkey::Pubkey::try_find_program_address(&seeds, &program).map(|(k, b)| (k.to_bytes(), b))
}

/// Finds the address and bump of the buffer with these seeds.
pub fn derive_address(label: &Vec<u8>, key: &Key, numeric: &Vec<u8>, program_id: &Key) -> (r: Option<(Key, u8)>)
    ensures
        address_view(r) == program_address(gated_seeds(label@, key@, numeric@), program_id@),
{
    find_program_address(label, key, numeric, program_id)
}

/// Whether two keys hold the same bytes.
pub fn keys_equal(a: &Key, b: &Key) -> (r: bool)
    ensures
        r == (a@ == b@),
{
    let mut i: usize = 0;
    while i < 32
        invariant
            i <= 32,
            a@.len() == 32,
            b@.len() == 32,
            forall|j: int| 0 <= j < i ==> a@[j] == b@[j],
        decreases 32 - i,
    {
        if a[i] != b[i] {
            return false;
        }
        i = i + 1;
    }
    assert(a@ =~= b@);
    true
}

/// Whether `candidate` is where the buffer with these seeds lives.
pub fn verify_address(candidate: &Key, label: &Vec<u8>, key: &Key, numeric: &Vec<u8>, program_id: &Key) -> (r: bool)
    ensures
        r == (program_address(gated_seeds(label@, key@, numeric@), program_id@) matches Some((k, _))
            && k == candidate@),
{
    match derive_address(label, key, numeric, program_id) {
        Some((k, _)) => keys_equal(&k, candidate),
        None => false,
    }
}

/// The label bytes of authority-bound buffers.
pub fn authority_seed() -> (r: Vec<u8>)
    ensures
        r@ == authority_label(),
{
    let r: Vec<u8> = vec![97u8, 117, 116, 104, 111, 114, 105, 116, 121];
    assert(r@ =~= authority_label());
    r
}

/// The label bytes of mint-and-price-bound buffers.
pub fn vending_seed() -> (r: Vec<u8>)
    ensures
        r@ == vending_label(),
{
    let r: Vec<u8> = vec![118u8, 101, 110, 100, 105, 110, 103, 32, 109, 97, 99, 104, 105, 110, 101];
    assert(r@ =~= vending_label());
    r
}

/// The header bytes for a bump and a number.
pub fn encode_header(bump: u8, number: u64) -> (r: Vec<u8>)
    ensures
        r@ == header(bump, number),
        r@.len() == 9,
{
    let le = u64_to_le_bytes(number);
    let mut r: Vec<u8> = vec![bump];
    let mut i: usize = 0;
    while i < 8
        invariant
            i <= 8,
            le@.len() == 8,
            r@ == seq![bump] + le@.take(i as int),
        decreases 8 - i,
    {
        r.push(le[i]);
        i = i + 1;
        assert(r@ =~= seq![bump] + le@.take(i as int));
    }
    assert(le@.take(8) =~= le@);
    r
}

} // verus!
