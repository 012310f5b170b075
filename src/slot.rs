use vstd::prelude::*;
use vstd::bytes::{spec_u32_to_le_bytes, lemma_auto_spec_u32_to_from_le_bytes};

verus! {

/// A 32-byte account address.
pub type Key = [u8; 32];

/// An account handed to an instruction: its address, whether it signed the
/// transaction, and its data bytes.
pub struct Account {
    pub key: Key,
    pub is_signer: bool,
    pub data: Vec<u8>,
}

/// The sum of the bytes of `s`, as an unbounded number.
pub open spec fn byte_sum(s: Seq<u8>) -> nat
    decreases s.len(),
{
    if s.len() == 0 {
        0
    } else {
        byte_sum(s.drop_last()) + s.last() as nat
    }
}

/// The length-prefixed form of a byte array: its length as four
/// little-endian bytes, then the bytes.
pub open spec fn envelope(s: Seq<u8>) -> Seq<u8> {
    spec_u32_to_le_bytes(s.len() as u32) + s
}

/// How much of `content` fits into a buffer of `len` bytes once the
/// envelope's length prefix is taken off.
pub open spec fn fitted(content: Seq<u8>, len: nat) -> Seq<u8>
    recommends
        len >= 4,
{
    if content.len() + 4 <= len {
        content
    } else {
        content.take(len - 4)
    }
}

/// The buffer `old` after `content` was written into it in its envelope,
/// cut to what fits; the bytes past the envelope are kept.
pub open spec fn written(old: Seq<u8>, content: Seq<u8>) -> Seq<u8>
    recommends
        old.len() >= 4,
{
    let c = fitted(content, old.len());
    envelope(c) + old.skip((4 + c.len()) as int)
}

pub proof fn lemma_envelope_len(s: Seq<u8>)
    ensures
        envelope(s).len() == s.len() + 4,
        spec_u32_to_le_bytes(s.len() as u32).len() == 4,
{
    lemma_auto_spec_u32_to_from_le_bytes();
}

/// Relies on borsh's `BorshSerialize` for a byte vector: the length as a
/// little-endian `u32`, then the bytes; writing into a `Vec` fails only when
/// the length does not fit in a `u32`.
#[verifier::external_body]
fn borsh_bytes(data: &Vec<u8>) -> (r: Option<Vec<u8>>)
    ensures
        data@.len() <= u32::MAX ==> r is Some,
        r matches Some(v) ==> v@ == envelope(data@),
{
    borsh::BorshSerialize::try_to_vec(data).ok()
}

/// The bytes of `v` from `lo` up to, not including, `hi`.
pub fn copy_range(v: &Vec<u8>, lo: usize, hi: usize) -> (r: Vec<u8>)
    requires
        lo <= hi <= v@.len(),
    ensures
        r@ == v@.subrange(lo as int, hi as int),
{
    let mut r: Vec<u8> = Vec::with_capacity(hi - lo);
    let mut i: usize = lo;
    while i < hi
        invariant
            lo <= i <= hi,
            hi <= v@.len(),
            r@ == v@.subrange(lo as int, i as int),
        decreases hi - i,
    {
        r.push(v[i]);
        i = i + 1;
        assert(r@ =~= v@.subrange(lo as int, i as int));
    }
    r
}

/// The bytes of a key, as a vector.
pub fn copy_key(k: &Key) -> (r: Vec<u8>)
    ensures
        r@ == k@,
{
    let mut r: Vec<u8> = Vec::with_capacity(32);
    let mut i: usize = 0;
    while i < 32
        invariant
            i <= 32,
            k@.len() == 32,
            r@ == k@.take(i as int),
        decreases 32 - i,
    {
        r.push(k[i]);
        i = i + 1;
        assert(r@ =~= k@.take(i as int));
    }
    assert(k@.take(32) =~= k@);
    r
}

/// Whether the bytes of `data` sum to zero in wrapping `u8` arithmetic.
pub fn sums_to_zero(data: &Vec<u8>) -> (r: bool)
    ensures
        r == (byte_sum(data@) % 256 == 0),
{
    let mut s: u8 = 0;
    let mut i: usize = 0;
    while i < data.len()
        invariant
            i <= data@.len(),
            s as nat == byte_sum(data@.take(i as int)) % 256,
        decreases data@.len() - i,
    {
        let ghost before = data@.take(i as int);
        let b = data[i];
        assert(data@.take(i as int + 1).drop_last() =~= before);
        proof {
            vstd::arithmetic::div_mod::lemma_add_mod_noop(byte_sum(before) as int, b as int, 256);
        }
        s = ((s as u16 + b as u16) % 256) as u8;
        i = i + 1;
    }
    assert(data@.take(data@.len() as int) =~= data@);
    s == 0
}

/// Writes `content` into `buf` in its envelope, cut to what fits after the
/// four-byte prefix; the bytes past the envelope keep their values. Fails,
/// leaving `buf` as it was, when the part that fits is too long for the
/// envelope's `u32` length.
pub fn write_enveloped(buf: &mut Vec<u8>, content: &Vec<u8>) -> (ok: bool)
    requires
        old(buf)@.len() >= 4,
    ensures
        ok == (fitted(content@, old(buf)@.len()).len() <= u32::MAX),
        ok ==> final(buf)@ == written(old(buf)@, content@),
        !ok ==> final(buf)@ == old(buf)@,
{
    let cap = buf.len() - 4;
    let cut = if content.len() <= cap {
        copy_range(content, 0, content.len())
    } else {
        copy_range(content, 0, cap)
    };
    assert(content@.subrange(0, content@.len() as int) =~= content@);
    assert(cut@ =~= fitted(content@, old(buf)@.len()));
    if cut.len() > 0xffff_ffff {
        return false;
    }
    let env = match borsh_bytes(&cut) {
        Some(e) => e,
        None => {
            return false;
        },
    };
    proof {
        lemma_envelope_len(cut@);
    }
    let ghost start = buf@;
    let mut i: usize = 0;
    while i < env.len()
        invariant
            i <= env@.len(),
            env@.len() <= start.len(),
            buf@.len() == start.len(),
            forall|j: int| 0 <= j < i ==> buf@[j] == env@[j],
            forall|j: int| i <= j < start.len() ==> buf@[j] == start[j],
        decreases env@.len() - i,
    {
        buf.set(i, env[i]);
        i = i + 1;
    }
    assert(buf@ =~= written(start, content@));
    true
}

} // verus!
