//! The canonical message that both parties sign for a channel state, and
//! the shape a signature must have.
use vstd::prelude::*;
use crate::pubkey::Pubkey;

verus! {

/// Number of bytes in a party's signature.
pub const SIGNATURE_BYTES: usize = 64;

/// Domain tag that starts every signed state message.
pub const STATE_DOMAIN_TAG: [u8; 8] = [0x73, 0x6f, 0x6c, 0x62, 0x6f, 0x6c, 0x74, 0x31];

/// `v` as eight little-endian bytes.
pub open spec fn le_bytes(v: u64) -> Seq<u8> {
    Seq::new(8, |i: int| ((v >> (8 * i) as u64) & 0xff) as u8)
}

/// The message signed for the state `(balance_a, balance_b, nonce)` of the
/// channel between `party_a` and `party_b`: the domain tag, both keys, then
/// the two balances and the nonce, each little-endian.
pub open spec fn state_message_of(
    party_a: Seq<u8>,
    party_b: Seq<u8>,
    balance_a: u64,
    balance_b: u64,
    nonce: u64,
) -> Seq<u8> {
    STATE_DOMAIN_TAG@ + party_a + party_b + le_bytes(balance_a) + le_bytes(balance_b) + le_bytes(
        nonce,
    )
}

/// A party's authorisation of a state: a signature of the right length that
/// the signature verifier accepted over the state's message.
pub open spec fn signature_accepted(signature: Seq<u8>, verified: bool) -> bool {
    signature.len() == SIGNATURE_BYTES && verified
}

pub(crate) fn push_bytes(out: &mut Vec<u8>, bytes: &[u8])
    ensures
        final(out)@ == old(out)@ + bytes@,
{
    let mut i: usize = 0;
    while i < bytes.len()
        invariant
            0 <= i <= bytes@.len(),
            out@ == old(out)@ + bytes@.subrange(0, i as int),
        decreases bytes@.len() - i,
    {
        out.push(bytes[i]);
        i = i + 1;
        assert(bytes@.subrange(0, i as int) =~= bytes@.subrange(0, i - 1) + seq![bytes@[i - 1]]);
    }
    assert(bytes@.subrange(0, bytes@.len() as int) =~= bytes@);
}

pub(crate) fn push_le_u64(out: &mut Vec<u8>, v: u64)
    ensures
        final(out)@ == old(out)@ + le_bytes(v),
{
    let mut k: u64 = 0;
    while k < 8
        invariant
            0 <= k <= 8,
            out@ == old(out)@ + le_bytes(v).subrange(0, k as int),
        decreases 8 - k,
    {
        out.push(((v >> (8 * k)) & 0xff) as u8);
        k = k + 1;
        assert(le_bytes(v).subrange(0, k as int) =~= le_bytes(v).subrange(0, k - 1) + seq![
            le_bytes(v)[k - 1],
        ]);
    }
    assert(le_bytes(v).subrange(0, 8) =~= le_bytes(v));
}

/// Builds the message both parties sign for a proposed channel state. The
/// channel's two keys and the nonce are part of it, so a signature given for
/// one channel or one nonce does not carry over to another.
pub fn state_message(
    party_a: &Pubkey,
    party_b: &Pubkey,
    balance_a: u64,
    balance_b: u64,
    nonce: u64,
) -> (r: Vec<u8>)
    ensures
        r@ == state_message_of(party_a@, party_b@, balance_a, balance_b, nonce),
{
    let mut out: Vec<u8> = Vec::new();
    push_bytes(&mut out, STATE_DOMAIN_TAG.as_slice());
    push_bytes(&mut out, party_a.bytes.as_slice());
    push_bytes(&mut out, party_b.bytes.as_slice());
    push_le_u64(&mut out, balance_a);
    push_le_u64(&mut out, balance_b);
    push_le_u64(&mut out, nonce);
    out
}

} // verus!
