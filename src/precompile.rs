//! Reading the runtime's Ed25519 signature-check instructions. When such an
//! instruction is part of the same transaction, the runtime has already
//! verified the signature it carries; the channel only has to confirm that
//! the instruction vouches for the expected key, message and signature.
use vstd::prelude::*;
use crate::message::SIGNATURE_BYTES;
use crate::pubkey::Pubkey;

verus! {

/// Instruction index meaning "the data is in this same instruction".
pub const SAME_INSTRUCTION: u16 = 0xffff;

/// Bytes before the first offsets record: the signature count and padding.
pub const HEADER_BYTES: usize = 2;

/// Bytes of one offsets record: seven little-endian `u16` values.
pub const OFFSETS_BYTES: usize = 14;

/// The little-endian `u16` at `off`.
pub open spec fn u16_at(d: Seq<u8>, off: int) -> int {
    d[off] as int + 256 * d[off + 1] as int
}

/// `part` lies in `d` at offset `off`.
pub open spec fn holds_at(d: Seq<u8>, off: int, part: Seq<u8>) -> bool {
    off + part.len() <= d.len() && d.subrange(off, off + part.len() as int) == part
}

/// Instruction data `d` of the Ed25519 signature-check program vouches, in
/// its one signature record, for `signature` by `pubkey` over `message`, all
/// three carried in `d` itself.
pub open spec fn ed25519_attests_spec(d: Seq<u8>, pubkey: Seq<u8>, message: Seq<u8>, signature: Seq<u8>) -> bool {
    &&& d.len() >= HEADER_BYTES + OFFSETS_BYTES
    &&& d[0] == 1
    &&& u16_at(d, 4) == SAME_INSTRUCTION
    &&& u16_at(d, 8) == SAME_INSTRUCTION
    &&& u16_at(d, 14) == SAME_INSTRUCTION
    &&& signature.len() == SIGNATURE_BYTES
    &&& holds_at(d, u16_at(d, 2), signature)
    &&& holds_at(d, u16_at(d, 6), pubkey)
    &&& u16_at(d, 12) == message.len()
    &&& holds_at(d, u16_at(d, 10), message)
}

fn read_u16(d: &[u8], off: usize) -> (r: usize)
    requires
        off + 2 <= d@.len(),
    ensures
        r == u16_at(d@, off as int),
        r < 65536,
{
    d[off] as usize + 256 * (d[off + 1] as usize)
}

fn matches_at(d: &[u8], off: usize, part: &[u8]) -> (r: bool)
    ensures
        r == holds_at(d@, off as int, part@),
{
    if off > d.len() || part.len() > d.len() - off {
        return false;
    }
    let mut i: usize = 0;
    while i < part.len()
        invariant
            0 <= i <= part@.len(),
            off + part@.len() <= d@.len() <= usize::MAX,
            forall|j: int| 0 <= j < i ==> d@[off + j] == part@[j],
        decreases part@.len() - i,
    {
        if d[off + i] != part[i] {
            assert(d@.subrange(off as int, off + part@.len() as int)[i as int] != part@[i as int]);
            return false;
        }
        i = i + 1;
    }
    assert(d@.subrange(off as int, off + part@.len() as int) =~= part@);
    true
}

/// Whether Ed25519 instruction data `data` vouches for `signature` by
/// `pubkey` over `message`.
pub fn ed25519_attests(data: &[u8], pubkey: &Pubkey, message: &[u8], signature: &[u8]) -> (r: bool)
    ensures
        r == ed25519_attests_spec(data@, pubkey@, message@, signature@),
{
    if data.len() < HEADER_BYTES + OFFSETS_BYTES || data[0] != 1 {
        return false;
    }
    if read_u16(data, 4) != SAME_INSTRUCTION as usize || read_u16(data, 8) != SAME_INSTRUCTION as usize
        || read_u16(data, 14) != SAME_INSTRUCTION as usize {
        return false;
    }
    if signature.len() != SIGNATURE_BYTES {
        return false;
    }
    let sig_off = read_u16(data, 2);
    let key_off = read_u16(data, 6);
    let msg_off = read_u16(data, 10);
    let msg_len = read_u16(data, 12);
    assert(pubkey.bytes@ == pubkey@);
    matches_at(data, sig_off, signature) && matches_at(data, key_off, pubkey.bytes.as_slice())
        && msg_len == message.len() && matches_at(data, msg_off, message)
}

} // verus!
