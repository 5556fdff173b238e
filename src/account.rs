//! Where a channel is stored and how its record is laid out in storage.
use vstd::prelude::*;
use crate::message::{le_bytes, push_bytes, push_le_u64};
use crate::pubkey::Pubkey;
use crate::state::{CHANNEL_ACCOUNT_LEN, PaymentChannel};

verus! {

/// Prefix of every channel's storage key.
pub const CHANNEL_SEED: [u8; 7] = [0x63, 0x68, 0x61, 0x6e, 0x6e, 0x65, 0x6c];

/// Record-type tag that starts every stored channel record: the first
/// eight bytes of the SHA-256 digest of `account:PaymentChannel`.
pub const CHANNEL_DISCRIMINATOR: [u8; 8] = [53, 102, 116, 128, 150, 23, 170, 138];

/// The storage key of the channel between `party_a` and `party_b`.
pub open spec fn storage_key_of(party_a: Seq<u8>, party_b: Seq<u8>) -> Seq<u8> {
    CHANNEL_SEED@ + party_a + party_b
}

/// The stored bytes of record `c`.
pub open spec fn record_bytes_of(c: PaymentChannel) -> Seq<u8> {
    CHANNEL_DISCRIMINATOR@ + c.party_a@ + c.party_b@ + le_bytes(c.balance_a) + le_bytes(c.balance_b)
        + le_bytes(c.nonce) + seq![if c.is_open { 1u8 } else { 0u8 }] + le_bytes(c.opened_at as u64)
        + le_bytes(c.timeout_at as u64) + seq![c.bump]
}

/// Bytes that hold a stored record: the right length, the record-type tag,
/// and an open flag of 0 or 1.
pub open spec fn is_record_bytes(b: Seq<u8>) -> bool {
    &&& b.len() == CHANNEL_ACCOUNT_LEN
    &&& b.subrange(0, 8) == CHANNEL_DISCRIMINATOR@
    &&& (b[96] == 0 || b[96] == 1)
}

/// Builds the storage key of the channel between `party_a` and `party_b`.
/// With the parties in canonical order, each pair has one key.
pub fn storage_key(party_a: &Pubkey, party_b: &Pubkey) -> (r: Vec<u8>)
    ensures
        r@ == storage_key_of(party_a@, party_b@),
{
    let mut out: Vec<u8> = Vec::new();
    push_bytes(&mut out, CHANNEL_SEED.as_slice());
    push_bytes(&mut out, party_a.bytes.as_slice());
    push_bytes(&mut out, party_b.bytes.as_slice());
    out
}

/// Two pairs of 32-byte keys with the same storage key are the same pair.
pub proof fn lemma_storage_key_injective(a1: Seq<u8>, b1: Seq<u8>, a2: Seq<u8>, b2: Seq<u8>)
    requires
        a1.len() == 32,
        b1.len() == 32,
        a2.len() == 32,
        b2.len() == 32,
        storage_key_of(a1, b1) == storage_key_of(a2, b2),
    ensures
        a1 == a2,
        b1 == b2,
{
    assert(a1 =~= storage_key_of(a1, b1).subrange(7, 39));
    assert(a2 =~= storage_key_of(a2, b2).subrange(7, 39));
    assert(b1 =~= storage_key_of(a1, b1).subrange(39, 71));
    assert(b2 =~= storage_key_of(a2, b2).subrange(39, 71));
}

/// Serialises record `c` in its stored layout.
pub fn to_account_bytes(c: &PaymentChannel) -> (r: Vec<u8>)
    ensures
        r@ == record_bytes_of(*c),
        is_record_bytes(r@),
{
    let mut out: Vec<u8> = Vec::new();
    push_bytes(&mut out, CHANNEL_DISCRIMINATOR.as_slice());
    push_bytes(&mut out, c.party_a.bytes.as_slice());
    push_bytes(&mut out, c.party_b.bytes.as_slice());
    push_le_u64(&mut out, c.balance_a);
    push_le_u64(&mut out, c.balance_b);
    push_le_u64(&mut out, c.nonce);
    out.push(if c.is_open { 1u8 } else { 0u8 });
    push_le_u64(&mut out, c.opened_at as u64);
    push_le_u64(&mut out, c.timeout_at as u64);
    out.push(c.bump);
    assert(out@.subrange(0, 8) =~= CHANNEL_DISCRIMINATOR@);
    out
}

/// Reads the eight little-endian bytes at `off` as an integer.
fn read_le_u64(b: &[u8], off: usize) -> (r: u64)
    requires
        off + 8 <= b@.len(),
    ensures
        le_bytes(r) == b@.subrange(off as int, off + 8),
{
    let b0 = b[off];
    let b1 = b[off + 1];
    let b2 = b[off + 2];
    let b3 = b[off + 3];
    let b4 = b[off + 4];
    let b5 = b[off + 5];
    let b6 = b[off + 6];
    let b7 = b[off + 7];
    let r: u64 = (b0 as u64) | ((b1 as u64) << 8u64) | ((b2 as u64) << 16u64) | ((b3 as u64)
        << 24u64) | ((b4 as u64) << 32u64) | ((b5 as u64) << 40u64) | ((b6 as u64) << 48u64) | ((
    b7 as u64) << 56u64);
    assert(((r >> 0u64) & 0xff) as u8 == b0 && ((r >> 8u64) & 0xff) as u8 == b1 && ((r >> 16u64)
        & 0xff) as u8 == b2 && ((r >> 24u64) & 0xff) as u8 == b3 && ((r >> 32u64) & 0xff) as u8
        == b4 && ((r >> 40u64) & 0xff) as u8 == b5 && ((r >> 48u64) & 0xff) as u8 == b6 && ((r
        >> 56u64) & 0xff) as u8 == b7) by (bit_vector)
        requires
            r == (b0 as u64) | ((b1 as u64) << 8u64) | ((b2 as u64) << 16u64) | ((b3 as u64)
                << 24u64) | ((b4 as u64) << 32u64) | ((b5 as u64) << 40u64) | ((b6 as u64)
                << 48u64) | ((b7 as u64) << 56u64),
    ;
    assert(le_bytes(r) =~= b@.subrange(off as int, off + 8));
    r
}

/// Reads a stored record back; `None` when `b` does not hold one.
pub fn from_account_bytes(b: &[u8]) -> (r: Option<PaymentChannel>)
    ensures
        r is Some <==> is_record_bytes(b@),
        r matches Some(c) ==> record_bytes_of(c) == b@,
{
    if b.len() != CHANNEL_ACCOUNT_LEN {
        return None;
    }
    let mut i: usize = 0;
    while i < 8
        invariant
            0 <= i <= 8,
            b@.len() == CHANNEL_ACCOUNT_LEN,
            forall|j: int| 0 <= j < i ==> b@[j] == CHANNEL_DISCRIMINATOR@[j],
        decreases 8 - i,
    {
        if b[i] != CHANNEL_DISCRIMINATOR[i] {
            assert(b@.subrange(0, 8)[i as int] != CHANNEL_DISCRIMINATOR@[i as int]);
            return None;
        }
        i = i + 1;
    }
    assert(b@.subrange(0, 8) =~= CHANNEL_DISCRIMINATOR@);
    let flag = b[96];
    if flag != 0 && flag != 1 {
        return None;
    }
    let mut party_a = [0u8; 32];
    let mut party_b = [0u8; 32];
    let mut k: usize = 0;
    while k < 32
        invariant
            0 <= k <= 32,
            b@.len() == CHANNEL_ACCOUNT_LEN,
            party_a@.len() == 32,
            party_b@.len() == 32,
            forall|j: int| 0 <= j < k ==> party_a@[j] == b@[8 + j],
            forall|j: int| 0 <= j < k ==> party_b@[j] == b@[40 + j],
        decreases 32 - k,
    {
        party_a[k] = b[8 + k];
        party_b[k] = b[40 + k];
        k = k + 1;
    }
    let balance_a = read_le_u64(b, 72);
    let balance_b = read_le_u64(b, 80);
    let nonce = read_le_u64(b, 88);
    let opened_raw = read_le_u64(b, 97);
    let timeout_raw = read_le_u64(b, 105);
    let opened_at = opened_raw as i64;
    let timeout_at = timeout_raw as i64;
    assert((opened_raw as i64) as u64 == opened_raw) by (bit_vector);
    assert((timeout_raw as i64) as u64 == timeout_raw) by (bit_vector);
    let c = PaymentChannel {
        party_a: Pubkey { bytes: party_a },
        party_b: Pubkey { bytes: party_b },
        balance_a,
        balance_b,
        nonce,
        is_open: flag == 1,
        opened_at,
        timeout_at,
        bump: b[113],
    };
    assert(party_a@ =~= b@.subrange(8, 40));
    assert(party_b@ =~= b@.subrange(40, 72));
    assert(record_bytes_of(c) =~= b@);
    Some(c)
}

/// Distinct integers have distinct little-endian encodings.
proof fn lemma_le_bytes_injective(v: u64, w: u64)
    requires
        le_bytes(v) == le_bytes(w),
    ensures
        v == w,
{
    assert(le_bytes(v)[0] == ((v >> 0u64) & 0xff) as u8 && le_bytes(w)[0] == ((w >> 0u64) & 0xff) as u8);
    assert(le_bytes(v)[1] == ((v >> 8u64) & 0xff) as u8 && le_bytes(w)[1] == ((w >> 8u64) & 0xff) as u8);
    assert(le_bytes(v)[2] == ((v >> 16u64) & 0xff) as u8 && le_bytes(w)[2] == ((w >> 16u64) & 0xff) as u8);
    assert(le_bytes(v)[3] == ((v >> 24u64) & 0xff) as u8 && le_bytes(w)[3] == ((w >> 24u64) & 0xff) as u8);
    assert(le_bytes(v)[4] == ((v >> 32u64) & 0xff) as u8 && le_bytes(w)[4] == ((w >> 32u64) & 0xff) as u8);
    assert(le_bytes(v)[5] == ((v >> 40u64) & 0xff) as u8 && le_bytes(w)[5] == ((w >> 40u64) & 0xff) as u8);
    assert(le_bytes(v)[6] == ((v >> 48u64) & 0xff) as u8 && le_bytes(w)[6] == ((w >> 48u64) & 0xff) as u8);
    assert(le_bytes(v)[7] == ((v >> 56u64) & 0xff) as u8 && le_bytes(w)[7] == ((w >> 56u64) & 0xff) as u8);
    assert(v == w) by (bit_vector)
        requires
            ((v >> 0u64) & 0xff) as u8 == ((w >> 0u64) & 0xff) as u8,
            ((v >> 8u64) & 0xff) as u8 == ((w >> 8u64) & 0xff) as u8,
            ((v >> 16u64) & 0xff) as u8 == ((w >> 16u64) & 0xff) as u8,
            ((v >> 24u64) & 0xff) as u8 == ((w >> 24u64) & 0xff) as u8,
            ((v >> 32u64) & 0xff) as u8 == ((w >> 32u64) & 0xff) as u8,
            ((v >> 40u64) & 0xff) as u8 == ((w >> 40u64) & 0xff) as u8,
            ((v >> 48u64) & 0xff) as u8 == ((w >> 48u64) & 0xff) as u8,
            ((v >> 56u64) & 0xff) as u8 == ((w >> 56u64) & 0xff) as u8,
    ;
}

/// The stored layout loses nothing: every record's bytes are well formed
/// stored-record bytes, and two records with the same bytes are the same
/// record, so reading back what `to_account_bytes` wrote gives the record.
pub proof fn lemma_record_bytes_round_trip(c: PaymentChannel, d: PaymentChannel)
    ensures
        is_record_bytes(record_bytes_of(c)),
        record_bytes_of(c) == record_bytes_of(d) ==> c == d,
{
    let bc = record_bytes_of(c);
    let bd = record_bytes_of(d);
    assert(bc.subrange(0, 8) =~= CHANNEL_DISCRIMINATOR@);
    if bc == bd {
        assert(c.party_a@ =~= bc.subrange(8, 40));
        assert(d.party_a@ =~= bd.subrange(8, 40));
        assert(c.party_b@ =~= bc.subrange(40, 72));
        assert(d.party_b@ =~= bd.subrange(40, 72));
        assert(c.party_a.bytes =~= d.party_a.bytes);
        assert(c.party_b.bytes =~= d.party_b.bytes);
        assert(le_bytes(c.balance_a) =~= bc.subrange(72, 80));
        assert(le_bytes(d.balance_a) =~= bd.subrange(72, 80));
        assert(le_bytes(c.balance_b) =~= bc.subrange(80, 88));
        assert(le_bytes(d.balance_b) =~= bd.subrange(80, 88));
        assert(le_bytes(c.nonce) =~= bc.subrange(88, 96));
        assert(le_bytes(d.nonce) =~= bd.subrange(88, 96));
        assert(bc[96] == bd[96]);
        assert(le_bytes(c.opened_at as u64) =~= bc.subrange(97, 105));
        assert(le_bytes(d.opened_at as u64) =~= bd.subrange(97, 105));
        assert(le_bytes(c.timeout_at as u64) =~= bc.subrange(105, 113));
        assert(le_bytes(d.timeout_at as u64) =~= bd.subrange(105, 113));
        assert(bc[113] == bd[113]);
        lemma_le_bytes_injective(c.balance_a, d.balance_a);
        lemma_le_bytes_injective(c.balance_b, d.balance_b);
        lemma_le_bytes_injective(c.nonce, d.nonce);
        lemma_le_bytes_injective(c.opened_at as u64, d.opened_at as u64);
        lemma_le_bytes_injective(c.timeout_at as u64, d.timeout_at as u64);
        let (x, y) = (c.opened_at, d.opened_at);
        assert(x as u64 == y as u64 ==> x == y) by (bit_vector);
        let (x, y) = (c.timeout_at, d.timeout_at);
        assert(x as u64 == y as u64 ==> x == y) by (bit_vector);
    }
}

} // verus!
