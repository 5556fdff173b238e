use solbolt::account::{from_account_bytes, storage_key, to_account_bytes, CHANNEL_DISCRIMINATOR};
use solbolt::errors::SolBoltError;
use solbolt::message::state_message;
use solbolt::precompile::ed25519_attests;
use solbolt::pubkey::Pubkey;
use solbolt::state::{PaymentChannel, CHANNEL_ACCOUNT_LEN, CHANNEL_TIMEOUT_SECS};
use solbolt::transitions::Settlement;
use solbolt::{
    close_channel, force_close_channel, open_channel, update_channel, CloseChannel,
    ForceCloseChannel, OpenChannel, UpdateChannel,
};

const NOW: i64 = 1_700_000_000;

fn key(first: u8) -> Pubkey {
    let mut bytes = [7u8; 32];
    bytes[0] = first;
    Pubkey::new(bytes)
}

fn sig() -> Vec<u8> {
    vec![1u8; 64]
}

fn open(deposit: u64) -> PaymentChannel {
    let mut ctx = OpenChannel { channel: None, party_a: key(1), party_b: key(2), bump: 254 };
    assert_eq!(open_channel(&mut ctx, deposit, NOW), Ok(()));
    ctx.channel.unwrap()
}

fn update(
    channel: PaymentChannel,
    a: u64,
    b: u64,
    nonce: u64,
) -> (Result<(), SolBoltError>, PaymentChannel) {
    let mut ctx = UpdateChannel { channel, authority: key(1) };
    let r = update_channel(&mut ctx, a, b, nonce, sig(), sig(), true, true);
    (r, ctx.channel)
}

fn close(
    channel: PaymentChannel,
    a: u64,
    b: u64,
    nonce: u64,
) -> (Result<Settlement, SolBoltError>, PaymentChannel) {
    let mut ctx = CloseChannel { channel, party_a: key(1), party_b: key(2) };
    let r = close_channel(&mut ctx, a, b, nonce, sig(), sig(), true, true);
    (r, ctx.channel)
}

fn force(
    channel: PaymentChannel,
    who: Pubkey,
    now: i64,
) -> (Result<Settlement, SolBoltError>, PaymentChannel) {
    let mut ctx = ForceCloseChannel { channel, authority: who };
    let r = force_close_channel(&mut ctx, now);
    (r, ctx.channel)
}

fn same(x: &PaymentChannel, y: &PaymentChannel) -> bool {
    x.party_a.to_bytes() == y.party_a.to_bytes()
        && x.party_b.to_bytes() == y.party_b.to_bytes()
        && x.balance_a == y.balance_a
        && x.balance_b == y.balance_b
        && x.nonce == y.nonce
        && x.is_open == y.is_open
        && x.opened_at == y.opened_at
        && x.timeout_at == y.timeout_at
        && x.bump == y.bump
}

#[test]
fn test_open_channel() {
    let c = open(1000);
    assert_eq!(c.party_a.to_bytes(), key(1).to_bytes());
    assert_eq!(c.party_b.to_bytes(), key(2).to_bytes());
    assert_eq!(c.balance_a, 1000);
    assert_eq!(c.balance_b, 0);
    assert_eq!(c.nonce, 0);
    assert!(c.is_open);
    assert_eq!(c.opened_at, NOW);
    assert_eq!(c.timeout_at, NOW + 24 * 60 * 60);
    assert_eq!(c.bump, 254);
}

#[test]
fn test_update_channel() {
    let c = open(1000);
    let (r, c) = update(c, 700, 300, 1);
    assert_eq!(r, Ok(()));
    assert_eq!((c.balance_a, c.balance_b, c.nonce, c.is_open), (700, 300, 1, true));
    let (r, c2) = update(c, 700, 300, 1);
    assert_eq!(r, Err(SolBoltError::InvalidNonce));
    assert!(same(&c, &c2));
    let (r, c3) = update(c, 800, 300, 2);
    assert_eq!(r, Err(SolBoltError::InvalidBalance));
    assert!(same(&c, &c3));
}

#[test]
fn test_close_channel() {
    let c = open(1000);
    let (r, c) = close(c, 250, 750, 5);
    let s = r.unwrap();
    assert_eq!((s.amount_a, s.amount_b), (250, 750));
    assert_eq!(s.party_a.to_bytes(), key(1).to_bytes());
    assert_eq!(s.party_b.to_bytes(), key(2).to_bytes());
    assert!(!c.is_open);
    assert_eq!((c.balance_a, c.balance_b, c.nonce), (250, 750, 5));
}

#[test]
fn test_force_close_channel() {
    let c = open(1000);
    let (_, c) = update(c, 700, 300, 1);
    let (r, c2) = force(c, key(1), c.timeout_at - 1);
    assert_eq!(r, Err(SolBoltError::TimeoutNotElapsed));
    assert!(same(&c, &c2));
    let (r, c) = force(c, key(1), c.timeout_at);
    let s = r.unwrap();
    assert_eq!((s.amount_a, s.amount_b), (700, 300));
    assert!(!c.is_open);
    assert_eq!((c.balance_a, c.balance_b, c.nonce), (700, 300, 1));
    let (r, _) = close(c, 700, 300, 2);
    assert_eq!(r, Err(SolBoltError::ChannelAlreadyClosed));
}

#[test]
fn open_rejects_zero_deposit() {
    let mut ctx = OpenChannel { channel: None, party_a: key(1), party_b: key(2), bump: 1 };
    assert_eq!(open_channel(&mut ctx, 0, NOW), Err(SolBoltError::InvalidDepositAmount));
    assert!(ctx.channel.is_none());
}

#[test]
fn open_rejects_parties_out_of_order() {
    let mut ctx = OpenChannel { channel: None, party_a: key(2), party_b: key(1), bump: 1 };
    assert_eq!(open_channel(&mut ctx, 10, NOW), Err(SolBoltError::InvalidPartyOrder));
    let mut ctx = OpenChannel { channel: None, party_a: key(1), party_b: key(1), bump: 1 };
    assert_eq!(open_channel(&mut ctx, 10, NOW), Err(SolBoltError::InvalidPartyOrder));
    assert!(ctx.channel.is_none());
}

#[test]
fn open_orders_keys_by_first_differing_byte() {
    let mut low = [9u8; 32];
    let mut high = [9u8; 32];
    low[31] = 1;
    high[31] = 2;
    let mut early = [255u8; 32];
    early[0] = 8;
    assert!(Pubkey::new(early).less_than(&Pubkey::new(low)));
    assert!(Pubkey::new(low).less_than(&Pubkey::new(high)));
    assert!(!Pubkey::new(high).less_than(&Pubkey::new(low)));
    let mut ctx =
        OpenChannel { channel: None, party_a: Pubkey::new(low), party_b: Pubkey::new(high), bump: 1 };
    assert_eq!(open_channel(&mut ctx, 10, NOW), Ok(()));
}

#[test]
fn open_rejects_existing_open_record() {
    let existing = open(50);
    let mut ctx = OpenChannel { channel: Some(existing), party_a: key(1), party_b: key(2), bump: 1 };
    assert_eq!(open_channel(&mut ctx, 10, NOW), Err(SolBoltError::ChannelAlreadyExists));
    assert_eq!(ctx.channel.unwrap().balance_a, 50);
}

#[test]
fn open_replaces_closed_record() {
    let (_, old) = close(open(50), 10, 40, 1);
    let mut ctx = OpenChannel { channel: Some(old), party_a: key(1), party_b: key(2), bump: 3 };
    assert_eq!(open_channel(&mut ctx, 10, NOW + 5), Ok(()));
    let c = ctx.channel.unwrap();
    assert!(c.is_open);
    assert_eq!((c.balance_a, c.balance_b, c.nonce, c.opened_at), (10, 0, 0, NOW + 5));
}

#[test]
fn open_with_largest_deposit() {
    let c = open(u64::MAX);
    assert_eq!(c.total_balance(), u64::MAX);
    let (r, c) = update(c, 1, u64::MAX - 1, 1);
    assert_eq!(r, Ok(()));
    assert_eq!(c.total_balance(), u64::MAX);
    let (r, _) = update(c, u64::MAX, u64::MAX, 2);
    assert_eq!(r, Err(SolBoltError::InvalidBalance));
}

#[test]
fn update_rejects_closed_channel() {
    let (_, c) = close(open(100), 50, 50, 1);
    let (r, _) = update(c, 50, 50, 2);
    assert_eq!(r, Err(SolBoltError::ChannelNotOpen));
}

#[test]
fn update_rejects_bad_signatures() {
    let c = open(100);
    let mut ctx = UpdateChannel { channel: c, authority: key(1) };
    assert_eq!(
        update_channel(&mut ctx, 60, 40, 1, sig(), sig(), true, false),
        Err(SolBoltError::InvalidSignature)
    );
    assert_eq!(
        update_channel(&mut ctx, 60, 40, 1, vec![1u8; 63], sig(), true, true),
        Err(SolBoltError::InvalidSignature)
    );
    assert_eq!(ctx.channel.nonce, 0);
    assert_eq!(update_channel(&mut ctx, 60, 40, 1, sig(), sig(), true, true), Ok(()));
}

#[test]
fn stale_nonce_rejected_before_signatures() {
    let (_, c) = update(open(100), 60, 40, 3);
    let mut ctx = UpdateChannel { channel: c, authority: key(2) };
    assert_eq!(
        update_channel(&mut ctx, 60, 40, 2, vec![], vec![], false, false),
        Err(SolBoltError::InvalidNonce)
    );
    let mut ctx = CloseChannel { channel: c, party_a: key(1), party_b: key(2) };
    assert_eq!(
        close_channel(&mut ctx, 60, 40, 3, sig(), sig(), true, true),
        Err(SolBoltError::InvalidNonce)
    );
}

#[test]
fn wrong_total_rejected_with_valid_signatures() {
    let c = open(100);
    let (r, _) = update(c, 60, 39, 1);
    assert_eq!(r, Err(SolBoltError::InvalidBalance));
    let (r, c2) = close(c, 0, 101, 1);
    assert_eq!(r, Err(SolBoltError::InvalidBalance));
    assert!(c2.is_open);
}

#[test]
fn nonce_increases_over_updates() {
    let mut c = open(100);
    let mut last = c.nonce;
    for (i, n) in [1u64, 2, 5, 9, 100].iter().enumerate() {
        let (r, next) = update(c, 100 - i as u64, i as u64, *n);
        assert_eq!(r, Ok(()));
        assert!(next.nonce > last);
        assert_eq!(next.balance_a + next.balance_b, 100);
        last = next.nonce;
        c = next;
    }
}

#[test]
fn close_rejects_wrong_payees() {
    let c = open(100);
    let mut ctx = CloseChannel { channel: c, party_a: key(1), party_b: key(3) };
    assert_eq!(
        close_channel(&mut ctx, 50, 50, 1, sig(), sig(), true, true),
        Err(SolBoltError::Unauthorized)
    );
    assert!(ctx.channel.is_open);
}

#[test]
fn force_close_rejects_outsider() {
    let c = open(100);
    let (r, c2) = force(c, key(3), c.timeout_at + 1000);
    assert_eq!(r, Err(SolBoltError::NotParticipant));
    assert!(c2.is_open);
}

#[test]
fn force_close_by_party_b_after_timeout() {
    let (_, c) = update(open(100), 10, 90, 1);
    let (r, c) = force(c, key(2), c.timeout_at + 1);
    let s = r.unwrap();
    assert_eq!((s.amount_a, s.amount_b), (10, 90));
    assert!(!c.is_open);
}

#[test]
fn closed_channel_rejects_everything() {
    let (_, c) = force(open(100), key(1), NOW + CHANNEL_TIMEOUT_SECS);
    assert!(!c.is_open());
    assert_eq!(update(c, 50, 50, 1).0, Err(SolBoltError::ChannelNotOpen));
    assert_eq!(close(c, 50, 50, 1).0, Err(SolBoltError::ChannelAlreadyClosed));
    assert_eq!(force(c, key(1), NOW + 2 * CHANNEL_TIMEOUT_SECS).0, Err(SolBoltError::ChannelNotOpen));
}

#[test]
fn record_helpers() {
    let c = open(100);
    assert!(c.is_open());
    assert!(!c.has_timed_out(NOW));
    assert!(c.has_timed_out(NOW + CHANNEL_TIMEOUT_SECS));
    assert_eq!(c.total_balance(), 100);
    assert!(c.is_participant(&key(1)));
    assert!(c.is_participant(&key(2)));
    assert!(!c.is_participant(&key(3)));
    assert_eq!(c.get_other_party(&key(1)).unwrap().to_bytes(), key(2).to_bytes());
    assert_eq!(c.get_other_party(&key(2)).unwrap().to_bytes(), key(1).to_bytes());
    assert!(c.get_other_party(&key(3)).is_none());
    assert_eq!(CHANNEL_ACCOUNT_LEN, 114);
}

#[test]
fn state_message_layout() {
    let m = state_message(&key(1), &key(2), 0x0102, 3, 0x0a0b0c0d0e0f1011);
    assert_eq!(m.len(), 8 + 32 + 32 + 24);
    assert_eq!(&m[0..8], b"solbolt1");
    assert_eq!(m[8], 1);
    assert_eq!(m[40], 2);
    assert_eq!(&m[72..80], &[2, 1, 0, 0, 0, 0, 0, 0]);
    assert_eq!(&m[80..88], &[3, 0, 0, 0, 0, 0, 0, 0]);
    assert_eq!(&m[88..96], &[0x11, 0x10, 0x0f, 0x0e, 0x0d, 0x0c, 0x0b, 0x0a]);
    let other = state_message(&key(1), &key(2), 0x0102, 3, 0x0a0b0c0d0e0f1012);
    assert_ne!(m, other);
}

#[test]
fn storage_key_layout() {
    let k = storage_key(&key(1), &key(2));
    assert_eq!(k.len(), 7 + 32 + 32);
    assert_eq!(&k[0..7], b"channel");
    assert_eq!(&k[7..39], &key(1).to_bytes());
    assert_eq!(&k[39..71], &key(2).to_bytes());
    assert_ne!(k, storage_key(&key(2), &key(1)));
}

#[test]
fn account_bytes_round_trip() {
    let (_, c) = update(open(1000), 700, 300, 1);
    let bytes = to_account_bytes(&c);
    assert_eq!(bytes.len(), CHANNEL_ACCOUNT_LEN);
    assert_eq!(&bytes[0..8], &CHANNEL_DISCRIMINATOR);
    assert_eq!(&bytes[72..80], &700u64.to_le_bytes());
    assert_eq!(&bytes[80..88], &300u64.to_le_bytes());
    assert_eq!(&bytes[88..96], &1u64.to_le_bytes());
    assert_eq!(bytes[96], 1);
    assert_eq!(&bytes[97..105], &NOW.to_le_bytes());
    assert_eq!(&bytes[105..113], &(NOW + CHANNEL_TIMEOUT_SECS).to_le_bytes());
    assert_eq!(bytes[113], 254);
    assert_eq!(from_account_bytes(&bytes), Some(c));
    let mut negative = c;
    negative.opened_at = -5;
    negative.is_open = false;
    assert_eq!(from_account_bytes(&to_account_bytes(&negative)), Some(negative));
}

#[test]
fn account_bytes_rejected() {
    let c = open(10);
    let bytes = to_account_bytes(&c);
    assert_eq!(from_account_bytes(&bytes[..113]), None);
    let mut bad_tag = bytes.clone();
    bad_tag[3] ^= 1;
    assert_eq!(from_account_bytes(&bad_tag), None);
    let mut bad_flag = bytes.clone();
    bad_flag[96] = 2;
    assert_eq!(from_account_bytes(&bad_flag), None);
}

fn precompile_data(key: &Pubkey, message: &[u8], signature: &[u8]) -> Vec<u8> {
    let sig_off: u16 = 16;
    let key_off: u16 = sig_off + 64;
    let msg_off: u16 = key_off + 32;
    let mut d = vec![1u8, 0];
    for v in [sig_off, 0xffff, key_off, 0xffff, msg_off, message.len() as u16, 0xffff] {
        d.extend_from_slice(&v.to_le_bytes());
    }
    d.extend_from_slice(signature);
    d.extend_from_slice(&key.to_bytes());
    d.extend_from_slice(message);
    d
}

#[test]
fn ed25519_attestation_matches() {
    let msg = state_message(&key(1), &key(2), 60, 40, 1);
    let s = vec![5u8; 64];
    let d = precompile_data(&key(1), &msg, &s);
    assert!(ed25519_attests(&d, &key(1), &msg, &s));
    assert!(!ed25519_attests(&d, &key(2), &msg, &s));
    let other = state_message(&key(1), &key(2), 60, 40, 2);
    assert!(!ed25519_attests(&d, &key(1), &other, &s));
    assert!(!ed25519_attests(&d, &key(1), &msg, &vec![6u8; 64]));
    assert!(!ed25519_attests(&d[..d.len() - 1], &key(1), &msg, &s));
    let mut elsewhere = d.clone();
    elsewhere[4] = 0;
    elsewhere[5] = 0;
    assert!(!ed25519_attests(&elsewhere, &key(1), &msg, &s));
    let mut two = d.clone();
    two[0] = 2;
    assert!(!ed25519_attests(&two, &key(1), &msg, &s));
}
