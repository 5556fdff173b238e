//! The channel state machine: which operations a record accepts, the record
//! each accepted operation leaves behind, and the laws that follow.
use vstd::prelude::*;
use crate::errors::SolBoltError;
use crate::message::signature_accepted;
use crate::pubkey::{Pubkey, key_lt};
use crate::state::{CHANNEL_TIMEOUT_SECS, PaymentChannel};

verus! {

/// What a closed channel pays out: each party's last committed balance.
#[derive(Clone, Copy, Debug, PartialEq, Eq)]
pub struct Settlement {
    pub party_a: Pubkey,
    pub amount_a: u64,
    pub party_b: Pubkey,
    pub amount_b: u64,
}

/// The payout of channel `c`.
pub open spec fn settlement_of(c: PaymentChannel) -> Settlement {
    Settlement { party_a: c.party_a, amount_a: c.balance_a, party_b: c.party_b, amount_b: c.balance_b }
}

/// Why opening a channel between `party_a` and `party_b` with `deposit`, with
/// `existing` stored at the pair's key, is refused; `None` when it is accepted.
pub open spec fn open_error(
    existing: Option<PaymentChannel>,
    party_a: Seq<u8>,
    party_b: Seq<u8>,
    deposit: u64,
) -> Option<SolBoltError> {
    if deposit == 0 {
        Some(SolBoltError::InvalidDepositAmount)
    } else if !key_lt(party_a, party_b) {
        Some(SolBoltError::InvalidPartyOrder)
    } else if existing is Some && existing->Some_0.is_open {
        Some(SolBoltError::ChannelAlreadyExists)
    } else {
        None
    }
}

/// The record that opening a channel creates.
pub open spec fn opened(
    party_a: Pubkey,
    party_b: Pubkey,
    deposit: u64,
    now: i64,
    bump: u8,
) -> PaymentChannel {
    PaymentChannel {
        party_a,
        party_b,
        balance_a: deposit,
        balance_b: 0,
        nonce: 0,
        is_open: true,
        opened_at: now,
        timeout_at: (now + CHANNEL_TIMEOUT_SECS) as i64,
        bump,
    }
}

/// Why an open channel `c` refuses the proposed state; `None` when it is
/// accepted. The nonce is checked first, then the balances, then the two
/// signatures (`sig_a_ok`, `sig_b_ok`).
pub open spec fn proposal_error(
    c: PaymentChannel,
    balance_a: u64,
    balance_b: u64,
    nonce: u64,
    sig_a_ok: bool,
    sig_b_ok: bool,
) -> Option<SolBoltError> {
    if nonce <= c.nonce {
        Some(SolBoltError::InvalidNonce)
    } else if balance_a as int + balance_b as int != c.total() {
        Some(SolBoltError::InvalidBalance)
    } else if !(sig_a_ok && sig_b_ok) {
        Some(SolBoltError::InvalidSignature)
    } else {
        None
    }
}

/// Why channel `c` refuses an update to the proposed state.
pub open spec fn update_error(
    c: PaymentChannel,
    balance_a: u64,
    balance_b: u64,
    nonce: u64,
    sig_a_ok: bool,
    sig_b_ok: bool,
) -> Option<SolBoltError> {
    if !c.is_open {
        Some(SolBoltError::ChannelNotOpen)
    } else {
        proposal_error(c, balance_a, balance_b, nonce, sig_a_ok, sig_b_ok)
    }
}

/// Why channel `c` refuses a cooperative close at the proposed state, with
/// `payee_a` and `payee_b` named as the accounts to pay.
pub open spec fn close_error(
    c: PaymentChannel,
    payee_a: Seq<u8>,
    payee_b: Seq<u8>,
    balance_a: u64,
    balance_b: u64,
    nonce: u64,
    sig_a_ok: bool,
    sig_b_ok: bool,
) -> Option<SolBoltError> {
    if !c.is_open {
        Some(SolBoltError::ChannelAlreadyClosed)
    } else if !(payee_a == c.party_a@ && payee_b == c.party_b@) {
        Some(SolBoltError::Unauthorized)
    } else {
        proposal_error(c, balance_a, balance_b, nonce, sig_a_ok, sig_b_ok)
    }
}

/// Why channel `c` refuses a force close by `initiator` at time `now`.
pub open spec fn force_close_error(c: PaymentChannel, initiator: Seq<u8>, now: i64) -> Option<
    SolBoltError,
> {
    if !c.is_open {
        Some(SolBoltError::ChannelNotOpen)
    } else if !c.participant(initiator) {
        Some(SolBoltError::NotParticipant)
    } else if now < c.timeout_at {
        Some(SolBoltError::TimeoutNotElapsed)
    } else {
        None
    }
}

/// Channel `c` with the state `(balance_a, balance_b, nonce)` committed.
pub open spec fn committed(c: PaymentChannel, balance_a: u64, balance_b: u64, nonce: u64) -> PaymentChannel {
    PaymentChannel { balance_a, balance_b, nonce, ..c }
}

/// Channel `c`, closed.
pub open spec fn closed(c: PaymentChannel) -> PaymentChannel {
    PaymentChannel { is_open: false, ..c }
}

/// Checks a proposed state against an open channel, in the order that
/// `proposal_error` gives.
pub fn check_proposal(
    c: &PaymentChannel,
    balance_a: u64,
    balance_b: u64,
    nonce: u64,
    signature_a: &Vec<u8>,
    signature_b: &Vec<u8>,
    verified_a: bool,
    verified_b: bool,
) -> (r: Result<(), SolBoltError>)
    ensures
        r matches Err(e) ==> proposal_error(
            *c,
            balance_a,
            balance_b,
            nonce,
            signature_accepted(signature_a@, verified_a),
            signature_accepted(signature_b@, verified_b),
        ) == Some(e),
        r is Ok ==> proposal_error(
            *c,
            balance_a,
            balance_b,
            nonce,
            signature_accepted(signature_a@, verified_a),
            signature_accepted(signature_b@, verified_b),
        ) is None,
{
    if nonce <= c.nonce {
        return Err(SolBoltError::InvalidNonce);
    }
    if (balance_a as u128) + (balance_b as u128) != (c.balance_a as u128) + (c.balance_b as u128) {
        return Err(SolBoltError::InvalidBalance);
    }
    let sig_a_ok = signature_a.len() == crate::message::SIGNATURE_BYTES && verified_a;
    let sig_b_ok = signature_b.len() == crate::message::SIGNATURE_BYTES && verified_b;
    if !(sig_a_ok && sig_b_ok) {
        return Err(SolBoltError::InvalidSignature);
    }
    Ok(())
}

} // verus!
