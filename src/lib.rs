//! A two-party payment channel: the rules for opening a channel, committing
//! mutually signed balance updates, closing it cooperatively, and closing it
//! unilaterally once its timeout has elapsed.
use vstd::prelude::*;

pub mod account;
pub mod errors;
pub mod instructions;
pub mod lemmas;
pub mod message;
pub mod precompile;
pub mod pubkey;
pub mod state;
pub mod transitions;

use crate::errors::SolBoltError;
use crate::message::signature_accepted;
use crate::pubkey::Pubkey;
use crate::state::{CHANNEL_TIMEOUT_SECS, PaymentChannel};
use crate::transitions::{
    Settlement,
    close_error,
    closed,
    committed,
    force_close_error,
    open_error,
    opened,
    settlement_of,
    update_error,
};

verus! {

/// The accounts of an open: the two parties and whatever record is stored
/// at the pair's key.
#[derive(Clone, Copy, Debug, PartialEq, Eq)]
pub struct OpenChannel {
    pub channel: Option<PaymentChannel>,
    pub party_a: Pubkey,
    pub party_b: Pubkey,
    pub bump: u8,
}

/// The accounts of an update: the channel and whoever submits the state.
#[derive(Clone, Copy, Debug, PartialEq, Eq)]
pub struct UpdateChannel {
    pub channel: PaymentChannel,
    pub authority: Pubkey,
}

/// The accounts of a cooperative close: the channel and the two accounts
/// that receive the payout.
#[derive(Clone, Copy, Debug, PartialEq, Eq)]
pub struct CloseChannel {
    pub channel: PaymentChannel,
    pub party_a: Pubkey,
    pub party_b: Pubkey,
}

/// The accounts of a force close: the channel and the party that asks.
#[derive(Clone, Copy, Debug, PartialEq, Eq)]
pub struct ForceCloseChannel {
    pub channel: PaymentChannel,
    pub authority: Pubkey,
}

/// Opens a new payment channel between two parties, at time `now`.
pub fn open_channel(ctx: &mut OpenChannel, initial_deposit: u64, now: i64) -> (r: Result<(), SolBoltError>)
    requires
        now <= i64::MAX - CHANNEL_TIMEOUT_SECS,
    ensures
        r is Ok <==> open_error(old(ctx).channel, old(ctx).party_a@, old(ctx).party_b@, initial_deposit) is None,
        r matches Err(e) ==> open_error(
            old(ctx).channel,
            old(ctx).party_a@,
            old(ctx).party_b@,
            initial_deposit,
        ) == Some(e) && *final(ctx) == *old(ctx),
        r is Ok ==> final(ctx).channel == Some(
            opened(old(ctx).party_a, old(ctx).party_b, initial_deposit, now, old(ctx).bump),
        ),
        r is Ok ==> final(ctx).channel->Some_0.well_formed(),
        final(ctx).party_a == old(ctx).party_a,
        final(ctx).party_b == old(ctx).party_b,
        final(ctx).bump == old(ctx).bump,
{
    instructions::open_channel::handler(ctx, initial_deposit, now)
}

/// Updates the channel state with new balances and nonce.
pub fn update_channel(
    ctx: &mut UpdateChannel,
    balance_a: u64,
    balance_b: u64,
    nonce: u64,
    signature_a: Vec<u8>,
    signature_b: Vec<u8>,
    verified_a: bool,
    verified_b: bool,
) -> (r: Result<(), SolBoltError>)
    ensures
        r matches Err(e) ==> update_error(
            old(ctx).channel,
            balance_a,
            balance_b,
            nonce,
            signature_accepted(signature_a@, verified_a),
            signature_accepted(signature_b@, verified_b),
        ) == Some(e) && *final(ctx) == *old(ctx),
        r is Ok ==> update_error(
            old(ctx).channel,
            balance_a,
            balance_b,
            nonce,
            signature_accepted(signature_a@, verified_a),
            signature_accepted(signature_b@, verified_b),
        ) is None && final(ctx).channel == committed(old(ctx).channel, balance_a, balance_b, nonce),
        final(ctx).authority == old(ctx).authority,
        old(ctx).channel.well_formed() ==> final(ctx).channel.well_formed(),
{
    instructions::update_channel::handler(
        ctx,
        balance_a,
        balance_b,
        nonce,
        signature_a,
        signature_b,
        verified_a,
        verified_b,
    )
}

/// Closes the payment channel and settles final balances.
pub fn close_channel(
    ctx: &mut CloseChannel,
    balance_a: u64,
    balance_b: u64,
    nonce: u64,
    signature_a: Vec<u8>,
    signature_b: Vec<u8>,
    verified_a: bool,
    verified_b: bool,
) -> (r: Result<Settlement, SolBoltError>)
    ensures
        r matches Err(e) ==> close_error(
            old(ctx).channel,
            old(ctx).party_a@,
            old(ctx).party_b@,
            balance_a,
            balance_b,
            nonce,
            signature_accepted(signature_a@, verified_a),
            signature_accepted(signature_b@, verified_b),
        ) == Some(e) && *final(ctx) == *old(ctx),
        r is Ok ==> close_error(
            old(ctx).channel,
            old(ctx).party_a@,
            old(ctx).party_b@,
            balance_a,
            balance_b,
            nonce,
            signature_accepted(signature_a@, verified_a),
            signature_accepted(signature_b@, verified_b),
        ) is None && final(ctx).channel == closed(
            committed(old(ctx).channel, balance_a, balance_b, nonce),
        ),
        r matches Ok(s) ==> s == settlement_of(final(ctx).channel),
        final(ctx).party_a == old(ctx).party_a,
        final(ctx).party_b == old(ctx).party_b,
        old(ctx).channel.well_formed() ==> final(ctx).channel.well_formed(),
{
    instructions::close_channel::handler(
        ctx,
        balance_a,
        balance_b,
        nonce,
        signature_a,
        signature_b,
        verified_a,
        verified_b,
    )
}

/// Allows a party to close the channel unilaterally after timeout.
pub fn force_close_channel(ctx: &mut ForceCloseChannel, now: i64) -> (r: Result<Settlement, SolBoltError>)
    ensures
        r matches Err(e) ==> force_close_error(old(ctx).channel, old(ctx).authority@, now) == Some(e)
            && *final(ctx) == *old(ctx),
        r is Ok ==> force_close_error(old(ctx).channel, old(ctx).authority@, now) is None
            && final(ctx).channel == closed(old(ctx).channel),
        r matches Ok(s) ==> s == settlement_of(old(ctx).channel),
        final(ctx).authority == old(ctx).authority,
        old(ctx).channel.well_formed() ==> final(ctx).channel.well_formed(),
{
    instructions::force_close_channel::handler(ctx, now)
}

} // verus!
