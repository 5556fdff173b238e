//! Opening a channel.
use vstd::prelude::*;
use crate::errors::SolBoltError;
use crate::state::{CHANNEL_TIMEOUT_SECS, PaymentChannel};
use crate::transitions::{open_error, opened};
use crate::OpenChannel;

verus! {

/// Creates the channel between `ctx.party_a` and `ctx.party_b`, funded with
/// `initial_deposit` held by party A, at time `now`.
pub fn handler(ctx: &mut OpenChannel, initial_deposit: u64, now: i64) -> (r: Result<(), SolBoltError>)
    requires
        now <= i64::MAX - CHANNEL_TIMEOUT_SECS,
    ensures
        r is Ok <==> open_error(old(ctx).channel, old(ctx).party_a@, old(ctx).party_b@, initial_deposit) is None,
        r matches Err(e) ==> open_error(
            old(ctx).channel,
            old(ctx).party_a@,
            old(ctx).party_b@,
            initial_deposit,
        ) == Some(e) && *final(ctx) == *old(ctx),
        r is Ok ==> final(ctx).channel == Some(
            opened(old(ctx).party_a, old(ctx).party_b, initial_deposit, now, old(ctx).bump),
        ),
        r is Ok ==> final(ctx).channel->Some_0.well_formed(),
        final(ctx).party_a == old(ctx).party_a,
        final(ctx).party_b == old(ctx).party_b,
        final(ctx).bump == old(ctx).bump,
{
    if initial_deposit == 0 {
        return Err(SolBoltError::InvalidDepositAmount);
    }
    if !ctx.party_a.less_than(&ctx.party_b) {
        return Err(SolBoltError::InvalidPartyOrder);
    }
    match &ctx.channel {
        Some(existing) => {
            if existing.is_open {
                return Err(SolBoltError::ChannelAlreadyExists);
            }
        },
        None => {},
    }
    ctx.channel = Some(
        PaymentChannel {
            party_a: ctx.party_a,
            party_b: ctx.party_b,
            balance_a: initial_deposit,
            balance_b: 0,
            nonce: 0,
            is_open: true,
            opened_at: now,
            timeout_at: now + CHANNEL_TIMEOUT_SECS,
            bump: ctx.bump,
        },
    );
    Ok(())
}

} // verus!
