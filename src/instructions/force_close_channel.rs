//! Closing a channel unilaterally once its timeout has elapsed.
use vstd::prelude::*;
use crate::errors::SolBoltError;
use crate::transitions::{Settlement, closed, force_close_error, settlement_of};
use crate::ForceCloseChannel;

verus! {

/// Closes `ctx.channel` on behalf of `ctx.authority` at time `now`, paying
/// out the last committed balances.
pub fn handler(ctx: &mut ForceCloseChannel, now: i64) -> (r: Result<Settlement, SolBoltError>)
    ensures
        r matches Err(e) ==> force_close_error(old(ctx).channel, old(ctx).authority@, now) == Some(e)
            && *final(ctx) == *old(ctx),
        r is Ok ==> force_close_error(old(ctx).channel, old(ctx).authority@, now) is None
            && final(ctx).channel == closed(old(ctx).channel),
        r matches Ok(s) ==> s == settlement_of(old(ctx).channel),
        final(ctx).authority == old(ctx).authority,
        old(ctx).channel.well_formed() ==> final(ctx).channel.well_formed(),
{
    if !ctx.channel.is_open {
        return Err(SolBoltError::ChannelNotOpen);
    }
    if !ctx.channel.is_participant(&ctx.authority) {
        return Err(SolBoltError::NotParticipant);
    }
    if !ctx.channel.has_timed_out(now) {
        return Err(SolBoltError::TimeoutNotElapsed);
    }
    ctx.channel.is_open = false;
    Ok(
        Settlement {
            party_a: ctx.channel.party_a,
            amount_a: ctx.channel.balance_a,
            party_b: ctx.channel.party_b,
            amount_b: ctx.channel.balance_b,
        },
    )
}

} // verus!
