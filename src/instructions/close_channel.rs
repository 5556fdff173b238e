//! Closing a channel at a state both parties signed.
use vstd::prelude::*;
use crate::errors::SolBoltError;
use crate::message::signature_accepted;
use crate::transitions::{Settlement, check_proposal, close_error, closed, committed, settlement_of};
use crate::CloseChannel;

verus! {

/// Commits the final state `(balance_a, balance_b, nonce)`, closes
/// `ctx.channel` and returns the payout to the two parties. The verdicts
/// `verified_a` and `verified_b` are as for an update.
pub fn handler(
    ctx: &mut CloseChannel,
    balance_a: u64,
    balance_b: u64,
    nonce: u64,
    signature_a: Vec<u8>,
    signature_b: Vec<u8>,
    verified_a: bool,
    verified_b: bool,
) -> (r: Result<Settlement, SolBoltError>)
    ensures
        r matches Err(e) ==> close_error(
            old(ctx).channel,
            old(ctx).party_a@,
            old(ctx).party_b@,
            balance_a,
            balance_b,
            nonce,
            signature_accepted(signature_a@, verified_a),
            signature_accepted(signature_b@, verified_b),
        ) == Some(e) && *final(ctx) == *old(ctx),
        r is Ok ==> close_error(
            old(ctx).channel,
            old(ctx).party_a@,
            old(ctx).party_b@,
            balance_a,
            balance_b,
            nonce,
            signature_accepted(signature_a@, verified_a),
            signature_accepted(signature_b@, verified_b),
        ) is None && final(ctx).channel == closed(
            committed(old(ctx).channel, balance_a, balance_b, nonce),
        ),
        r matches Ok(s) ==> s == settlement_of(final(ctx).channel),
        final(ctx).party_a == old(ctx).party_a,
        final(ctx).party_b == old(ctx).party_b,
        old(ctx).channel.well_formed() ==> final(ctx).channel.well_formed(),
{
    if !ctx.channel.is_open {
        return Err(SolBoltError::ChannelAlreadyClosed);
    }
    if !(ctx.party_a.same_as(&ctx.channel.party_a) && ctx.party_b.same_as(&ctx.channel.party_b)) {
        return Err(SolBoltError::Unauthorized);
    }
    match check_proposal(
        &ctx.channel,
        balance_a,
        balance_b,
        nonce,
        &signature_a,
        &signature_b,
        verified_a,
        verified_b,
    ) {
        Err(e) => Err(e),
        Ok(()) => {
            ctx.channel.is_open = false;
            ctx.channel.balance_a = balance_a;
            ctx.channel.balance_b = balance_b;
            ctx.channel.nonce = nonce;
            Ok(
                Settlement {
                    party_a: ctx.channel.party_a,
                    amount_a: balance_a,
                    party_b: ctx.channel.party_b,
                    amount_b: balance_b,
                },
            )
        },
    }
}

} // verus!
