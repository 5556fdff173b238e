//! Committing a mutually signed state while the channel stays open.
use vstd::prelude::*;
use crate::errors::SolBoltError;
use crate::message::signature_accepted;
use crate::transitions::{check_proposal, committed, update_error};
use crate::UpdateChannel;

verus! {

/// Commits the state `(balance_a, balance_b, nonce)` to `ctx.channel`.
/// `verified_a` and `verified_b` are the signature verifier's verdicts on
/// `signature_a` under party A's key and `signature_b` under party B's key,
/// both over the state's message.
pub fn handler(
    ctx: &mut UpdateChannel,
    balance_a: u64,
    balance_b: u64,
    nonce: u64,
    signature_a: Vec<u8>,
    signature_b: Vec<u8>,
    verified_a: bool,
    verified_b: bool,
) -> (r: Result<(), SolBoltError>)
    ensures
        r matches Err(e) ==> update_error(
            old(ctx).channel,
            balance_a,
            balance_b,
            nonce,
            signature_accepted(signature_a@, verified_a),
            signature_accepted(signature_b@, verified_b),
        ) == Some(e) && *final(ctx) == *old(ctx),
        r is Ok ==> update_error(
            old(ctx).channel,
            balance_a,
            balance_b,
            nonce,
            signature_accepted(signature_a@, verified_a),
            signature_accepted(signature_b@, verified_b),
        ) is None && final(ctx).channel == committed(old(ctx).channel, balance_a, balance_b, nonce),
        final(ctx).authority == old(ctx).authority,
        old(ctx).channel.well_formed() ==> final(ctx).channel.well_formed(),
{
    if !ctx.channel.is_open {
        return Err(SolBoltError::ChannelNotOpen);
    }
    match check_proposal(
        &ctx.channel,
        balance_a,
        balance_b,
        nonce,
        &signature_a,
        &signature_b,
        verified_a,
        verified_b,
    ) {
        Err(e) => Err(e),
        Ok(()) => {
            ctx.channel.balance_a = balance_a;
            ctx.channel.balance_b = balance_b;
            ctx.channel.nonce = nonce;
            Ok(())
        },
    }
}

} // verus!
