//! The ways an operation on a channel can be rejected.
use vstd::prelude::*;

verus! {

/// Each variant is a terminal rejection of the one operation that raised it;
/// a rejected operation changes nothing.
#[derive(Clone, Copy, Debug, PartialEq, Eq, Structural)]
pub enum SolBoltError {
    ChannelNotOpen,
    ChannelAlreadyClosed,
    InvalidNonce,
    InvalidSignature,
    NotParticipant,
    ChannelNotTimedOut,
    InvalidBalance,
    InsufficientBalance,
    TimeoutNotElapsed,
    InvalidChannelState,
    Unauthorized,
    InvalidPartyOrder,
    ChannelAlreadyExists,
    InvalidDepositAmount,
}

} // verus!
