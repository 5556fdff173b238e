//! The channel record and its invariants.
use vstd::prelude::*;
use crate::pubkey::{Pubkey, key_lt};

verus! {

/// Seconds between opening a channel and the moment either party may force it closed.
pub const CHANNEL_TIMEOUT_SECS: i64 = 86400;

/// Bytes of a stored record: an 8-byte record-type tag, two 32-byte keys,
/// three 8-byte amounts, the open flag, two 8-byte timestamps and the
/// address-derivation tag.
pub const CHANNEL_ACCOUNT_LEN: usize = 8 + 32 + 32 + 8 + 8 + 8 + 1 + 8 + 8 + 1;

/// One payment channel between two parties.
#[derive(Clone, Copy, Debug, PartialEq, Eq)]
pub struct PaymentChannel {
    /// The party whose key sorts first.
    pub party_a: Pubkey,
    /// The party whose key sorts second.
    pub party_b: Pubkey,
    /// Party A's share of the deposit in the last committed state.
    pub balance_a: u64,
    /// Party B's share of the deposit in the last committed state.
    pub balance_b: u64,
    /// Sequence number of the last committed state.
    pub nonce: u64,
    /// Whether the channel still accepts operations.
    pub is_open: bool,
    /// When the channel was opened.
    pub opened_at: i64,
    /// From this moment on either party may force the channel closed.
    pub timeout_at: i64,
    /// Tag of the record's derived storage address.
    pub bump: u8,
}

impl PaymentChannel {
    /// The deposit the two balances share, as a mathematical integer.
    pub open spec fn total(&self) -> int {
        self.balance_a as int + self.balance_b as int
    }

    /// Whether `p` names one of the two parties.
    pub open spec fn participant(&self, p: Seq<u8>) -> bool {
        p == self.party_a@ || p == self.party_b@
    }

    /// The record's invariants: parties in canonical order, a deposit that
    /// fits in 64 bits, and the timeout fixed one period after opening.
    pub open spec fn well_formed(&self) -> bool {
        &&& key_lt(self.party_a@, self.party_b@)
        &&& self.total() <= u64::MAX
        &&& self.timeout_at == self.opened_at + CHANNEL_TIMEOUT_SECS
    }

    /// Whether the channel still accepts operations.
    pub fn is_open(&self) -> (r: bool)
        ensures
            r == self.is_open,
    {
        self.is_open
    }

    /// Whether the timeout has elapsed at `current_timestamp`.
    pub fn has_timed_out(&self, current_timestamp: i64) -> (r: bool)
        ensures
            r == (current_timestamp >= self.timeout_at),
    {
        current_timestamp >= self.timeout_at
    }

    /// The deposit the channel holds: the sum of the two balances.
    pub fn total_balance(&self) -> (r: u64)
        requires
            self.total() <= u64::MAX,
        ensures
            r == self.total(),
    {
        self.balance_a + self.balance_b
    }

    /// Whether `party` is one of the channel's two parties.
    pub fn is_participant(&self, party: &Pubkey) -> (r: bool)
        ensures
            r == self.participant(party@),
    {
        party.same_as(&self.party_a) || party.same_as(&self.party_b)
    }

    /// The counterparty of `party`, or `None` when `party` is not in the channel.
    pub fn get_other_party(&self, party: &Pubkey) -> (r: Option<Pubkey>)
        ensures
            party@ == self.party_a@ ==> r == Some(self.party_b),
            party@ != self.party_a@ && party@ == self.party_b@ ==> r == Some(self.party_a),
            r is None <==> !self.participant(party@),
    {
        if party.same_as(&self.party_a) {
            Some(self.party_b)
        } else if party.same_as(&self.party_b) {
            Some(self.party_a)
        } else {
            None
        }
    }
}

} // verus!
