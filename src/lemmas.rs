//! Laws of the channel state machine, proved over the transition rules that
//! the operations' contracts are stated in.
use vstd::prelude::*;
use crate::errors::SolBoltError;
use crate::pubkey::{Pubkey, key_lt};
use crate::state::{CHANNEL_TIMEOUT_SECS, PaymentChannel};
use crate::transitions::{
    close_error,
    closed,
    committed,
    force_close_error,
    open_error,
    opened,
    update_error,
};

verus! {

/// A proposed state with the verdicts on its two signatures:
/// `(balance_a, balance_b, nonce, party A's signature accepted, party B's signature accepted)`.
pub type Proposal = (u64, u64, u64, bool, bool);

/// The channel after an update with `p` is submitted: the proposed state
/// when the update is accepted, `c` unchanged when it is rejected.
pub open spec fn after_update(c: PaymentChannel, p: Proposal) -> PaymentChannel {
    if update_error(c, p.0, p.1, p.2, p.3, p.4) is None {
        committed(c, p.0, p.1, p.2)
    } else {
        c
    }
}

/// The channel after the updates `ps` are submitted one after another.
pub open spec fn after_updates(c: PaymentChannel, ps: Seq<Proposal>) -> PaymentChannel
    decreases ps.len(),
{
    if ps.len() == 0 {
        c
    } else {
        after_update(after_updates(c, ps.drop_last()), ps.last())
    }
}

/// A valid open (positive deposit, parties in canonical order, no open
/// record at the pair's key) is accepted and creates a record that holds the
/// whole deposit on party A's side, nonce zero, open, with the timeout one
/// period after opening.
pub proof fn lemma_open_creates_funded_record(
    existing: Option<PaymentChannel>,
    party_a: Pubkey,
    party_b: Pubkey,
    deposit: u64,
    now: i64,
    bump: u8,
)
    requires
        deposit > 0,
        key_lt(party_a@, party_b@),
        !(existing is Some && existing->Some_0.is_open),
        now <= i64::MAX - CHANNEL_TIMEOUT_SECS,
    ensures
        open_error(existing, party_a@, party_b@, deposit) is None,
        opened(party_a, party_b, deposit, now, bump).balance_a == deposit,
        opened(party_a, party_b, deposit, now, bump).balance_b == 0,
        opened(party_a, party_b, deposit, now, bump).nonce == 0,
        opened(party_a, party_b, deposit, now, bump).is_open,
        opened(party_a, party_b, deposit, now, bump).opened_at == now,
        opened(party_a, party_b, deposit, now, bump).timeout_at == now + CHANNEL_TIMEOUT_SECS,
        opened(party_a, party_b, deposit, now, bump).well_formed(),
{
}

/// However many updates are submitted, the two balances keep the sum they
/// had, the nonce never goes down, and the parties, the open flag and the
/// timeout stay as they were.
pub proof fn lemma_updates_keep_total(c: PaymentChannel, ps: Seq<Proposal>)
    ensures
        after_updates(c, ps).total() == c.total(),
        after_updates(c, ps).nonce >= c.nonce,
        after_updates(c, ps).is_open == c.is_open,
        after_updates(c, ps).party_a == c.party_a,
        after_updates(c, ps).party_b == c.party_b,
        after_updates(c, ps).timeout_at == c.timeout_at,
        c.well_formed() ==> after_updates(c, ps).well_formed(),
    decreases ps.len(),
{
    if ps.len() > 0 {
        lemma_updates_keep_total(c, ps.drop_last());
    }
}

/// Every accepted update or cooperative close keeps the sum of the balances
/// and strictly raises the nonce.
pub proof fn lemma_accepted_state_keeps_total(
    c: PaymentChannel,
    payee_a: Seq<u8>,
    payee_b: Seq<u8>,
    balance_a: u64,
    balance_b: u64,
    nonce: u64,
    sig_a_ok: bool,
    sig_b_ok: bool,
)
    ensures
        update_error(c, balance_a, balance_b, nonce, sig_a_ok, sig_b_ok) is None ==> {
            &&& committed(c, balance_a, balance_b, nonce).total() == c.total()
            &&& committed(c, balance_a, balance_b, nonce).nonce > c.nonce
        },
        close_error(c, payee_a, payee_b, balance_a, balance_b, nonce, sig_a_ok, sig_b_ok) is None
            ==> {
            &&& closed(committed(c, balance_a, balance_b, nonce)).total() == c.total()
            &&& closed(committed(c, balance_a, balance_b, nonce)).nonce > c.nonce
        },
{
}

/// An update or close whose nonce is not above the committed one is
/// rejected, whatever the signatures.
pub proof fn lemma_stale_nonce_rejected(
    c: PaymentChannel,
    payee_a: Seq<u8>,
    payee_b: Seq<u8>,
    balance_a: u64,
    balance_b: u64,
    nonce: u64,
    sig_a_ok: bool,
    sig_b_ok: bool,
)
    requires
        nonce <= c.nonce,
    ensures
        update_error(c, balance_a, balance_b, nonce, sig_a_ok, sig_b_ok) is Some,
        close_error(c, payee_a, payee_b, balance_a, balance_b, nonce, sig_a_ok, sig_b_ok) is Some,
        c.is_open ==> update_error(c, balance_a, balance_b, nonce, sig_a_ok, sig_b_ok) == Some(
            SolBoltError::InvalidNonce,
        ),
        c.is_open && payee_a == c.party_a@ && payee_b == c.party_b@ ==> close_error(
            c,
            payee_a,
            payee_b,
            balance_a,
            balance_b,
            nonce,
            sig_a_ok,
            sig_b_ok,
        ) == Some(SolBoltError::InvalidNonce),
{
}

/// A fresh state whose balances do not sum to the channel's deposit is
/// rejected as an invalid balance, whatever the signatures.
pub proof fn lemma_wrong_total_rejected(
    c: PaymentChannel,
    payee_a: Seq<u8>,
    payee_b: Seq<u8>,
    balance_a: u64,
    balance_b: u64,
    nonce: u64,
    sig_a_ok: bool,
    sig_b_ok: bool,
)
    requires
        balance_a as int + balance_b as int != c.total(),
    ensures
        update_error(c, balance_a, balance_b, nonce, sig_a_ok, sig_b_ok) is Some,
        close_error(c, payee_a, payee_b, balance_a, balance_b, nonce, sig_a_ok, sig_b_ok) is Some,
        c.is_open && nonce > c.nonce ==> update_error(
            c,
            balance_a,
            balance_b,
            nonce,
            sig_a_ok,
            sig_b_ok,
        ) == Some(SolBoltError::InvalidBalance),
        c.is_open && nonce > c.nonce && payee_a == c.party_a@ && payee_b == c.party_b@
            ==> close_error(c, payee_a, payee_b, balance_a, balance_b, nonce, sig_a_ok, sig_b_ok)
            == Some(SolBoltError::InvalidBalance),
{
}

/// A participant's force close of an open channel is rejected before the
/// timeout and accepted from the timeout on; the closed record keeps the
/// balances last committed.
pub proof fn lemma_force_close_waits_for_timeout(c: PaymentChannel, initiator: Seq<u8>, now: i64)
    requires
        c.is_open,
        c.participant(initiator),
    ensures
        now < c.timeout_at ==> force_close_error(c, initiator, now) == Some(
            SolBoltError::TimeoutNotElapsed,
        ),
        now >= c.timeout_at ==> force_close_error(c, initiator, now) is None,
        closed(c).balance_a == c.balance_a,
        closed(c).balance_b == c.balance_b,
        closed(c).nonce == c.nonce,
{
}

/// A force close asked for by anyone but the two parties is always rejected.
pub proof fn lemma_outsider_cannot_force_close(c: PaymentChannel, initiator: Seq<u8>, now: i64)
    requires
        !c.participant(initiator),
    ensures
        force_close_error(c, initiator, now) is Some,
        c.is_open ==> force_close_error(c, initiator, now) == Some(SolBoltError::NotParticipant),
{
}

/// A closed channel rejects every operation, and no sequence of updates
/// opens it again.
pub proof fn lemma_closed_channel_rejects_all(
    c: PaymentChannel,
    payee_a: Seq<u8>,
    payee_b: Seq<u8>,
    balance_a: u64,
    balance_b: u64,
    nonce: u64,
    sig_a_ok: bool,
    sig_b_ok: bool,
    initiator: Seq<u8>,
    now: i64,
    ps: Seq<Proposal>,
)
    requires
        !c.is_open,
    ensures
        update_error(c, balance_a, balance_b, nonce, sig_a_ok, sig_b_ok) == Some(
            SolBoltError::ChannelNotOpen,
        ),
        close_error(c, payee_a, payee_b, balance_a, balance_b, nonce, sig_a_ok, sig_b_ok) == Some(
            SolBoltError::ChannelAlreadyClosed,
        ),
        force_close_error(c, initiator, now) == Some(SolBoltError::ChannelNotOpen),
        !after_updates(c, ps).is_open,
{
    lemma_updates_keep_total(c, ps);
}

} // verus!
