//! The persisted state of one escrow agreement: the `Trade` record, the
//! identities it names, and its lifecycle phase.

use vstd::prelude::*;

verus! {

/// Identifier of an account on the ledger: a 256-bit address held as four
/// 64-bit words. Identities are compared only for exact structural equality,
/// never by prefix.
#[derive(Clone, Copy, Debug, PartialEq, Eq, Structural)]
pub struct AccountId {
    pub w0: u64,
    pub w1: u64,
    pub w2: u64,
    pub w3: u64,
}

/// Lifecycle phase of a trade. A single exclusive value, so that no invalid
/// combination (for example both cancelled and completed) is representable.
///
/// Transitions: `Created -> Started -> Cancelled` or
/// `Created -> Started -> Completed`; `Cancelled` and `Completed` are
/// terminal.
#[derive(Clone, Copy, Debug, PartialEq, Eq, Structural)]
pub enum Phase {
    /// The record exists; no assets have moved yet.
    Created,
    /// The initiator's deposit of token A sits in the custodial holding.
    Started,
    /// The deposit was refunded to the initiator. Terminal.
    Cancelled,
    /// Both legs of the exchange were carried out. Terminal.
    Completed,
}

/// The identity under which a trade record is stored, derived
/// deterministically from the trade's immutable parameters. One authority
/// cannot open two records with the same parameters, and any party can look
/// the canonical record up without a separate index.
#[derive(Clone, Copy, Debug, PartialEq, Eq, Structural)]
pub struct TradeId {
    pub token_a_pda: AccountId,
    pub token_a_destination: AccountId,
    pub token_b_destination: AccountId,
    pub authority: AccountId,
}

/// One escrow agreement: Alice (the authority) offers token A and requests
/// token B from Bob. All identity fields are fixed at creation; only `phase`
/// ever changes afterwards.
#[derive(Clone, Copy, Debug, PartialEq, Eq, Structural)]
pub struct Trade {
    /// The custodial holding account that receives Alice's token A while the
    /// trade is pending. Owned by the escrow itself, not by either party.
    pub token_a_pda: AccountId,

    /// Asset type of token A.
    pub token_a_mint: AccountId,

    /// Identity of Alice, the initiator; only she may cancel.
    pub authority: AccountId,

    /// Alice's token A account: where the deposit comes from, and where it is
    /// refunded on cancellation.
    pub token_a_source: AccountId,

    /// Bob's token A account: receives the deposit when the trade completes.
    pub token_a_destination: AccountId,

    /// Alice's token B account: receives Bob's payment when the trade
    /// completes.
    pub token_b_destination: AccountId,

    /// Quantity of token A Alice commits to send.
    pub token_a_to_send_amount: u64,

    /// Quantity of token B Alice demands in return.
    pub token_b_request_amount: u64,

    /// Current lifecycle phase.
    pub phase: Phase,
}

/// A terminal phase admits no further transition.
pub open spec fn phase_is_terminal(p: Phase) -> bool {
    p is Cancelled || p is Completed
}

/// `t` changed to phase `p`, every other field kept.
pub open spec fn with_phase(t: Trade, p: Phase) -> Trade {
    Trade {
        token_a_pda: t.token_a_pda,
        token_a_mint: t.token_a_mint,
        authority: t.authority,
        token_a_source: t.token_a_source,
        token_a_destination: t.token_a_destination,
        token_b_destination: t.token_b_destination,
        token_a_to_send_amount: t.token_a_to_send_amount,
        token_b_request_amount: t.token_b_request_amount,
        phase: p,
    }
}

/// Two records agree on every term but possibly the phase: the identities and
/// amounts fixed at creation are all equal.
pub open spec fn same_terms(a: Trade, b: Trade) -> bool {
    b == with_phase(a, b.phase)
}

impl Trade {
    /// The storage identity derived from this trade's immutable parameters.
    pub open spec fn spec_id(self) -> TradeId {
        TradeId {
            token_a_pda: self.token_a_pda,
            token_a_destination: self.token_a_destination,
            token_b_destination: self.token_b_destination,
            authority: self.authority,
        }
    }

    /// Whether this trade is in a terminal phase.
    pub open spec fn is_terminal(self) -> bool {
        phase_is_terminal(self.phase)
    }

    /// Computes the storage identity of this trade.
    pub fn id(&self) -> (r: TradeId)
        ensures
            r == self.spec_id(),
    {
        TradeId {
            token_a_pda: self.token_a_pda,
            token_a_destination: self.token_a_destination,
            token_b_destination: self.token_b_destination,
            authority: self.authority,
        }
    }
}

} // verus!
