//! The escrow state machine: the four lifecycle transitions, each specified
//! exactly by a spec-level model of its result and of the next trade state.
//!
//! Every transition checks, in this order: the phase precondition, then the
//! identity of every account it would move assets between, then the
//! caller-supplied amount against the recorded term. All checks come before
//! any transfer instruction is issued, and an error leaves the trade record
//! untouched and issues nothing: an operation is all-or-nothing.

use vstd::prelude::*;
use crate::context::{AcceptTrade, CancelTrade, InitializeAccounts, StartTrade};
use crate::errors::TradeError;
use crate::ledger::{TransferAuthority, TransferInstruction};
use crate::state::{AccountId, Phase, Trade, TradeId, same_terms, with_phase};
use crate::store::{TradeStore, contains_id, create_next, create_result};

verus! {

/// The deposit leg: the offered token A moves from Alice's source account
/// into the custodial holding, authorized by the caller.
pub open spec fn deposit_transfer(t: Trade, caller: AccountId) -> TransferInstruction {
    TransferInstruction {
        from: t.token_a_source,
        to: t.token_a_pda,
        authority: TransferAuthority::Caller(caller),
        amount: t.token_a_to_send_amount,
    }
}

/// The refund leg: the deposit moves back from the holding to Alice's source
/// account, authorized by the escrow's own capability over the holding.
pub open spec fn refund_transfer(t: Trade) -> TransferInstruction {
    TransferInstruction {
        from: t.token_a_pda,
        to: t.token_a_source,
        authority: TransferAuthority::Escrow(t.spec_id()),
        amount: t.token_a_to_send_amount,
    }
}

/// The token A leg of a completed trade: the deposit moves from the holding
/// to Bob's token A account, authorized by the escrow's capability.
pub open spec fn payout_transfer(t: Trade) -> TransferInstruction {
    TransferInstruction {
        from: t.token_a_pda,
        to: t.token_a_destination,
        authority: TransferAuthority::Escrow(t.spec_id()),
        amount: t.token_a_to_send_amount,
    }
}

/// The token B leg of a completed trade: the requested amount moves from the
/// accepting party's account to Alice's token B account, authorized by the
/// accepting caller.
pub open spec fn counter_transfer(t: Trade, from: AccountId, caller: AccountId) -> TransferInstruction {
    TransferInstruction {
        from,
        to: t.token_b_destination,
        authority: TransferAuthority::Caller(caller),
        amount: t.token_b_request_amount,
    }
}

/// The trade that an initialize with these accounts and terms records.
pub open spec fn initialized_trade(
    c: InitializeAccounts,
    token_a_source: AccountId,
    token_a_destination: AccountId,
    token_b_destination: AccountId,
    token_a_to_send_amount: u64,
    token_b_request_amount: u64,
) -> Trade {
    Trade {
        token_a_pda: c.token_a_pda,
        token_a_mint: c.token_a_mint,
        authority: c.authority,
        token_a_source,
        token_a_destination,
        token_b_destination,
        token_a_to_send_amount,
        token_b_request_amount,
        phase: Phase::Created,
    }
}

/// The accounts presented for a start name exactly the recorded holding and
/// the recorded source.
pub open spec fn start_ids_ok(c: StartTrade) -> bool {
    &&& c.token_a_pda_dest == c.trade.token_a_pda
    &&& c.token_a_src == c.trade.token_a_source
}

/// A start succeeds: the trade is still `Created`, the accounts match the
/// record, and the amount equals the recorded offer.
pub open spec fn start_ok(c: StartTrade, amount: u64) -> bool {
    &&& c.trade.phase is Created
    &&& start_ids_ok(c)
    &&& amount == c.trade.token_a_to_send_amount
}

/// What a start returns: the deposit instruction on success, otherwise the
/// error of the first failing check (phase, then identity, then amount).
pub open spec fn start_result(c: StartTrade, amount: u64) -> Result<TransferInstruction, TradeError> {
    if !(c.trade.phase is Created) {
        Err(TradeError::PreconditionViolation { phase: c.trade.phase })
    } else if !start_ids_ok(c) {
        Err(TradeError::IdentityMismatch)
    } else if amount != c.trade.token_a_to_send_amount {
        Err(TradeError::AmountMismatch { expected: c.trade.token_a_to_send_amount, actual: amount })
    } else {
        Ok(deposit_transfer(c.trade, c.authority))
    }
}

/// The trade record after a start: phase `Started` on success, untouched on
/// any error.
pub open spec fn start_next(c: StartTrade, amount: u64) -> Trade {
    if start_ok(c, amount) {
        with_phase(c.trade, Phase::Started)
    } else {
        c.trade
    }
}

/// The accounts presented for a cancel name exactly the recorded holding and
/// the recorded source, and the caller is the recorded authority: only the
/// initiator may cancel.
pub open spec fn cancel_ids_ok(c: CancelTrade) -> bool {
    &&& c.token_a_pda_src == c.trade.token_a_pda
    &&& c.token_a_dest == c.trade.token_a_source
    &&& c.authority == c.trade.authority
}

/// A cancel succeeds: the deposit is actually in custody (`Started`, so
/// neither terminal phase holds) and the accounts and caller match the
/// record.
pub open spec fn cancel_ok(c: CancelTrade) -> bool {
    &&& c.trade.phase is Started
    &&& cancel_ids_ok(c)
}

/// What a cancel returns: the refund instruction on success, otherwise the
/// error of the first failing check (phase, then identity).
pub open spec fn cancel_result(c: CancelTrade) -> Result<TransferInstruction, TradeError> {
    if !(c.trade.phase is Started) {
        Err(TradeError::PreconditionViolation { phase: c.trade.phase })
    } else if !cancel_ids_ok(c) {
        Err(TradeError::IdentityMismatch)
    } else {
        Ok(refund_transfer(c.trade))
    }
}

/// The trade record after a cancel: phase `Cancelled` on success, untouched
/// on any error.
pub open spec fn cancel_next(c: CancelTrade) -> Trade {
    if cancel_ok(c) {
        with_phase(c.trade, Phase::Cancelled)
    } else {
        c.trade
    }
}

/// The accounts presented for an accept name exactly the recorded holding
/// and the recorded destinations of both legs.
pub open spec fn accept_ids_ok(c: AcceptTrade) -> bool {
    &&& c.token_a_pda_src == c.trade.token_a_pda
    &&& c.token_a_dest == c.trade.token_a_destination
    &&& c.token_b_dest == c.trade.token_b_destination
}

/// An accept succeeds: the deposit is in custody (`Started`), the accounts
/// match the record, and the amount equals the recorded request.
pub open spec fn accept_ok(c: AcceptTrade, amount: u64) -> bool {
    &&& c.trade.phase is Started
    &&& accept_ids_ok(c)
    &&& amount == c.trade.token_b_request_amount
}

/// What an accept returns: both legs of the exchange on success, issued
/// together so that neither can be performed without the other; otherwise the
/// error of the first failing check (phase, then identity, then amount).
pub open spec fn accept_result(c: AcceptTrade, amount: u64) -> Result<
    (TransferInstruction, TransferInstruction),
    TradeError,
> {
    if !(c.trade.phase is Started) {
        Err(TradeError::PreconditionViolation { phase: c.trade.phase })
    } else if !accept_ids_ok(c) {
        Err(TradeError::IdentityMismatch)
    } else if amount != c.trade.token_b_request_amount {
        Err(TradeError::AmountMismatch { expected: c.trade.token_b_request_amount, actual: amount })
    } else {
        Ok((payout_transfer(c.trade), counter_transfer(c.trade, c.token_b_src, c.authority)))
    }
}

/// The trade record after an accept: phase `Completed` on success, untouched
/// on any error.
pub open spec fn accept_next(c: AcceptTrade, amount: u64) -> Trade {
    if accept_ok(c, amount) {
        with_phase(c.trade, Phase::Completed)
    } else {
        c.trade
    }
}

impl InitializeAccounts {
    /// Records a new trade: Alice offers `token_a_to_send_amount` of token A,
    /// to be sent to `token_a_destination` on completion, and requests
    /// `token_b_request_amount` of token B into `token_b_destination`; on
    /// cancellation the deposit returns to `token_a_source`.
    ///
    /// Create-once: if a record already exists under the identity derived
    /// from `(token_a_pda, token_a_destination, token_b_destination,
    /// authority)`, the call fails with `DuplicateRecord` and the store, the
    /// existing record included, is unchanged.
    pub fn initialize_accounts(
        &self,
        store: &mut TradeStore,
        token_a_source: AccountId,
        token_a_destination: AccountId,
        token_b_destination: AccountId,
        token_a_to_send_amount: u64,
        token_b_request_amount: u64,
    ) -> (r: Result<TradeId, TradeError>)
        requires
            old(store).wf(),
        ensures
            final(store).wf(),
            r == create_result(
                old(store)@,
                initialized_trade(
                    *self,
                    token_a_source,
                    token_a_destination,
                    token_b_destination,
                    token_a_to_send_amount,
                    token_b_request_amount,
                ),
            ),
            final(store)@ == create_next(
                old(store)@,
                initialized_trade(
                    *self,
                    token_a_source,
                    token_a_destination,
                    token_b_destination,
                    token_a_to_send_amount,
                    token_b_request_amount,
                ),
            ),
            r matches Ok(id) ==> !contains_id(old(store)@, id) && contains_id(final(store)@, id),
            r is Err ==> final(store)@ == old(store)@,
    {
        let trade = Trade {
            token_a_pda: self.token_a_pda,
            token_a_mint: self.token_a_mint,
            authority: self.authority,
            token_a_source,
            token_a_destination,
            token_b_destination,
            token_a_to_send_amount,
            token_b_request_amount,
            phase: Phase::Created,
        };
        let r = store.create(trade);
        proof {
            if r is Ok {
                assert(contains_id(store@, trade.spec_id())) by {
                    assert(store@[store@.len() - 1] == trade);
                }
            }
        }
        r
    }
}

impl StartTrade {
    /// Starts the trade: Alice's deposit of exactly the recorded offer moves
    /// from her source account into the custodial holding.
    ///
    /// Succeeds exactly when the trade is still `Created`, the presented
    /// accounts match the record, and the amount equals the recorded offer;
    /// then the single returned instruction is the deposit leg and the phase
    /// becomes `Started`. On any error nothing is issued and nothing changes.
    pub fn start_trade(&mut self, token_a_to_send_amount: u64) -> (r: Result<
        TransferInstruction,
        TradeError,
    >)
        ensures
            r == start_result(*old(self), token_a_to_send_amount),
            final(self).trade == start_next(*old(self), token_a_to_send_amount),
            same_terms(old(self).trade, final(self).trade),
            r is Ok <==> start_ok(*old(self), token_a_to_send_amount),
            r is Ok ==> final(self).trade.phase is Started,
            r is Err ==> *final(self) == *old(self),
    {
        if !(self.trade.phase == Phase::Created) {
            return Err(TradeError::PreconditionViolation { phase: self.trade.phase });
        }
        if !(self.token_a_pda_dest == self.trade.token_a_pda
            && self.token_a_src == self.trade.token_a_source) {
            return Err(TradeError::IdentityMismatch);
        }
        if token_a_to_send_amount != self.trade.token_a_to_send_amount {
            return Err(TradeError::AmountMismatch {
                expected: self.trade.token_a_to_send_amount,
                actual: token_a_to_send_amount,
            });
        }
        let instruction = TransferInstruction {
            from: self.trade.token_a_source,
            to: self.trade.token_a_pda,
            authority: TransferAuthority::Caller(self.authority),
            amount: self.trade.token_a_to_send_amount,
        };
        self.trade.phase = Phase::Started;
        Ok(instruction)
    }
}

impl CancelTrade {
    /// Cancels the trade: the deposit held in custody returns to Alice's
    /// source account, authorized by the escrow's own capability.
    ///
    /// Succeeds exactly when the trade is `Started` — so there is a deposit
    /// to return, and neither terminal phase has been reached — the presented
    /// accounts match the record, and the caller is the recorded authority.
    /// Then the single returned instruction is the refund leg and the phase
    /// becomes `Cancelled`. On any error nothing is issued and nothing
    /// changes.
    pub fn cancel_trade(&mut self) -> (r: Result<TransferInstruction, TradeError>)
        ensures
            r == cancel_result(*old(self)),
            final(self).trade == cancel_next(*old(self)),
            same_terms(old(self).trade, final(self).trade),
            r is Ok <==> cancel_ok(*old(self)),
            r is Ok ==> final(self).trade.phase is Cancelled,
            r is Err ==> *final(self) == *old(self),
    {
        if !(self.trade.phase == Phase::Started) {
            return Err(TradeError::PreconditionViolation { phase: self.trade.phase });
        }
        if !(self.token_a_pda_src == self.trade.token_a_pda
            && self.token_a_dest == self.trade.token_a_source
            && self.authority == self.trade.authority) {
            return Err(TradeError::IdentityMismatch);
        }
        let trade_id = self.trade.id();
        let instruction = TransferInstruction {
            from: self.trade.token_a_pda,
            to: self.trade.token_a_source,
            authority: TransferAuthority::Escrow(trade_id),
            amount: self.trade.token_a_to_send_amount,
        };
        self.trade.phase = Phase::Cancelled;
        Ok(instruction)
    }
}

impl AcceptTrade {
    /// Accepts the trade: Bob pays exactly the recorded request of token B to
    /// Alice's destination, and the deposit in custody goes to Bob's token A
    /// destination. The two legs are returned together: the host performs
    /// both or neither.
    ///
    /// Succeeds exactly when the trade is `Started` — so neither cancelled
    /// nor already completed — the presented accounts match the record, and
    /// the amount equals the recorded request; then the phase becomes
    /// `Completed`. On any error nothing is issued and nothing changes.
    pub fn accept_trade(&mut self, token_b_to_send_amount: u64) -> (r: Result<
        (TransferInstruction, TransferInstruction),
        TradeError,
    >)
        ensures
            r == accept_result(*old(self), token_b_to_send_amount),
            final(self).trade == accept_next(*old(self), token_b_to_send_amount),
            same_terms(old(self).trade, final(self).trade),
            r is Ok <==> accept_ok(*old(self), token_b_to_send_amount),
            r is Ok ==> final(self).trade.phase is Completed,
            r is Err ==> *final(self) == *old(self),
    {
        if !(self.trade.phase == Phase::Started) {
            return Err(TradeError::PreconditionViolation { phase: self.trade.phase });
        }
        if !(self.token_a_pda_src == self.trade.token_a_pda
            && self.token_a_dest == self.trade.token_a_destination
            && self.token_b_dest == self.trade.token_b_destination) {
            return Err(TradeError::IdentityMismatch);
        }
        if token_b_to_send_amount != self.trade.token_b_request_amount {
            return Err(TradeError::AmountMismatch {
                expected: self.trade.token_b_request_amount,
                actual: token_b_to_send_amount,
            });
        }
        let trade_id = self.trade.id();
        let token_a_leg = TransferInstruction {
            from: self.trade.token_a_pda,
            to: self.trade.token_a_destination,
            authority: TransferAuthority::Escrow(trade_id),
            amount: self.trade.token_a_to_send_amount,
        };
        let token_b_leg = TransferInstruction {
            from: self.token_b_src,
            to: self.trade.token_b_destination,
            authority: TransferAuthority::Caller(self.authority),
            amount: self.trade.token_b_request_amount,
        };
        self.trade.phase = Phase::Completed;
        Ok((token_a_leg, token_b_leg))
    }
}

} // verus!
