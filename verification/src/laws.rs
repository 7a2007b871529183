//! The guarantees of the design, stated and proved over the spec-level model
//! of the transitions. Each transition's own contract says its result and
//! next state equal that model, so these laws carry over to the executable
//! machine.

use vstd::prelude::*;
use crate::context::{AcceptTrade, CancelTrade, StartTrade};
use crate::errors::TradeError;
use crate::ledger::TransferInstruction;
use crate::processor::{
    accept_ids_ok, accept_next, accept_ok, accept_result, cancel_next, cancel_result,
    counter_transfer, payout_transfer, start_ids_ok, start_next, start_result,
};
use crate::state::{Phase, Trade, TradeId, phase_is_terminal, same_terms, with_phase};
use crate::store::{contains_id, create_next, create_result};

verus! {

/// Atomicity of accept: against a `Started` trade, either both the token A
/// leg and the token B leg are issued together and the phase becomes
/// `Completed`, or nothing is issued and the trade — its `Started` phase
/// included — is exactly as it was. No intermediate state exists.
pub proof fn lemma_accept_atomicity(c: AcceptTrade, amount: u64)
    requires
        c.trade.phase is Started,
    ensures
        accept_result(c, amount) is Ok ==> accept_result(c, amount) == Ok::<
            (TransferInstruction, TransferInstruction),
            TradeError,
        >((payout_transfer(c.trade), counter_transfer(c.trade, c.token_b_src, c.authority)))
            && accept_next(c, amount) == with_phase(c.trade, Phase::Completed),
        accept_result(c, amount) is Err ==> accept_next(c, amount) == c.trade
            && accept_next(c, amount).phase is Started,
{
}

/// No double-spend, cancel side: once a trade has reached a terminal phase,
/// a cancel fails with `PreconditionViolation` — whatever accounts or caller
/// are presented — and issues no transfer; the record does not change.
pub proof fn lemma_terminal_rejects_cancel(c: CancelTrade)
    requires
        c.trade.is_terminal(),
    ensures
        cancel_result(c) == Err::<TransferInstruction, TradeError>(
            TradeError::PreconditionViolation { phase: c.trade.phase },
        ),
        cancel_next(c) == c.trade,
{
}

/// No double-spend, accept side: once a trade has reached a terminal phase,
/// an accept fails with `PreconditionViolation` — whatever accounts, caller
/// or amount are presented — and issues no transfer; the record does not
/// change.
pub proof fn lemma_terminal_rejects_accept(c: AcceptTrade, amount: u64)
    requires
        c.trade.is_terminal(),
    ensures
        accept_result(c, amount) == Err::<(TransferInstruction, TransferInstruction), TradeError>(
            TradeError::PreconditionViolation { phase: c.trade.phase },
        ),
        accept_next(c, amount) == c.trade,
{
}

/// A terminal phase is permanent: no transition moves a trade out of
/// `Cancelled` or `Completed`.
pub proof fn lemma_terminal_is_permanent(
    s: StartTrade,
    c: CancelTrade,
    a: AcceptTrade,
    amount_a: u64,
    amount_b: u64,
)
    ensures
        phase_is_terminal(s.trade.phase) ==> start_next(s, amount_a) == s.trade,
        phase_is_terminal(c.trade.phase) ==> cancel_next(c) == c.trade,
        phase_is_terminal(a.trade.phase) ==> accept_next(a, amount_b) == a.trade,
{
}

/// Amount fidelity of start: with the phase and accounts valid, a start
/// succeeds exactly when the supplied amount equals the recorded offer; and
/// whatever else holds, a mismatched amount never succeeds and never changes
/// the trade.
pub proof fn lemma_start_amount_fidelity(c: StartTrade, amount: u64)
    ensures
        c.trade.phase is Created && start_ids_ok(c) ==> (start_result(c, amount) is Ok <==> amount
            == c.trade.token_a_to_send_amount),
        c.trade.phase is Created && start_ids_ok(c) && amount != c.trade.token_a_to_send_amount
            ==> start_result(c, amount) == Err::<TransferInstruction, TradeError>(
            TradeError::AmountMismatch {
                expected: c.trade.token_a_to_send_amount,
                actual: amount,
            },
        ),
        amount != c.trade.token_a_to_send_amount ==> start_result(c, amount) is Err && start_next(
            c,
            amount,
        ) == c.trade,
{
}

/// Amount fidelity of accept: with the phase and accounts valid, an accept
/// succeeds exactly when the supplied amount equals the recorded request; and
/// whatever else holds, a mismatched amount never succeeds and never changes
/// the trade.
pub proof fn lemma_accept_amount_fidelity(c: AcceptTrade, amount: u64)
    ensures
        c.trade.phase is Started && accept_ids_ok(c) ==> (accept_result(c, amount) is Ok <==> amount
            == c.trade.token_b_request_amount),
        c.trade.phase is Started && accept_ids_ok(c) && amount != c.trade.token_b_request_amount
            ==> accept_result(c, amount) == Err::<
            (TransferInstruction, TransferInstruction),
            TradeError,
        >(TradeError::AmountMismatch {
            expected: c.trade.token_b_request_amount,
            actual: amount,
        }),
        amount != c.trade.token_b_request_amount ==> accept_result(c, amount) is Err
            && accept_next(c, amount) == c.trade,
{
}

/// Authorization enforcement: a cancel whose caller is not the trade's
/// recorded authority fails — with `IdentityMismatch`, or with
/// `PreconditionViolation` when the phase check already rejects it — and
/// issues no transfer; the record does not change.
pub proof fn lemma_cancel_authorization(c: CancelTrade)
    requires
        c.authority != c.trade.authority,
    ensures
        cancel_result(c) is Err,
        cancel_result(c) matches Err(e) ==> e is IdentityMismatch || e is PreconditionViolation,
        cancel_next(c) == c.trade,
{
}

/// Idempotent identity derivation: creating two records that derive the same
/// identity fails the second time with `DuplicateRecord`, and the second
/// attempt changes nothing — in particular the record stored by the first
/// call.
pub proof fn lemma_duplicate_create_rejected(s: Seq<Trade>, t1: Trade, t2: Trade)
    requires
        t1.spec_id() == t2.spec_id(),
    ensures
        create_result(create_next(s, t1), t2) == Err::<TradeId, TradeError>(
            TradeError::DuplicateRecord,
        ),
        create_next(create_next(s, t1), t2) == create_next(s, t1),
{
    let s1 = create_next(s, t1);
    if contains_id(s, t1.spec_id()) {
        assert(s1 == s);
    } else {
        assert(s1 == s.push(t1));
        assert(s1[s.len() as int] == t1);
        assert(contains_id(s1, t2.spec_id()));
    }
}

/// Every transition keeps the trade's terms: whatever a start, cancel or
/// accept does, the identities and amounts recorded at creation never change;
/// only the phase may.
pub proof fn lemma_terms_immutable(
    s: StartTrade,
    c: CancelTrade,
    a: AcceptTrade,
    amount_a: u64,
    amount_b: u64,
)
    ensures
        same_terms(s.trade, start_next(s, amount_a)),
        same_terms(c.trade, cancel_next(c)),
        same_terms(a.trade, accept_next(a, amount_b)),
{
}

} // verus!
