//! A two-party conditional asset exchange (escrow), as a verified state
//! machine. Alice deposits token A into a custodial holding and names the
//! amount of token B she requests together with the destination of each leg;
//! Bob may fulfil the request, which carries out both legs together, and
//! Alice may instead cancel while the trade is pending and recover her
//! deposit.
//!
//! The machine itself moves no assets: each transition validates the phase,
//! the presented accounts and the amounts, and on success returns the
//! `ledger::TransferInstruction`s the host must perform, all-or-nothing with
//! the phase change it has committed. On any error the trade record is left
//! untouched and no instruction is issued.

use vstd::prelude::*;

pub mod context;
pub mod errors;
pub mod laws;
pub mod ledger;
pub mod processor;
pub mod state;
pub mod store;

use crate::context::{AcceptTrade, CancelTrade, InitializeAccounts, StartTrade};
use crate::errors::TradeError;
use crate::ledger::TransferInstruction;
use crate::processor::{
    accept_next, accept_result, cancel_next, cancel_result, initialized_trade, start_next,
    start_result,
};
use crate::state::{AccountId, TradeId};
use crate::store::{TradeStore, create_next, create_result};

verus! {

/// Records the accounts and terms a trade between Alice and Bob will run
/// under; fails with `DuplicateRecord` if the derived identity is taken.
pub fn initialize_accounts(
    ctx: &InitializeAccounts,
    store: &mut TradeStore,
    token_a_destination: AccountId,
    token_b_destination: AccountId,
    token_a_source: AccountId,
    token_a_to_send_amount: u64,
    token_b_request_amount: u64,
) -> (r: Result<TradeId, TradeError>)
    requires
        old(store).wf(),
    ensures
        final(store).wf(),
        r == create_result(
            old(store)@,
            initialized_trade(
                *ctx,
                token_a_source,
                token_a_destination,
                token_b_destination,
                token_a_to_send_amount,
                token_b_request_amount,
            ),
        ),
        final(store)@ == create_next(
            old(store)@,
            initialized_trade(
                *ctx,
                token_a_source,
                token_a_destination,
                token_b_destination,
                token_a_to_send_amount,
                token_b_request_amount,
            ),
        ),
{
    ctx.initialize_accounts(
        store,
        token_a_source,
        token_a_destination,
        token_b_destination,
        token_a_to_send_amount,
        token_b_request_amount,
    )
}

/// Alice starts the trade by depositing exactly the recorded amount of token
/// A into the custodial holding; the returned instruction is that deposit.
pub fn start_trade(ctx: &mut StartTrade, token_a_to_send_amount: u64) -> (r: Result<
    TransferInstruction,
    TradeError,
>)
    ensures
        r == start_result(*old(ctx), token_a_to_send_amount),
        final(ctx).trade == start_next(*old(ctx), token_a_to_send_amount),
        r is Err ==> *final(ctx) == *old(ctx),
{
    ctx.start_trade(token_a_to_send_amount)
}

/// Alice cancels the pending trade; the returned instruction restores her
/// deposit from the custodial holding.
pub fn cancel_trade(ctx: &mut CancelTrade) -> (r: Result<TransferInstruction, TradeError>)
    ensures
        r == cancel_result(*old(ctx)),
        final(ctx).trade == cancel_next(*old(ctx)),
        r is Err ==> *final(ctx) == *old(ctx),
{
    ctx.cancel_trade()
}

/// Bob accepts the trade by paying exactly the requested amount of token B;
/// the returned pair is both legs of the exchange, to be performed together
/// or not at all.
pub fn accept_trade(ctx: &mut AcceptTrade, token_b_to_send_amount: u64) -> (r: Result<
    (TransferInstruction, TransferInstruction),
    TradeError,
>)
    ensures
        r == accept_result(*old(ctx), token_b_to_send_amount),
        final(ctx).trade == accept_next(*old(ctx), token_b_to_send_amount),
        r is Err ==> *final(ctx) == *old(ctx),
{
    ctx.accept_trade(token_b_to_send_amount)
}

} // verus!
