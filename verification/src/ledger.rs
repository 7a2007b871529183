//! The consumed ledger interface, as data: a transition issues
//! `TransferInstruction`s instead of moving assets itself. The host performs
//! them, all-or-nothing with the enclosing operation.

use vstd::prelude::*;
use crate::state::{AccountId, TradeId};

verus! {

/// Who authorizes a transfer.
///
/// The custodial holding account is not owned by any caller: movement out of
/// it is authorized by the trade record itself, a capability held by the
/// state machine alone and never handed to external callers.
#[derive(Clone, Copy, Debug, PartialEq, Eq, Structural)]
pub enum TransferAuthority {
    /// The identity of the caller of the operation, who must be entitled to
    /// move funds out of the `from` account.
    Caller(AccountId),
    /// The escrow's own delegated authority over its holding account.
    Escrow(TradeId),
}

/// One directional asset movement the host must perform on the ledger.
/// All instructions issued by one operation commit or roll back together.
#[derive(Clone, Copy, Debug, PartialEq, Eq, Structural)]
pub struct TransferInstruction {
    pub from: AccountId,
    pub to: AccountId,
    pub authority: TransferAuthority,
    pub amount: u64,
}

} // verus!
