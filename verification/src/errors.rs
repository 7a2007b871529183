//! The error taxonomy. Every error aborts the whole operation: no phase
//! mutation is committed and no transfer instruction is issued.

use vstd::prelude::*;
use crate::state::Phase;

verus! {

/// Why an operation was rejected. Where applicable the variant carries the
/// expected and actual values, to aid debugging without exposing unrelated
/// trade data.
#[derive(Clone, Copy, Debug, PartialEq, Eq, Structural)]
pub enum TradeError {
    /// The trade is in the wrong phase for the requested transition; `phase`
    /// is the phase the record actually holds.
    PreconditionViolation { phase: Phase },

    /// The caller-supplied amount disagrees with the recorded term.
    AmountMismatch { expected: u64, actual: u64 },

    /// A supplied account does not match the trade's recorded address for
    /// that role, or the caller lacks the authority the transition demands.
    IdentityMismatch,

    /// The ledger rejected a transfer. Raised by the host that executes the
    /// issued instructions, never by the state machine itself; it must roll
    /// back the whole operation.
    TransferFailure,

    /// A record already exists under the derived identity.
    DuplicateRecord,
}

} // verus!
