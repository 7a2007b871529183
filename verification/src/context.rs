//! The accounts a caller presents with each operation. Each struct names the
//! caller-supplied accounts for one transition together with the trade record
//! it runs against; the transition methods live in `processor`.

use vstd::prelude::*;
use crate::state::{AccountId, Trade};

verus! {

/// Accounts presented to create a new trade record.
#[derive(Clone, Copy, Debug, PartialEq, Eq, Structural)]
pub struct InitializeAccounts {
    /// The custodial holding account that will receive Alice's token A.
    pub token_a_pda: AccountId,

    /// Asset type of token A, recorded to validate the holding account.
    pub token_a_mint: AccountId,

    /// Alice, the initiator; recorded as the trade's authority.
    pub authority: AccountId,
}

/// Accounts presented to start a trade: Alice deposits token A into the
/// custodial holding.
#[derive(Clone, Copy, Debug, PartialEq, Eq, Structural)]
pub struct StartTrade {
    /// Where the token A deposit comes from.
    pub token_a_src: AccountId,

    /// Where the deposit goes: must be the trade's recorded holding account.
    pub token_a_pda_dest: AccountId,

    /// The caller, who authorizes the movement out of `token_a_src`.
    pub authority: AccountId,

    /// The trade record the operation runs against.
    pub trade: Trade,
}

/// Accounts presented to cancel a trade: the deposit is refunded to Alice.
#[derive(Clone, Copy, Debug, PartialEq, Eq, Structural)]
pub struct CancelTrade {
    /// Where the refund comes from: must be the recorded holding account.
    pub token_a_pda_src: AccountId,

    /// Where the refund goes: must be the recorded token A source.
    pub token_a_dest: AccountId,

    /// The caller: only the trade's recorded authority may cancel.
    pub authority: AccountId,

    /// The trade record the operation runs against.
    pub trade: Trade,
}

/// Accounts presented to accept a trade: Bob pays token B and both legs of
/// the exchange are carried out together.
#[derive(Clone, Copy, Debug, PartialEq, Eq, Structural)]
pub struct AcceptTrade {
    /// Where the token A leg comes from: must be the recorded holding account.
    pub token_a_pda_src: AccountId,

    /// Bob's token B account, the source of the token B leg.
    pub token_b_src: AccountId,

    /// Where token A goes: must be the recorded token A destination.
    pub token_a_dest: AccountId,

    /// Where token B goes: must be the recorded token B destination.
    pub token_b_dest: AccountId,

    /// The caller (Bob), who authorizes the movement out of `token_b_src`.
    pub authority: AccountId,

    /// The trade record the operation runs against.
    pub trade: Trade,
}

} // verus!
