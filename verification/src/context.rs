//! The host-supplied call context, and the actions a call hands back.
//!
//! On chain these values come from the runtime: who signed the transaction,
//! which account made the current call, how many yoctotokens it attached, and
//! what the contract account holds.  Here they are plain values a caller
//! passes in, so every entry point is a function of its full input.
//!
//! Token transfers and cross-contract calls that a contract would issue as
//! promises are returned as action values: the decision of what to send is
//! part of the verified logic, the sending itself is not.

use vstd::prelude::*;

use crate::account::AccountId;

verus! {

/// What the host would report about the current call.
pub struct Context {
    /// The account the contract itself runs as.
    pub current_account_id: AccountId,
    /// The account that made the current call.
    pub predecessor_account_id: AccountId,
    /// The account that signed the transaction.
    pub signer_account_id: AccountId,
    /// The deposit attached to the call, in yoctotokens.
    pub attached_deposit: u128,
    /// The balance of the contract account, in yoctotokens.
    pub account_balance: u128,
}

/// A native-token transfer the contract asks the host to perform.
#[derive(PartialEq, Eq, Debug)]
pub struct TransferAction {
    /// The account to pay.
    pub receiver: AccountId,
    /// The amount to send, in yoctotokens.
    pub amount: u128,
}

} // verus!
