//! The fungible-token core: balances of registered accounts, a total supply,
//! and storage-style account registration.
//!
//! Every state-changing call returns a `Result`; an `Err` models the host
//! rolling the transaction back, so the contracts promise that the state is
//! unchanged in that case.

use vstd::prelude::*;

use crate::account::AccountId;
use crate::context::Context;
use crate::context::TransferAction;
use crate::ledger::AccountLedger;

verus! {

/// The cost of one byte of contract storage, in yoctotokens.
pub const STORAGE_BYTE_COST: u128 = 10_000_000_000_000_000_000;

/// The storage one balance entry takes, in bytes: a longest account id as the
/// key, a balance as the value, and the per-record overhead.
pub const ACCOUNT_STORAGE_USAGE: u64 = 125;

/// Why a token call aborts.
#[derive(Clone, Copy, PartialEq, Eq, Structural, Debug)]
pub enum TokenError {
    /// The caller is not the contract owner.
    NotOwner,
    /// The contract is paused.
    Paused,
    /// The signer stands on the block list.
    Banned,
    /// The call must attach exactly one yoctotoken.
    OneYoctoRequired,
    /// The account has no balance entry.
    NotRegistered,
    /// The account already has a balance entry.
    AlreadyRegistered,
    /// Sender and receiver must differ.
    SelfTransfer,
    /// The amount must be positive.
    ZeroAmount,
    /// The account's balance is smaller than the amount.
    NotEnoughBalance,
    /// An account balance would overflow.
    BalanceOverflow,
    /// The total supply would overflow or underflow.
    TotalSupplyOverflow,
    /// The total supply is smaller than the amount to burn.
    InsufficientSupply,
    /// No associated contract account is set.
    AssociatedContractNotSet,
    /// The registration fee denominator is zero.
    ZeroDenominator,
    /// The token metadata is not available.
    MetadataUnavailable,
    /// The attached deposit does not cover one account's storage.
    InsufficientStorageDeposit,
    /// More than the available storage balance was asked for.
    StorageAmountTooHigh,
    /// An account with a positive balance can only be unregistered by force.
    UnregisterWithBalance,
    /// Only the contract account itself may make this call.
    PrivateMethod,
}

/// A registered account's storage standing: what it paid and what is left
/// over.
#[derive(Clone, Copy, PartialEq, Eq, Structural, Debug)]
pub struct StorageBalance {
    /// What the account paid for storage, in yoctotokens.
    pub total: u128,
    /// What it could withdraw again: always zero here.
    pub available: u128,
}

/// The storage deposit a new account must bring.
#[derive(Clone, Copy, PartialEq, Eq, Structural, Debug)]
pub struct StorageBalanceBounds {
    /// The smallest accepted deposit, in yoctotokens.
    pub min: u128,
    /// The largest useful deposit.
    pub max: Option<u128>,
}

/// The transfer-and-call promise a `ft_transfer_call` hands to the host: the
/// receiving contract is told of the transfer and may return a part of it.
#[derive(PartialEq, Eq, Debug)]
pub struct FtOnTransferCall {
    /// Whose tokens were sent.
    pub sender: AccountId,
    /// The contract account that received them.
    pub receiver: AccountId,
    /// How many were sent.
    pub amount: u128,
    /// The message for the receiving contract.
    pub msg: String,
}

/// The yoctotoken price of one account's storage, saturating like the host's
/// multiplication.
pub open spec fn spec_min_storage_balance(usage: u64) -> u128 {
    if STORAGE_BYTE_COST * usage > u128::MAX {
        u128::MAX
    } else {
        (STORAGE_BYTE_COST * usage) as u128
    }
}

/// The token state: one balance per registered account, and the total supply.
pub struct FungibleToken {
    /// Registered accounts and their balances.
    pub accounts: AccountLedger<u128>,
    /// The sum the contract believes is in circulation.
    pub total_supply: u128,
    /// The storage one balance entry takes, in bytes.
    pub account_storage_usage: u64,
}

impl FungibleToken {
    /// The balance ledger has one entry per account.
    pub open spec fn wf(self) -> bool {
        self.accounts.wf()
    }

    /// True when the account has a balance entry.
    pub open spec fn registered(self, a: Seq<char>) -> bool {
        self.accounts.spec_contains(a)
    }

    /// The account's balance: zero when it is not registered.
    pub open spec fn balance_of(self, a: Seq<char>) -> u128 {
        match self.accounts.spec_get(a) {
            Some(b) => b,
            None => 0u128,
        }
    }

    /// The books never undercount: the recorded supply covers what the
    /// balances add up to.  Tokens can be lost (minted for an account that
    /// holds no entry), never conjured, so every call keeps this.
    pub open spec fn supply_covers_balances(self) -> bool {
        self.accounts.total() <= self.total_supply
    }

    /// The storage deposit one account must bring.
    pub open spec fn spec_storage_min(self) -> u128 {
        spec_min_storage_balance(self.account_storage_usage)
    }

    /// A fresh token: nothing registered, nothing in circulation.
    pub fn new() -> (r: Self)
        ensures
            r.wf(),
            r.total_supply == 0,
            r.accounts.len_spec() == 0,
            forall|a: Seq<char>| !r.registered(a),
            r.account_storage_usage == ACCOUNT_STORAGE_USAGE,
            r.accounts.total() == 0,
            r.supply_covers_balances(),
    {
        let r = FungibleToken {
            accounts: AccountLedger::new(),
            total_supply: 0,
            account_storage_usage: ACCOUNT_STORAGE_USAGE,
        };
        proof {
            r.accounts.lemma_total_empty();
        }
        r
    }

    /// Registers `account_id` with a zero balance; an account can register
    /// only once.
    pub fn internal_register_account(&mut self, account_id: &AccountId) -> (r: Result<
        (),
        TokenError,
    >)
        requires
            old(self).wf(),
        ensures
            final(self).wf(),
            final(self).total_supply == old(self).total_supply,
            final(self).account_storage_usage == old(self).account_storage_usage,
            final(self).accounts.total() == old(self).accounts.total(),
            old(self).registered(account_id@) ==> r == Err::<(), TokenError>(
                TokenError::AlreadyRegistered,
            ) && *final(self) == *old(self),
            !old(self).registered(account_id@) ==> {
                &&& r == Ok::<(), TokenError>(())
                &&& final(self).accounts.spec_get(account_id@) == Some(0u128)
                &&& forall|a: Seq<char>|
                    a != account_id@ ==> #[trigger] final(self).accounts.spec_get(a)
                        == old(self).accounts.spec_get(a)
                &&& final(self).accounts.key_seq() == old(self).accounts.key_seq().push(
                    account_id@,
                )
            },
    {
        if self.accounts.contains_key(account_id) {
            Err(TokenError::AlreadyRegistered)
        } else {
            self.accounts.insert_balance(account_id, 0);
            Ok(())
        }
    }

    /// Adds `amount` to a registered account's balance and to the total
    /// supply.
    pub fn internal_deposit(&mut self, account_id: &AccountId, amount: u128) -> (r: Result<
        (),
        TokenError,
    >)
        requires
            old(self).wf(),
        ensures
            final(self).wf(),
            final(self).account_storage_usage == old(self).account_storage_usage,
            r == Self::deposit_check(*old(self), account_id@, amount),
            r is Err ==> *final(self) == *old(self),
            r is Ok ==> {
                &&& final(self).accounts.spec_get(account_id@) == Some(
                    (old(self).balance_of(account_id@) + amount) as u128,
                )
                &&& forall|a: Seq<char>|
                    a != account_id@ ==> #[trigger] final(self).accounts.spec_get(a)
                        == old(self).accounts.spec_get(a)
                &&& final(self).accounts.key_seq() == old(self).accounts.key_seq()
                &&& final(self).total_supply == old(self).total_supply + amount
                &&& final(self).accounts.total() == old(self).accounts.total() + amount
            },
    {
        match self.accounts.get(account_id) {
            Some(balance) => {
                match balance.checked_add(amount) {
                    Some(new_balance) => {
                        match self.total_supply.checked_add(amount) {
                            Some(new_supply) => {
                                self.accounts.insert_balance(account_id, new_balance);
                                self.total_supply = new_supply;
                                Ok(())
                            },
                            None => Err(TokenError::TotalSupplyOverflow),
                        }
                    },
                    None => Err(TokenError::BalanceOverflow),
                }
            },
            None => Err(TokenError::NotRegistered),
        }
    }

    /// How a deposit of `amount` into `a` ends: which error it aborts with,
    /// if any.
    pub open spec fn deposit_check(s: Self, a: Seq<char>, amount: u128) -> Result<(), TokenError> {
        if !s.registered(a) {
            Err(TokenError::NotRegistered)
        } else if s.balance_of(a) + amount > u128::MAX {
            Err(TokenError::BalanceOverflow)
        } else if s.total_supply + amount > u128::MAX {
            Err(TokenError::TotalSupplyOverflow)
        } else {
            Ok(())
        }
    }

    /// Takes `amount` from a registered account's balance and from the total
    /// supply.
    pub fn internal_withdraw(&mut self, account_id: &AccountId, amount: u128) -> (r: Result<
        (),
        TokenError,
    >)
        requires
            old(self).wf(),
        ensures
            final(self).wf(),
            final(self).account_storage_usage == old(self).account_storage_usage,
            r == Self::withdraw_check(*old(self), account_id@, amount),
            r is Err ==> *final(self) == *old(self),
            r is Ok ==> {
                &&& final(self).accounts.spec_get(account_id@) == Some(
                    (old(self).balance_of(account_id@) - amount) as u128,
                )
                &&& forall|a: Seq<char>|
                    a != account_id@ ==> #[trigger] final(self).accounts.spec_get(a)
                        == old(self).accounts.spec_get(a)
                &&& final(self).accounts.key_seq() == old(self).accounts.key_seq()
                &&& final(self).total_supply == old(self).total_supply - amount
                &&& final(self).accounts.total() == old(self).accounts.total() - amount
            },
    {
        match self.accounts.get(account_id) {
            Some(balance) => {
                match balance.checked_sub(amount) {
                    Some(new_balance) => {
                        match self.total_supply.checked_sub(amount) {
                            Some(new_supply) => {
                                self.accounts.insert_balance(account_id, new_balance);
                                self.total_supply = new_supply;
                                Ok(())
                            },
                            None => Err(TokenError::TotalSupplyOverflow),
                        }
                    },
                    None => Err(TokenError::NotEnoughBalance),
                }
            },
            None => Err(TokenError::NotRegistered),
        }
    }

    /// How a withdrawal of `amount` from `a` ends.
    pub open spec fn withdraw_check(s: Self, a: Seq<char>, amount: u128) -> Result<(), TokenError> {
        if !s.registered(a) {
            Err(TokenError::NotRegistered)
        } else if s.balance_of(a) < amount {
            Err(TokenError::NotEnoughBalance)
        } else if s.total_supply < amount {
            Err(TokenError::TotalSupplyOverflow)
        } else {
            Ok(())
        }
    }

    /// How moving `amount` from `sender` to `receiver` ends.
    pub open spec fn transfer_check(
        s: Self,
        sender: Seq<char>,
        receiver: Seq<char>,
        amount: u128,
    ) -> Result<(), TokenError> {
        if sender == receiver {
            Err(TokenError::SelfTransfer)
        } else if amount == 0 {
            Err(TokenError::ZeroAmount)
        } else if Self::withdraw_check(s, sender, amount) is Err {
            Self::withdraw_check(s, sender, amount)
        } else if !s.registered(receiver) {
            Err(TokenError::NotRegistered)
        } else if s.balance_of(receiver) + amount > u128::MAX {
            Err(TokenError::BalanceOverflow)
        } else {
            Ok(())
        }
    }

    /// Moves `amount` from `sender` to `receiver`; both must be registered,
    /// distinct, and the amount positive.  The supply is untouched.
    pub fn internal_transfer(
        &mut self,
        sender_id: &AccountId,
        receiver_id: &AccountId,
        amount: u128,
    ) -> (r: Result<(), TokenError>)
        requires
            old(self).wf(),
        ensures
            final(self).wf(),
            final(self).account_storage_usage == old(self).account_storage_usage,
            r == Self::transfer_check(*old(self), sender_id@, receiver_id@, amount),
            r is Err ==> *final(self) == *old(self),
            r is Ok ==> {
                &&& final(self).accounts.spec_get(sender_id@) == Some(
                    (old(self).balance_of(sender_id@) - amount) as u128,
                )
                &&& final(self).accounts.spec_get(receiver_id@) == Some(
                    (old(self).balance_of(receiver_id@) + amount) as u128,
                )
                &&& forall|a: Seq<char>|
                    a != sender_id@ && a != receiver_id@
                        ==> #[trigger] final(self).accounts.spec_get(a)
                            == old(self).accounts.spec_get(a)
                &&& final(self).accounts.key_seq() == old(self).accounts.key_seq()
                &&& final(self).total_supply == old(self).total_supply
                &&& final(self).accounts.total() == old(self).accounts.total()
            },
    {
        if sender_id.eq_id(receiver_id) {
            return Err(TokenError::SelfTransfer);
        }
        if amount == 0 {
            return Err(TokenError::ZeroAmount);
        }
        // Check the receiving side before any state changes, so that an abort
        // leaves the state as the host's rollback would.
        let sender_balance = match self.accounts.get(sender_id) {
            Some(b) => b,
            None => {
                return Err(TokenError::NotRegistered);
            },
        };
        if sender_balance < amount {
            return Err(TokenError::NotEnoughBalance);
        }
        if self.total_supply < amount {
            return Err(TokenError::TotalSupplyOverflow);
        }
        let receiver_balance = match self.accounts.get(receiver_id) {
            Some(b) => b,
            None => {
                return Err(TokenError::NotRegistered);
            },
        };
        match receiver_balance.checked_add(amount) {
            Some(new_receiver_balance) => {
                self.accounts.insert_balance(sender_id, sender_balance - amount);
                self.accounts.insert_balance(receiver_id, new_receiver_balance);
                Ok(())
            },
            None => Err(TokenError::BalanceOverflow),
        }
    }

    /// The supply the contract believes is in circulation.
    pub fn ft_total_supply(&self) -> (r: u128)
        ensures
            r == self.total_supply,
    {
        self.total_supply
    }

    /// The account's balance; an unregistered account reads as zero.
    pub fn ft_balance_of(&self, account_id: &AccountId) -> (r: u128)
        ensures
            r == self.balance_of(account_id@),
    {
        match self.accounts.get(account_id) {
            Some(b) => b,
            None => 0,
        }
    }

    /// Transfers `amount` from the calling account to `receiver_id`.  The
    /// call must attach exactly one yoctotoken.
    pub fn ft_transfer(&mut self, ctx: &Context, receiver_id: &AccountId, amount: u128) -> (r:
        Result<(), TokenError>)
        requires
            old(self).wf(),
        ensures
            final(self).wf(),
            final(self).account_storage_usage == old(self).account_storage_usage,
            r == Self::ft_transfer_check(*old(self), *ctx, receiver_id@, amount),
            r is Err ==> *final(self) == *old(self),
            r is Ok ==> {
                &&& final(self).accounts.spec_get(ctx.predecessor_account_id@) == Some(
                    (old(self).balance_of(ctx.predecessor_account_id@) - amount) as u128,
                )
                &&& final(self).accounts.spec_get(receiver_id@) == Some(
                    (old(self).balance_of(receiver_id@) + amount) as u128,
                )
                &&& forall|a: Seq<char>|
                    a != ctx.predecessor_account_id@ && a != receiver_id@
                        ==> #[trigger] final(self).accounts.spec_get(a)
                            == old(self).accounts.spec_get(a)
                &&& final(self).accounts.key_seq() == old(self).accounts.key_seq()
                &&& final(self).total_supply == old(self).total_supply
                &&& final(self).accounts.total() == old(self).accounts.total()
            },
    {
        if ctx.attached_deposit != 1 {
            return Err(TokenError::OneYoctoRequired);
        }
        self.internal_transfer(&ctx.predecessor_account_id, receiver_id, amount)
    }

    /// How a `ft_transfer` by the account calling in `ctx` ends.
    pub open spec fn ft_transfer_check(
        s: Self,
        ctx: Context,
        receiver: Seq<char>,
        amount: u128,
    ) -> Result<(), TokenError> {
        if ctx.attached_deposit != 1 {
            Err(TokenError::OneYoctoRequired)
        } else {
            Self::transfer_check(s, ctx.predecessor_account_id@, receiver, amount)
        }
    }

    /// Like [`FungibleToken::ft_transfer`], and on success also hands back
    /// the call that tells `receiver_id` about the transfer; the host later
    /// reports the receiver's answer to
    /// [`FungibleToken::internal_ft_resolve_transfer`].
    pub fn ft_transfer_call(
        &mut self,
        ctx: &Context,
        receiver_id: &AccountId,
        amount: u128,
        msg: String,
    ) -> (r: Result<FtOnTransferCall, TokenError>)
        requires
            old(self).wf(),
        ensures
            final(self).wf(),
            final(self).account_storage_usage == old(self).account_storage_usage,
            r is Err ==> *final(self) == *old(self),
            r matches Err(e) ==> Err::<(), TokenError>(e) == Self::ft_transfer_check(
                *old(self),
                *ctx,
                receiver_id@,
                amount,
            ),
            r is Ok ==> Self::ft_transfer_check(*old(self), *ctx, receiver_id@, amount) is Ok,
            r matches Ok(call) ==> {
                &&& call.sender@ == ctx.predecessor_account_id@
                &&& call.receiver@ == receiver_id@
                &&& call.amount == amount
                &&& call.msg@ == msg@
                &&& final(self).accounts.spec_get(ctx.predecessor_account_id@) == Some(
                    (old(self).balance_of(ctx.predecessor_account_id@) - amount) as u128,
                )
                &&& final(self).accounts.spec_get(receiver_id@) == Some(
                    (old(self).balance_of(receiver_id@) + amount) as u128,
                )
                &&& forall|a: Seq<char>|
                    a != ctx.predecessor_account_id@ && a != receiver_id@
                        ==> #[trigger] final(self).accounts.spec_get(a)
                            == old(self).accounts.spec_get(a)
                &&& final(self).accounts.key_seq() == old(self).accounts.key_seq()
                &&& final(self).total_supply == old(self).total_supply
                &&& final(self).accounts.total() == old(self).accounts.total()
            },
    {
        if ctx.attached_deposit != 1 {
            return Err(TokenError::OneYoctoRequired);
        }
        let sender = ctx.predecessor_account_id.clone();
        match self.internal_transfer(&sender, receiver_id, amount) {
            Ok(()) => Ok(
                FtOnTransferCall { sender, receiver: receiver_id.clone(), amount, msg },
            ),
            Err(e) => Err(e),
        }
    }

    /// Settles a transfer-and-call after the receiver answered.
    ///
    /// `callback_unused` is what the receiver reported as unused: `None` when
    /// the call failed or its answer could not be read, which counts as the
    /// whole amount.  Up to the receiver's current balance is moved back to
    /// the sender; what should move back but cannot stays with the receiver,
    /// and a refund for a sender that unregistered meanwhile is burned.
    /// Returns the amount the receiver kept and the amount burned.
    pub fn internal_ft_resolve_transfer(
        &mut self,
        sender_id: &AccountId,
        receiver_id: &AccountId,
        amount: u128,
        callback_unused: Option<u128>,
    ) -> (r: Result<(u128, u128), TokenError>)
        requires
            old(self).wf(),
        ensures
            final(self).wf(),
            final(self).account_storage_usage == old(self).account_storage_usage,
            r is Err ==> *final(self) == *old(self),
            ({
                let refund = Self::resolve_refund(*old(self), receiver_id@, amount, callback_unused);
                if refund == 0 {
                    r == Ok::<(u128, u128), TokenError>((amount, 0u128)) && *final(self) == *old(
                        self,
                    )
                } else if sender_id@ == receiver_id@ {
                    // The refund goes back to where it came from.
                    r == Ok::<(u128, u128), TokenError>(((amount - refund) as u128, 0u128))
                        && *final(self) == *old(self)
                } else if old(self).registered(sender_id@) {
                    if old(self).balance_of(sender_id@) + refund > u128::MAX {
                        r == Err::<(u128, u128), TokenError>(TokenError::BalanceOverflow)
                    } else {
                        &&& r == Ok::<(u128, u128), TokenError>(((amount - refund) as u128, 0u128))
                        &&& final(self).accounts.spec_get(receiver_id@) == Some(
                            (old(self).balance_of(receiver_id@) - refund) as u128,
                        )
                        &&& final(self).accounts.spec_get(sender_id@) == Some(
                            (old(self).balance_of(sender_id@) + refund) as u128,
                        )
                        &&& forall|a: Seq<char>|
                            a != sender_id@ && a != receiver_id@
                                ==> #[trigger] final(self).accounts.spec_get(a)
                                    == old(self).accounts.spec_get(a)
                        &&& final(self).total_supply == old(self).total_supply
                        &&& final(self).accounts.key_seq() == old(self).accounts.key_seq()
                        &&& final(self).accounts.total() == old(self).accounts.total()
                    }
                } else {
                    if old(self).total_supply < refund {
                        r == Err::<(u128, u128), TokenError>(TokenError::TotalSupplyOverflow)
                    } else {
                        &&& r == Ok::<(u128, u128), TokenError>((amount, refund))
                        &&& final(self).accounts.spec_get(receiver_id@) == Some(
                            (old(self).balance_of(receiver_id@) - refund) as u128,
                        )
                        &&& forall|a: Seq<char>|
                            a != receiver_id@ ==> #[trigger] final(self).accounts.spec_get(a)
                                == old(self).accounts.spec_get(a)
                        &&& final(self).total_supply == old(self).total_supply - refund
                        &&& final(self).accounts.key_seq() == old(self).accounts.key_seq()
                        &&& final(self).accounts.total() == old(self).accounts.total() - refund
                    }
                }
            }),
    {
        let unused_amount = match callback_unused {
            Some(u) =>
                if u < amount {
                    u
                } else {
                    amount
                },
            None => amount,
        };
        if unused_amount > 0 {
            let receiver_balance = self.ft_balance_of(receiver_id);
            if receiver_balance > 0 {
                let refund_amount = if receiver_balance < unused_amount {
                    receiver_balance
                } else {
                    unused_amount
                };
                if sender_id.eq_id(receiver_id) {
                    // The refund would leave and re-enter the same account.
                    return Ok(((amount - refund_amount), 0));
                }
                match self.accounts.get(sender_id) {
                    Some(sender_balance) => {
                        match sender_balance.checked_add(refund_amount) {
                            Some(new_sender_balance) => {
                                self.accounts.insert_balance(
                                    receiver_id,
                                    receiver_balance - refund_amount,
                                );
                                self.accounts.insert_balance(sender_id, new_sender_balance);
                                Ok(((amount - refund_amount), 0))
                            },
                            None => Err(TokenError::BalanceOverflow),
                        }
                    },
                    None => {
                        // The sender unregistered while the call was in
                        // flight: the refund has nowhere to go and is burned.
                        match self.total_supply.checked_sub(refund_amount) {
                            Some(new_supply) => {
                                self.accounts.insert_balance(
                                    receiver_id,
                                    receiver_balance - refund_amount,
                                );
                                self.total_supply = new_supply;
                                Ok((amount, refund_amount))
                            },
                            None => Err(TokenError::TotalSupplyOverflow),
                        }
                    },
                }
            } else {
                Ok((amount, 0))
            }
        } else {
            Ok((amount, 0))
        }
    }

    /// What the receiver counts as unused: its answer, capped at the amount;
    /// a failed call counts whole.
    pub open spec fn resolve_unused(amount: u128, callback_unused: Option<u128>) -> u128 {
        match callback_unused {
            Some(u) => if u < amount {
                u
            } else {
                amount
            },
            None => amount,
        }
    }

    /// What actually moves back to the sender: the unused part, capped at the
    /// receiver's current balance.
    pub open spec fn resolve_refund(
        s: Self,
        receiver: Seq<char>,
        amount: u128,
        callback_unused: Option<u128>,
    ) -> u128 {
        let unused = Self::resolve_unused(amount, callback_unused);
        if s.balance_of(receiver) < unused {
            s.balance_of(receiver)
        } else {
            unused
        }
    }

    /// The storage deposit an account must bring, as the byte price times the
    /// bytes one entry takes; the minimum and maximum coincide.
    pub fn storage_balance_bounds(&self) -> (r: StorageBalanceBounds)
        ensures
            r.min == self.spec_storage_min(),
            r.max == Some(self.spec_storage_min()),
    {
        let min = match STORAGE_BYTE_COST.checked_mul(self.account_storage_usage as u128) {
            Some(v) => v,
            None => u128::MAX,
        };
        StorageBalanceBounds { min, max: Some(min) }
    }

    /// The storage standing of `account_id`, when it is registered.
    pub fn storage_balance_of(&self, account_id: &AccountId) -> (r: Option<StorageBalance>)
        ensures
            r == if self.registered(account_id@) {
                Some(
                    StorageBalance { total: self.spec_storage_min(), available: 0u128 },
                )
            } else {
                None::<StorageBalance>
            },
    {
        if self.accounts.contains_key(account_id) {
            Some(StorageBalance { total: self.storage_balance_bounds().min, available: 0 })
        } else {
            None
        }
    }

    /// Registers `account_id` (the caller when none is named) for the
    /// attached deposit.  A deposit beyond the storage price — or all of it,
    /// when the account was already registered — is handed back to the
    /// caller.
    pub fn storage_deposit(&mut self, ctx: &Context, account_id: Option<&AccountId>) -> (r: Result<
        (StorageBalance, Option<TransferAction>),
        TokenError,
    >)
        requires
            old(self).wf(),
        ensures
            final(self).wf(),
            final(self).account_storage_usage == old(self).account_storage_usage,
            final(self).total_supply == old(self).total_supply,
            final(self).accounts.total() == old(self).accounts.total(),
            r is Err ==> *final(self) == *old(self),
            ({
                let a = if account_id is Some {
                    account_id->Some_0@
                } else {
                    ctx.predecessor_account_id@
                };
                let min = old(self).spec_storage_min();
                if old(self).registered(a) {
                    &&& r is Ok
                    &&& *final(self) == *old(self)
                    &&& r->Ok_0.0 == (StorageBalance { total: min, available: 0u128 })
                    &&& ctx.attached_deposit > 0 ==> (r->Ok_0.1 matches Some(t) && t.receiver@
                        == ctx.predecessor_account_id@ && t.amount == ctx.attached_deposit)
                    &&& ctx.attached_deposit == 0 ==> r->Ok_0.1 is None
                } else if ctx.attached_deposit < min {
                    r == Err::<(StorageBalance, Option<TransferAction>), TokenError>(
                        TokenError::InsufficientStorageDeposit,
                    )
                } else {
                    &&& r is Ok
                    &&& final(self).accounts.spec_get(a) == Some(0u128)
                    &&& forall|b: Seq<char>|
                        b != a ==> #[trigger] final(self).accounts.spec_get(b)
                            == old(self).accounts.spec_get(b)
                    &&& final(self).accounts.key_seq() == old(self).accounts.key_seq().push(a)
                    &&& r->Ok_0.0 == (StorageBalance { total: min, available: 0u128 })
                    &&& ctx.attached_deposit > min ==> (r->Ok_0.1 matches Some(t) && t.receiver@
                        == ctx.predecessor_account_id@ && t.amount == ctx.attached_deposit - min)
                    &&& ctx.attached_deposit == min ==> r->Ok_0.1 is None
                }
            }),
    {
        let amount = ctx.attached_deposit;
        let account = match account_id {
            Some(a) => a,
            None => &ctx.predecessor_account_id,
        };
        let min_balance = self.storage_balance_bounds().min;
        if self.accounts.contains_key(account) {
            // Already registered: the whole deposit goes back.
            let refund = if amount > 0 {
                Some(TransferAction { receiver: ctx.predecessor_account_id.clone(), amount })
            } else {
                None
            };
            Ok((StorageBalance { total: min_balance, available: 0 }, refund))
        } else {
            if amount < min_balance {
                return Err(TokenError::InsufficientStorageDeposit);
            }
            self.accounts.insert_balance(account, 0);
            let left_over = amount - min_balance;
            let refund = if left_over > 0 {
                Some(
                    TransferAction {
                        receiver: ctx.predecessor_account_id.clone(),
                        amount: left_over,
                    },
                )
            } else {
                None
            };
            Ok((StorageBalance { total: min_balance, available: 0 }, refund))
        }
    }

    /// Reports the caller's storage standing.  Nothing can be withdrawn: the
    /// available balance is always zero, so any positive amount is refused.
    /// The call must attach exactly one yoctotoken.
    pub fn storage_withdraw(&mut self, ctx: &Context, amount: Option<u128>) -> (r: Result<
        StorageBalance,
        TokenError,
    >)
        requires
            old(self).wf(),
        ensures
            final(self).wf(),
            *final(self) == *old(self),
            r == if ctx.attached_deposit != 1 {
                Err::<StorageBalance, TokenError>(TokenError::OneYoctoRequired)
            } else if !old(self).registered(ctx.predecessor_account_id@) {
                Err::<StorageBalance, TokenError>(TokenError::NotRegistered)
            } else if amount matches Some(a) && a > 0 {
                Err::<StorageBalance, TokenError>(TokenError::StorageAmountTooHigh)
            } else {
                Ok::<StorageBalance, TokenError>(
                    StorageBalance { total: old(self).spec_storage_min(), available: 0u128 },
                )
            },
    {
        if ctx.attached_deposit != 1 {
            return Err(TokenError::OneYoctoRequired);
        }
        if !self.accounts.contains_key(&ctx.predecessor_account_id) {
            return Err(TokenError::NotRegistered);
        }
        match amount {
            Some(a) if a > 0 => Err(TokenError::StorageAmountTooHigh),
            _ => Ok(StorageBalance { total: self.storage_balance_bounds().min, available: 0 }),
        }
    }

    /// Unregisters the caller and burns what it still held; an account with a
    /// positive balance is only closed when `force` says so.  On success the
    /// storage deposit, plus the attached yoctotoken, goes back to the
    /// caller; the closed balance is returned for the contract to log.
    /// Returns `Ok(None)` when the caller was not registered.  The call must
    /// attach exactly one yoctotoken.
    pub fn internal_storage_unregister(&mut self, ctx: &Context, force: Option<bool>) -> (r: Result<
        Option<(u128, TransferAction)>,
        TokenError,
    >)
        requires
            old(self).wf(),
        ensures
            final(self).wf(),
            final(self).account_storage_usage == old(self).account_storage_usage,
            r is Err ==> *final(self) == *old(self),
            ({
                let a = ctx.predecessor_account_id@;
                let balance = old(self).balance_of(a);
                if ctx.attached_deposit != 1 {
                    r == Err::<Option<(u128, TransferAction)>, TokenError>(
                        TokenError::OneYoctoRequired,
                    )
                } else if !old(self).registered(a) {
                    r == Ok::<Option<(u128, TransferAction)>, TokenError>(
                        None::<(u128, TransferAction)>,
                    ) && *final(self) == *old(self)
                } else if balance != 0 && force != Some(true) {
                    r == Err::<Option<(u128, TransferAction)>, TokenError>(
                        TokenError::UnregisterWithBalance,
                    )
                } else if old(self).total_supply < balance {
                    r == Err::<Option<(u128, TransferAction)>, TokenError>(
                        TokenError::TotalSupplyOverflow,
                    )
                } else {
                    &&& final(self).accounts.spec_get(a) == None::<u128>
                    &&& forall|b: Seq<char>|
                        b != a ==> #[trigger] final(self).accounts.spec_get(b)
                            == old(self).accounts.spec_get(b)
                    &&& final(self).total_supply == old(self).total_supply - balance
                    &&& final(self).accounts.total() == old(self).accounts.total() - balance
                    &&& r is Ok
                    &&& r->Ok_0 matches Some(out)
                    &&& out.0 == balance
                    &&& out.1.receiver@ == a
                    &&& out.1.amount == old(self).spec_storage_min().saturating_add(1)
                }
            }),
    {
        if ctx.attached_deposit != 1 {
            return Err(TokenError::OneYoctoRequired);
        }
        let account = &ctx.predecessor_account_id;
        let force = match force {
            Some(f) => f,
            None => false,
        };
        match self.accounts.get(account) {
            Some(balance) => {
                if balance == 0 || force {
                    match self.total_supply.checked_sub(balance) {
                        Some(new_supply) => {
                            self.accounts.remove_balance(account);
                            self.total_supply = new_supply;
                            let refund = TransferAction {
                                receiver: account.clone(),
                                amount: self.storage_balance_bounds().min.saturating_add(1),
                            };
                            Ok(Some((balance, refund)))
                        },
                        None => Err(TokenError::TotalSupplyOverflow),
                    }
                } else {
                    Err(TokenError::UnregisterWithBalance)
                }
            },
            None => Ok(None),
        }
    }
}

} // verus!
