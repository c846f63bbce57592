//! A simple staking contract.
//!
//! Users stake the deposit they attach and may unstake any amount later; the
//! owner can ask for an airdrop to every staker.  The accounting is flawed on
//! purpose, and the contracts below state the flaws exactly:
//!
//! * `unstake` caps the debit with a saturating subtraction instead of
//!   rejecting an amount above the user's balance, and it reduces the total
//!   staked by the *requested* amount rather than by what the user really had;
//! * when a balance reaches zero, `unstake` refunds the user's *previous
//!   balance* instead of the unstaked amount;
//! * `airdrop` accepts a zero amount and pays it to every staker anyway, and
//!   never checks the contract's own balance.

use vstd::prelude::*;

use crate::account::AccountId;
use crate::context::Context;
use crate::context::TransferAction;
use crate::ledger::AccountLedger;

verus! {

/// Why a staking call aborts.
#[derive(Clone, Copy, PartialEq, Eq, Structural, Debug)]
pub enum StakingError {
    /// The amount to unstake was zero.
    ZeroAmount,
    /// Someone other than the owner asked for an airdrop.
    NotOwner,
}

/// The staking contract's state.
pub struct StakingContract {
    /// The account that created the contract.
    pub owner: AccountId,
    /// Each user's staked balance, in order of first stake.
    pub stake_balances: AccountLedger<u128>,
    /// The contract's running total of staked tokens.
    pub total_staked: u128,
}

impl StakingContract {
    /// The balance ledger has one entry per user.
    pub open spec fn wf(self) -> bool {
        self.stake_balances.wf()
    }

    /// The stake recorded for `user`: zero when the user never staked.
    pub open spec fn staked_of(self, user: Seq<char>) -> u128 {
        match self.stake_balances.spec_get(user) {
            Some(b) => b,
            None => 0u128,
        }
    }

    /// Creates the contract, owned by the calling account, with nothing
    /// staked.
    pub fn new(ctx: &Context) -> (r: Self)
        ensures
            r.wf(),
            r.owner@ == ctx.predecessor_account_id@,
            r.total_staked == 0,
            r.stake_balances.len_spec() == 0,
            forall|u: Seq<char>| r.staked_of(u) == 0,
    {
        StakingContract {
            owner: ctx.predecessor_account_id.clone(),
            stake_balances: AccountLedger::new(),
            total_staked: 0,
        }
    }

    /// Stakes the attached deposit for the calling account and returns the
    /// account's new balance.  Both the balance and the running total
    /// saturate instead of overflowing.
    pub fn stake(&mut self, ctx: &Context) -> (r: u128)
        requires
            old(self).wf(),
        ensures
            final(self).wf(),
            r == old(self).staked_of(ctx.predecessor_account_id@).saturating_add(
                ctx.attached_deposit,
            ),
            final(self).staked_of(ctx.predecessor_account_id@) == r,
            final(self).stake_balances.spec_get(ctx.predecessor_account_id@) == Some(r),
            forall|u: Seq<char>|
                u != ctx.predecessor_account_id@
                    ==> #[trigger] final(self).stake_balances.spec_get(u)
                        == old(self).stake_balances.spec_get(u),
            final(self).total_staked == old(self).total_staked.saturating_add(
                ctx.attached_deposit,
            ),
            final(self).owner == old(self).owner,
            old(self).stake_balances.spec_contains(ctx.predecessor_account_id@)
                ==> final(self).stake_balances.key_seq() == old(self).stake_balances.key_seq(),
            !old(self).stake_balances.spec_contains(ctx.predecessor_account_id@)
                ==> final(self).stake_balances.key_seq()
                    == old(self).stake_balances.key_seq().push(ctx.predecessor_account_id@),
    {
        let deposit = ctx.attached_deposit;
        let user = &ctx.predecessor_account_id;
        let new_balance = match self.stake_balances.get(user) {
            Some(balance) => balance.saturating_add(deposit),
            None => deposit,
        };
        self.stake_balances.insert(user, new_balance);
        self.total_staked = self.total_staked.saturating_add(deposit);
        new_balance
    }

    /// Unstakes `amount` for the calling account.
    ///
    /// Returns `Ok((true, Some(refund)))` when the account has a stake
    /// record, `Ok((false, None))` when it has none, and an error when the
    /// amount is zero.  The recorded balance is reduced with a saturating
    /// subtraction, so asking for more than the balance clears it; the
    /// running total is reduced by the *requested* amount, also saturating.
    /// The refund is the unstaked amount, except that a balance which reaches
    /// zero is refunded at its previous value.
    pub fn unstake(&mut self, ctx: &Context, amount: u128) -> (r: Result<
        (bool, Option<TransferAction>),
        StakingError,
    >)
        requires
            old(self).wf(),
        ensures
            final(self).wf(),
            final(self).owner == old(self).owner,
            amount == 0 ==> r == Err::<(bool, Option<TransferAction>), StakingError>(
                StakingError::ZeroAmount,
            ) && *final(self) == *old(self),
            amount > 0 && !old(self).stake_balances.spec_contains(ctx.predecessor_account_id@)
                ==> r == Ok::<(bool, Option<TransferAction>), StakingError>((
                false,
                None::<TransferAction>,
            )) && *final(self) == *old(self),
            amount > 0 && old(self).stake_balances.spec_contains(ctx.predecessor_account_id@) ==> {
                let user = ctx.predecessor_account_id@;
                let balance = old(self).staked_of(user);
                let new_balance = balance.saturating_sub(amount);
                &&& final(self).stake_balances.spec_get(user) == Some(new_balance)
                &&& forall|u: Seq<char>|
                    u != user ==> #[trigger] final(self).stake_balances.spec_get(u)
                        == old(self).stake_balances.spec_get(u)
                &&& final(self).stake_balances.key_seq() == old(self).stake_balances.key_seq()
                &&& final(self).total_staked == old(self).total_staked.saturating_sub(amount)
                &&& r is Ok
                &&& r->Ok_0.0 == true
                &&& r->Ok_0.1 is Some
                &&& r->Ok_0.1->Some_0.receiver@ == user
                &&& r->Ok_0.1->Some_0.amount == if new_balance == 0 {
                    balance
                } else {
                    amount
                }
            },
    {
        if amount == 0 {
            return Err(StakingError::ZeroAmount);
        }
        let user = &ctx.predecessor_account_id;
        match self.stake_balances.get(user) {
            Some(balance) => {
                let new_balance = balance.saturating_sub(amount);
                self.stake_balances.insert(user, new_balance);
                self.total_staked = self.total_staked.saturating_sub(amount);
                let refund = if new_balance == 0 {
                    // The whole balance is gone: refund what the user had.
                    balance
                } else {
                    // A part remains: refund just the requested amount.
                    amount
                };
                Ok((true, Some(TransferAction { receiver: user.clone(), amount: refund })))
            },
            None => Ok((false, None)),
        }
    }

    /// Pays `amount` to every staker, in the order they first staked.  Only
    /// the owner may call this; nothing checks that the amount is positive or
    /// that the contract can cover the transfers.
    pub fn airdrop(&mut self, ctx: &Context, amount: u128) -> (r: Result<
        Vec<TransferAction>,
        StakingError,
    >)
        requires
            old(self).wf(),
        ensures
            *final(self) == *old(self),
            ctx.predecessor_account_id@ != old(self).owner@ ==> r == Err::<
                Vec<TransferAction>,
                StakingError,
            >(StakingError::NotOwner),
            ctx.predecessor_account_id@ == old(self).owner@ ==> {
                &&& r is Ok
                &&& r->Ok_0@.len() == old(self).stake_balances.len_spec()
                &&& forall|i: int|
                    0 <= i < r->Ok_0@.len() ==> (#[trigger] r->Ok_0@[i]).receiver@
                        == old(self).stake_balances.key_seq()[i] && r->Ok_0@[i].amount == amount
            },
    {
        if !ctx.predecessor_account_id.eq_id(&self.owner) {
            return Err(StakingError::NotOwner);
        }
        let n = self.stake_balances.len();
        let mut transfers: Vec<TransferAction> = Vec::new();
        let mut i: usize = 0;
        while i < n
            invariant
                n == self.stake_balances.len_spec(),
                0 <= i <= n,
                transfers@.len() == i,
                forall|j: int|
                    0 <= j < i ==> (#[trigger] transfers@[j]).receiver@
                        == self.stake_balances.key_seq()[j] && transfers@[j].amount == amount,
            decreases n - i,
        {
            let staker = self.stake_balances.key_at(i);
            transfers.push(TransferAction { receiver: staker.clone(), amount });
            i = i + 1;
        }
        Ok(transfers)
    }

    /// The running total of staked tokens.
    pub fn get_total_staked(&self) -> (r: u128)
        ensures
            r == self.total_staked,
    {
        self.total_staked
    }

    /// The calling account's staked balance.
    pub fn get_user_staked(&self, ctx: &Context) -> (r: u128)
        ensures
            r == self.staked_of(ctx.predecessor_account_id@),
    {
        match self.stake_balances.get(&ctx.predecessor_account_id) {
            Some(balance) => balance,
            None => 0,
        }
    }

    /// The balance of the contract account, as the host reports it.
    pub fn get_total_balance(&self, ctx: &Context) -> (r: u128)
        ensures
            r == ctx.account_balance,
    {
        ctx.account_balance
    }

    /// The account the contract runs as.
    pub fn get_account_id(&self, ctx: &Context) -> (r: AccountId)
        ensures
            r@ == ctx.current_account_id@,
    {
        ctx.current_account_id.clone()
    }
}

} // verus!
