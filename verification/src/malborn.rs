//! The club's fungible-token contract: a token with an owner, a pause switch,
//! a block list, consumable metadata, and event registration that burns a fee.
//!
//! The planted bugs, each stated exactly by the contracts:
//!
//! * `resume` sets the status to `Paused`, so a paused contract stays paused;
//! * `mint_tokens` raises the total supply even when the receiving account is
//!   not registered, whose balance then stays zero: those tokens are lost;
//! * `get_symbol`, `get_name` and `get_decimals` *take* the metadata and never
//!   put it back, so the first such call consumes it for good;
//! * the view calls `ft_total_supply`, `ft_balance_of` and
//!   `get_blocklist_status` abort while the contract is paused;
//! * `ft_transfer` checks the *signer*'s balance and block-list standing but
//!   moves the *predecessor*'s tokens;
//! * `register_for_event` burns the fee before the event call is even made,
//!   and an owner-set fee denominator of zero aborts it with a division
//!   error;
//! * `set_associated_contract` accepts any account, the contract's own
//!   included.
//!
//! A state-changing call that returns `Err` leaves the state unchanged, as
//! the host's transaction rollback would.

use vstd::prelude::*;

use crate::account::AccountId;
use crate::context::Context;
use crate::context::TransferAction;
use crate::fungible_token::FtOnTransferCall;
use crate::fungible_token::FungibleToken;
use crate::fungible_token::StorageBalance;
use crate::fungible_token::StorageBalanceBounds;
use crate::fungible_token::TokenError;
use crate::ledger::AccountLedger;
use crate::metadata::FungibleTokenMetadata;
use crate::metadata::FT_METADATA_SPEC;

verus! {

/// An account's standing on the block list.
#[derive(Clone, Copy, PartialEq, Eq, Structural, Debug)]
pub enum BlocklistStatus {
    /// The account may use the contract.
    Allowed,
    /// The account is banned.
    Banned,
}

/// Whether the contract accepts calls.
#[derive(Clone, Copy, PartialEq, Eq, Structural, Debug)]
pub enum ContractStatus {
    /// The contract accepts calls.
    Working,
    /// The contract is paused.
    Paused,
}

impl ContractStatus {
    /// The status as text.
    pub fn to_text(&self) -> (r: String)
        ensures
            *self is Working ==> r@ == "working"@,
            *self is Paused ==> r@ == "paused"@,
    {
        match self {
            ContractStatus::Working => "working".to_string(),
            ContractStatus::Paused => "paused".to_string(),
        }
    }
}

/// The gas set aside for the event-registration call to the associated
/// contract.
pub const GAS_FOR_REGISTER: u64 = 10_000_000_000_000;

/// What the associated contract is expected to answer to: it registers club
/// members for events.  Whoever performs a [`RegisterEventCall`] calls this.
pub trait AssociatedContractInterface {
    /// Registers `account_id` for the event.
    fn register_for_an_event(&mut self, event_id: u128, account_id: AccountId);
}

/// The cross-contract call that `register_for_event` hands to the host: the
/// associated contract is asked to register the account for the event.
#[derive(PartialEq, Eq, Debug)]
pub struct RegisterEventCall {
    /// The associated contract to call.
    pub contract_account: AccountId,
    /// The event to register for.
    pub event_id: u128,
    /// The account to register.
    pub account: AccountId,
    /// The gas to set aside for the call.
    pub gas: u64,
}

/// The club contract's state.
pub struct MalbornClubContract {
    /// The account that administers the contract.
    pub owner_id: AccountId,
    /// The club's token.
    pub malborn_token: FungibleToken,
    /// The token's metadata; consumable, and consumed by the getters.
    pub token_metadata: Option<FungibleTokenMetadata>,
    /// Who is banned; accounts off the list are allowed.
    pub block_list: AccountLedger<BlocklistStatus>,
    /// Whether the contract accepts calls.
    pub status: ContractStatus,
    /// The contract that registers club members for events.
    pub associated_contract_account_id: Option<AccountId>,
    /// Registering burns `total_supply / registration_fee_denominator`.
    pub registration_fee_denominator: u128,
}

impl MalbornClubContract {
    /// Both ledgers keep one entry per account.
    pub open spec fn wf(self) -> bool {
        &&& self.malborn_token.wf()
        &&& self.block_list.wf()
    }

    /// True while the contract is paused.
    pub open spec fn paused(self) -> bool {
        self.status is Paused
    }

    /// The signer of `ctx` is the owner.
    pub open spec fn owner_calls(self, ctx: Context) -> bool {
        ctx.signer_account_id@ == self.owner_id@
    }

    /// The account's block-list standing; accounts off the list are allowed.
    pub open spec fn blocklist_status_of(self, a: Seq<char>) -> BlocklistStatus {
        match self.block_list.spec_get(a) {
            Some(s) => s,
            None => BlocklistStatus::Allowed,
        }
    }

    /// Everything but the token is as it was.
    pub open spec fn frame_except_token(pre: Self, post: Self) -> bool {
        &&& post.owner_id == pre.owner_id
        &&& post.token_metadata == pre.token_metadata
        &&& post.block_list == pre.block_list
        &&& post.status == pre.status
        &&& post.associated_contract_account_id == pre.associated_contract_account_id
        &&& post.registration_fee_denominator == pre.registration_fee_denominator
    }

    /// Creates the contract: a fresh token whose whole supply sits with the
    /// owner, the standard metadata, nobody blocked, working, no associated
    /// contract, and a registration fee of one ten-thousandth of the supply.
    pub fn new(owner_id: AccountId, token_total_supply: u128) -> (r: Self)
        ensures
            r.wf(),
            r.owner_id@ == owner_id@,
            r.malborn_token.total_supply == token_total_supply,
            r.malborn_token.registered(owner_id@),
            r.malborn_token.balance_of(owner_id@) == token_total_supply,
            forall|a: Seq<char>|
                a != owner_id@ ==> !#[trigger] r.malborn_token.registered(a),
            r.token_metadata matches Some(m) && m.standard@ == FT_METADATA_SPEC@ && m.name@
                == "Malborn Token"@ && m.symbol@ == "MAL"@ && m.icon is None && m.reference is None
                && m.reference_hash is None && m.decimals == 10,
            forall|a: Seq<char>| r.blocklist_status_of(a) == BlocklistStatus::Allowed,
            r.status == ContractStatus::Working,
            r.associated_contract_account_id is None,
            r.registration_fee_denominator == 10000,
            r.malborn_token.accounts.total() == token_total_supply,
            r.malborn_token.supply_covers_balances(),
    {
        let metadata = FungibleTokenMetadata {
            standard: FT_METADATA_SPEC.to_string(),
            name: "Malborn Token".to_string(),
            symbol: "MAL".to_string(),
            icon: None,
            reference: None,
            reference_hash: None,
            decimals: 10,
        };
        let mut malborn_token = FungibleToken::new();
        let ghost t0 = malborn_token;
        let _ = malborn_token.internal_register_account(&owner_id);
        let ghost t1 = malborn_token;
        let _ = malborn_token.internal_deposit(&owner_id, token_total_supply);
        proof {
            assert forall|a: Seq<char>| a != owner_id@ implies !malborn_token.registered(a) by {
                assert(malborn_token.accounts.spec_get(a) == t1.accounts.spec_get(a));
                assert(t1.accounts.spec_get(a) == t0.accounts.spec_get(a));
                assert(!t0.registered(a));
            }
        }
        // The default fee denominator makes registering burn one
        // ten-thousandth of the current total supply.
        MalbornClubContract {
            owner_id,
            malborn_token,
            token_metadata: Some(metadata),
            block_list: AccountLedger::new(),
            status: ContractStatus::Working,
            associated_contract_account_id: None,
            registration_fee_denominator: 10000,
        }
    }

    /// How a mint of `amount` for `a` ends.
    pub open spec fn mint_check(s: Self, ctx: Context, a: Seq<char>, amount: u128) -> Result<
        u128,
        TokenError,
    > {
        if !s.owner_calls(ctx) {
            Err(TokenError::NotOwner)
        } else if s.paused() {
            Err(TokenError::Paused)
        } else if s.malborn_token.total_supply + amount > u128::MAX {
            Err(TokenError::TotalSupplyOverflow)
        } else if s.malborn_token.registered(a) && s.malborn_token.balance_of(a) + amount
            > u128::MAX {
            Err(TokenError::BalanceOverflow)
        } else {
            Ok((s.malborn_token.total_supply + amount) as u128)
        }
    }

    /// Mints `amount` for `account_id` and returns the new total supply.
    /// Only the owner may mint, and not while paused.  The supply always
    /// grows; the account's balance grows only when the account is
    /// registered, so tokens minted for an unregistered account are lost.
    pub fn mint_tokens(&mut self, ctx: &Context, account_id: &AccountId, amount: u128) -> (r:
        Result<u128, TokenError>)
        requires
            old(self).wf(),
        ensures
            final(self).wf(),
            r == Self::mint_check(*old(self), *ctx, account_id@, amount),
            r is Err ==> *final(self) == *old(self),
            r is Ok ==> {
                &&& Self::frame_except_token(*old(self), *final(self))
                &&& final(self).malborn_token.total_supply == old(self).malborn_token.total_supply
                    + amount
                &&& old(self).malborn_token.registered(account_id@) ==> final(self).malborn_token.accounts.spec_get(account_id@) == Some(
                    (old(self).malborn_token.balance_of(account_id@) + amount) as u128,
                )
                &&& !old(self).malborn_token.registered(account_id@) ==> final(self).malborn_token.accounts == old(self).malborn_token.accounts
                &&& forall|a: Seq<char>|
                    a != account_id@ ==> #[trigger] final(self).malborn_token.accounts.spec_get(a)
                        == old(self).malborn_token.accounts.spec_get(a)
                &&& final(self).malborn_token.accounts.key_seq() == old(self).malborn_token.accounts.key_seq()
                &&& final(self).malborn_token.account_storage_usage == old(self).malborn_token.account_storage_usage
                &&& final(self).malborn_token.accounts.total() == old(self).malborn_token.accounts.total() + (
                if old(self).malborn_token.registered(account_id@) {
                    amount as int
                } else {
                    0int
                })
            },
            old(self).malborn_token.supply_covers_balances() ==> final(self).malborn_token.supply_covers_balances(),
    {
        if !ctx.signer_account_id.eq_id(&self.owner_id) {
            return Err(TokenError::NotOwner);
        }
        if matches!(self.status, ContractStatus::Paused) {
            return Err(TokenError::Paused);
        }
        let new_supply = match self.malborn_token.total_supply.checked_add(amount) {
            Some(v) => v,
            None => {
                return Err(TokenError::TotalSupplyOverflow);
            },
        };
        match self.malborn_token.accounts.get(account_id) {
            Some(user_amount) => {
                match user_amount.checked_add(amount) {
                    Some(new_balance) => {
                        self.malborn_token.accounts.insert_balance(account_id, new_balance);
                    },
                    None => {
                        return Err(TokenError::BalanceOverflow);
                    },
                }
            },
            None => {
                // The supply still grows below: these tokens belong to nobody.
            },
        }
        self.malborn_token.total_supply = new_supply;
        Ok(new_supply)
    }

    /// How a burn of `amount` from `a` ends, disregarding who asks.
    pub open spec fn burn_check(s: Self, a: Seq<char>, amount: u128) -> Result<(), TokenError> {
        if s.malborn_token.total_supply < amount {
            Err(TokenError::InsufficientSupply)
        } else if !s.malborn_token.registered(a) {
            Err(TokenError::NotRegistered)
        } else if s.malborn_token.balance_of(a) < amount {
            Err(TokenError::NotEnoughBalance)
        } else {
            Ok(())
        }
    }

    /// Takes `amount` out of `account_id`'s balance and out of the supply.
    fn burn_tokens_internal(&mut self, account_id: &AccountId, amount: u128) -> (r: Result<
        (),
        TokenError,
    >)
        requires
            old(self).wf(),
        ensures
            final(self).wf(),
            r == Self::burn_check(*old(self), account_id@, amount),
            r is Err ==> *final(self) == *old(self),
            r is Ok ==> {
                &&& Self::frame_except_token(*old(self), *final(self))
                &&& final(self).malborn_token.total_supply == old(self).malborn_token.total_supply
                    - amount
                &&& final(self).malborn_token.accounts.spec_get(account_id@) == Some(
                    (old(self).malborn_token.balance_of(account_id@) - amount) as u128,
                )
                &&& forall|a: Seq<char>|
                    a != account_id@ ==> #[trigger] final(self).malborn_token.accounts.spec_get(a)
                        == old(self).malborn_token.accounts.spec_get(a)
                &&& final(self).malborn_token.accounts.key_seq() == old(self).malborn_token.accounts.key_seq()
                &&& final(self).malborn_token.account_storage_usage == old(self).malborn_token.account_storage_usage
                &&& final(self).malborn_token.accounts.total() == old(self).malborn_token.accounts.total() - amount
            },
            old(self).malborn_token.supply_covers_balances() ==> final(self).malborn_token.supply_covers_balances(),
    {
        if self.malborn_token.total_supply < amount {
            return Err(TokenError::InsufficientSupply);
        }
        let user_balance = match self.malborn_token.accounts.get(account_id) {
            Some(b) => b,
            None => {
                return Err(TokenError::NotRegistered);
            },
        };
        if user_balance < amount {
            return Err(TokenError::NotEnoughBalance);
        }
        self.malborn_token.total_supply = self.malborn_token.total_supply - amount;
        self.malborn_token.accounts.insert_balance(account_id, user_balance - amount);
        Ok(())
    }

    /// How an owner's burn of `amount` from `a` ends.
    pub open spec fn owner_burn_check(s: Self, ctx: Context, a: Seq<char>, amount: u128) -> Result<
        (),
        TokenError,
    > {
        if !s.owner_calls(ctx) {
            Err(TokenError::NotOwner)
        } else if s.paused() {
            Err(TokenError::Paused)
        } else {
            Self::burn_check(s, a, amount)
        }
    }

    /// Burns `amount` of `account_id`'s tokens.  Only the owner may burn, and
    /// not while paused.
    pub fn burn_tokens(&mut self, ctx: &Context, account_id: &AccountId, amount: u128) -> (r:
        Result<(), TokenError>)
        requires
            old(self).wf(),
        ensures
            final(self).wf(),
            r == Self::owner_burn_check(*old(self), *ctx, account_id@, amount),
            r is Err ==> *final(self) == *old(self),
            r is Ok ==> {
                &&& Self::frame_except_token(*old(self), *final(self))
                &&& final(self).malborn_token.total_supply == old(self).malborn_token.total_supply
                    - amount
                &&& final(self).malborn_token.accounts.spec_get(account_id@) == Some(
                    (old(self).malborn_token.balance_of(account_id@) - amount) as u128,
                )
                &&& forall|a: Seq<char>|
                    a != account_id@ ==> #[trigger] final(self).malborn_token.accounts.spec_get(a)
                        == old(self).malborn_token.accounts.spec_get(a)
                &&& final(self).malborn_token.accounts.key_seq() == old(self).malborn_token.accounts.key_seq()
                &&& final(self).malborn_token.account_storage_usage == old(self).malborn_token.account_storage_usage
                &&& final(self).malborn_token.accounts.total() == old(self).malborn_token.accounts.total() - amount
            },
            old(self).malborn_token.supply_covers_balances() ==> final(self).malborn_token.supply_covers_balances(),
    {
        if !ctx.signer_account_id.eq_id(&self.owner_id) {
            return Err(TokenError::NotOwner);
        }
        if matches!(self.status, ContractStatus::Paused) {
            return Err(TokenError::Paused);
        }
        self.burn_tokens_internal(account_id, amount)
    }

    /// How registering for an event by the signer of `ctx` ends.
    pub open spec fn register_check(s: Self, ctx: Context) -> Result<(), TokenError> {
        if s.paused() {
            Err(TokenError::Paused)
        } else if s.associated_contract_account_id is None {
            Err(TokenError::AssociatedContractNotSet)
        } else if s.blocklist_status_of(ctx.signer_account_id@) == BlocklistStatus::Banned {
            Err(TokenError::Banned)
        } else if s.registration_fee_denominator == 0 {
            Err(TokenError::ZeroDenominator)
        } else {
            Self::burn_check(
                s,
                ctx.signer_account_id@,
                (s.malborn_token.total_supply as int / s.registration_fee_denominator as int) as u128,
            )
        }
    }

    /// The fee a registration burns: the supply over the fee denominator.
    pub open spec fn registration_fee(s: Self) -> u128 {
        (s.malborn_token.total_supply as int / s.registration_fee_denominator as int) as u128
    }

    /// Registers the signer for an event with the associated contract, for
    /// the price of a share of their tokens.  The fee is burned here, before
    /// the returned call is ever made: when the event call fails later, the
    /// tokens are already gone.
    pub fn register_for_event(&mut self, ctx: &Context, event_id: u128) -> (r: Result<
        RegisterEventCall,
        TokenError,
    >)
        requires
            old(self).wf(),
        ensures
            final(self).wf(),
            r matches Err(e) ==> Err::<(), TokenError>(e) == Self::register_check(
                *old(self),
                *ctx,
            ) && *final(self) == *old(self),
            r is Ok ==> Self::register_check(*old(self), *ctx) is Ok,
            r matches Ok(call) ==> {
                let fee = Self::registration_fee(*old(self));
                let signer = ctx.signer_account_id@;
                &&& call.contract_account@ == old(self).associated_contract_account_id->Some_0@
                &&& call.event_id == event_id
                &&& call.account@ == signer
                &&& call.gas == GAS_FOR_REGISTER
                &&& Self::frame_except_token(*old(self), *final(self))
                &&& final(self).malborn_token.total_supply == old(self).malborn_token.total_supply
                    - fee
                &&& final(self).malborn_token.accounts.spec_get(signer) == Some(
                    (old(self).malborn_token.balance_of(signer) - fee) as u128,
                )
                &&& forall|a: Seq<char>|
                    a != signer ==> #[trigger] final(self).malborn_token.accounts.spec_get(a) == old(self).malborn_token.accounts.spec_get(a)
                &&& final(self).malborn_token.accounts.key_seq() == old(self).malborn_token.accounts.key_seq()
                &&& final(self).malborn_token.account_storage_usage == old(self).malborn_token.account_storage_usage
                &&& final(self).malborn_token.accounts.total() == old(self).malborn_token.accounts.total() - fee
            },
            old(self).malborn_token.supply_covers_balances() ==> final(self).malborn_token.supply_covers_balances(),
    {
        if matches!(self.status, ContractStatus::Paused) {
            return Err(TokenError::Paused);
        }
        let associated = match &self.associated_contract_account_id {
            Some(a) => a.clone(),
            None => {
                return Err(TokenError::AssociatedContractNotSet);
            },
        };
        let sender_id = ctx.signer_account_id.clone();
        match self.block_list.get(&sender_id) {
            Some(BlocklistStatus::Banned) => {
                return Err(TokenError::Banned);
            },
            _ => {},
        }
        // Burn the fee for registering; the event call below may still fail.
        let burn_amount = match self.malborn_token.total_supply.checked_div(
            self.registration_fee_denominator,
        ) {
            Some(v) => v,
            None => {
                return Err(TokenError::ZeroDenominator);
            },
        };
        match self.burn_tokens_internal(&sender_id, burn_amount) {
            Ok(()) => Ok(
                RegisterEventCall {
                    contract_account: associated,
                    event_id,
                    account: sender_id,
                    gas: GAS_FOR_REGISTER,
                },
            ),
            Err(e) => Err(e),
        }
    }

    /// Renames the token.  Only the owner may do so; when the metadata was
    /// already consumed, nothing happens.
    pub fn upgrade_token_name_symbol(&mut self, ctx: &Context, name: String, symbol: String) -> (r:
        Result<(), TokenError>)
        requires
            old(self).wf(),
        ensures
            final(self).wf(),
            !old(self).owner_calls(*ctx) ==> r == Err::<(), TokenError>(TokenError::NotOwner)
                && *final(self) == *old(self),
            old(self).owner_calls(*ctx) ==> {
                &&& r == Ok::<(), TokenError>(())
                &&& final(self).owner_id == old(self).owner_id
                &&& final(self).malborn_token == old(self).malborn_token
                &&& final(self).block_list == old(self).block_list
                &&& final(self).status == old(self).status
                &&& final(self).associated_contract_account_id == old(self).associated_contract_account_id
                &&& final(self).registration_fee_denominator == old(self).registration_fee_denominator
                &&& old(self).token_metadata is None ==> final(self).token_metadata is None
                &&& old(self).token_metadata matches Some(m) ==> (final(self).token_metadata matches Some(m2) && m2.name@ == name@ && m2.symbol@ == symbol@
                    && m2.standard == m.standard && m2.icon == m.icon && m2.reference == m.reference
                    && m2.reference_hash == m.reference_hash && m2.decimals == m.decimals)
            },
    {
        if !ctx.signer_account_id.eq_id(&self.owner_id) {
            return Err(TokenError::NotOwner);
        }
        let metadata = self.token_metadata.take();
        if let Some(mut metadata) = metadata {
            metadata.name = name;
            metadata.symbol = symbol;
            self.token_metadata = Some(metadata);
        }
        Ok(())
    }

    /// How an owner-only call guarded by the pause switch ends.
    pub open spec fn owner_not_paused_check(s: Self, ctx: Context) -> Result<(), TokenError> {
        if !s.owner_calls(ctx) {
            Err(TokenError::NotOwner)
        } else if s.paused() {
            Err(TokenError::Paused)
        } else {
            Ok(())
        }
    }

    /// Bans `account_id`.  Only the owner may do so, and not while paused.
    pub fn add_to_blocklist(&mut self, ctx: &Context, account_id: &AccountId) -> (r: Result<
        (),
        TokenError,
    >)
        requires
            old(self).wf(),
        ensures
            final(self).wf(),
            r == Self::owner_not_paused_check(*old(self), *ctx),
            r is Err ==> *final(self) == *old(self),
            r is Ok ==> {
                &&& final(self).blocklist_status_of(account_id@) == BlocklistStatus::Banned
                &&& forall|a: Seq<char>|
                    a != account_id@ ==> #[trigger] final(self).blocklist_status_of(a) == old(self).blocklist_status_of(a)
                &&& final(self).owner_id == old(self).owner_id
                &&& final(self).malborn_token == old(self).malborn_token
                &&& final(self).token_metadata == old(self).token_metadata
                &&& final(self).status == old(self).status
                &&& final(self).associated_contract_account_id == old(self).associated_contract_account_id
                &&& final(self).registration_fee_denominator == old(self).registration_fee_denominator
            },
    {
        if !ctx.signer_account_id.eq_id(&self.owner_id) {
            return Err(TokenError::NotOwner);
        }
        if matches!(self.status, ContractStatus::Paused) {
            return Err(TokenError::Paused);
        }
        self.block_list.insert(account_id, BlocklistStatus::Banned);
        Ok(())
    }

    /// Clears `account_id` from the block list.  Only the owner may do so,
    /// and not while paused.
    pub fn remove_from_blocklist(&mut self, ctx: &Context, account_id: &AccountId) -> (r: Result<
        (),
        TokenError,
    >)
        requires
            old(self).wf(),
        ensures
            final(self).wf(),
            r == Self::owner_not_paused_check(*old(self), *ctx),
            r is Err ==> *final(self) == *old(self),
            r is Ok ==> {
                &&& final(self).blocklist_status_of(account_id@) == BlocklistStatus::Allowed
                &&& forall|a: Seq<char>|
                    a != account_id@ ==> #[trigger] final(self).blocklist_status_of(a) == old(self).blocklist_status_of(a)
                &&& final(self).owner_id == old(self).owner_id
                &&& final(self).malborn_token == old(self).malborn_token
                &&& final(self).token_metadata == old(self).token_metadata
                &&& final(self).status == old(self).status
                &&& final(self).associated_contract_account_id == old(self).associated_contract_account_id
                &&& final(self).registration_fee_denominator == old(self).registration_fee_denominator
            },
    {
        if !ctx.signer_account_id.eq_id(&self.owner_id) {
            return Err(TokenError::NotOwner);
        }
        if matches!(self.status, ContractStatus::Paused) {
            return Err(TokenError::Paused);
        }
        self.block_list.insert(account_id, BlocklistStatus::Allowed);
        Ok(())
    }

    /// Pauses the contract.  Only the owner may do so.
    pub fn pause(&mut self, ctx: &Context) -> (r: Result<(), TokenError>)
        requires
            old(self).wf(),
        ensures
            final(self).wf(),
            !old(self).owner_calls(*ctx) ==> r == Err::<(), TokenError>(TokenError::NotOwner)
                && *final(self) == *old(self),
            old(self).owner_calls(*ctx) ==> r == Ok::<(), TokenError>(()) && final(self).status
                == ContractStatus::Paused && Self::frame_except_status(*old(self), *final(self)),
    {
        if !ctx.signer_account_id.eq_id(&self.owner_id) {
            return Err(TokenError::NotOwner);
        }
        self.status = ContractStatus::Paused;
        Ok(())
    }

    /// Resumes the contract — or should: the status is set to `Paused`, so a
    /// paused contract stays paused.  Only the owner may call this.
    pub fn resume(&mut self, ctx: &Context) -> (r: Result<(), TokenError>)
        requires
            old(self).wf(),
        ensures
            final(self).wf(),
            !old(self).owner_calls(*ctx) ==> r == Err::<(), TokenError>(TokenError::NotOwner)
                && *final(self) == *old(self),
            old(self).owner_calls(*ctx) ==> r == Ok::<(), TokenError>(()) && final(self).status
                == ContractStatus::Paused && Self::frame_except_status(*old(self), *final(self)),
    {
        if !ctx.signer_account_id.eq_id(&self.owner_id) {
            return Err(TokenError::NotOwner);
        }
        self.status = ContractStatus::Paused;
        Ok(())
    }

    /// Everything but the status is as it was.
    pub open spec fn frame_except_status(pre: Self, post: Self) -> bool {
        &&& post.owner_id == pre.owner_id
        &&& post.malborn_token == pre.malborn_token
        &&& post.token_metadata == pre.token_metadata
        &&& post.block_list == pre.block_list
        &&& post.associated_contract_account_id == pre.associated_contract_account_id
        &&& post.registration_fee_denominator == pre.registration_fee_denominator
    }

    /// Hands the contract to a new owner.  Only the owner may do so.
    pub fn set_owner(&mut self, ctx: &Context, new_owner: AccountId) -> (r: Result<(), TokenError>)
        requires
            old(self).wf(),
        ensures
            final(self).wf(),
            !old(self).owner_calls(*ctx) ==> r == Err::<(), TokenError>(TokenError::NotOwner)
                && *final(self) == *old(self),
            old(self).owner_calls(*ctx) ==> {
                &&& r == Ok::<(), TokenError>(())
                &&& final(self).owner_id == new_owner
                &&& final(self).malborn_token == old(self).malborn_token
                &&& final(self).token_metadata == old(self).token_metadata
                &&& final(self).block_list == old(self).block_list
                &&& final(self).status == old(self).status
                &&& final(self).associated_contract_account_id == old(self).associated_contract_account_id
                &&& final(self).registration_fee_denominator == old(self).registration_fee_denominator
            },
    {
        if !ctx.signer_account_id.eq_id(&self.owner_id) {
            return Err(TokenError::NotOwner);
        }
        self.owner_id = new_owner;
        Ok(())
    }

    /// Sets the registration fee denominator.  Only the owner may do so, and
    /// nothing keeps the owner from choosing zero, which then breaks
    /// [`MalbornClubContract::register_for_event`].
    pub fn set_registration_fee_denominator(&mut self, ctx: &Context, new_denominator: u128) -> (r:
        Result<(), TokenError>)
        requires
            old(self).wf(),
        ensures
            final(self).wf(),
            !old(self).owner_calls(*ctx) ==> r == Err::<(), TokenError>(TokenError::NotOwner)
                && *final(self) == *old(self),
            old(self).owner_calls(*ctx) ==> {
                &&& r == Ok::<(), TokenError>(())
                &&& final(self).registration_fee_denominator == new_denominator
                &&& final(self).owner_id == old(self).owner_id
                &&& final(self).malborn_token == old(self).malborn_token
                &&& final(self).token_metadata == old(self).token_metadata
                &&& final(self).block_list == old(self).block_list
                &&& final(self).status == old(self).status
                &&& final(self).associated_contract_account_id == old(self).associated_contract_account_id
            },
    {
        if !ctx.signer_account_id.eq_id(&self.owner_id) {
            return Err(TokenError::NotOwner);
        }
        self.registration_fee_denominator = new_denominator;
        Ok(())
    }

    /// Names the contract that registers members for events.  Only the owner
    /// may do so; the account is taken as given, nothing checks that it
    /// exists or differs from this contract's own.
    pub fn set_associated_contract(&mut self, ctx: &Context, account_id: AccountId) -> (r: Result<
        (),
        TokenError,
    >)
        requires
            old(self).wf(),
        ensures
            final(self).wf(),
            !old(self).owner_calls(*ctx) ==> r == Err::<(), TokenError>(TokenError::NotOwner)
                && *final(self) == *old(self),
            old(self).owner_calls(*ctx) ==> {
                &&& r == Ok::<(), TokenError>(())
                &&& final(self).associated_contract_account_id == Some(account_id)
                &&& final(self).owner_id == old(self).owner_id
                &&& final(self).malborn_token == old(self).malborn_token
                &&& final(self).token_metadata == old(self).token_metadata
                &&& final(self).block_list == old(self).block_list
                &&& final(self).status == old(self).status
                &&& final(self).registration_fee_denominator == old(self).registration_fee_denominator
            },
    {
        if !ctx.signer_account_id.eq_id(&self.owner_id) {
            return Err(TokenError::NotOwner);
        }
        self.associated_contract_account_id = Some(account_id);
        Ok(())
    }

    /// The ticker symbol.  Aborts while paused or once the metadata is gone —
    /// and reading it *takes* the metadata, so the first read consumes it.
    pub fn get_symbol(&mut self) -> (r: Result<String, TokenError>)
        requires
            old(self).wf(),
        ensures
            final(self).wf(),
            old(self).paused() ==> r == Err::<String, TokenError>(TokenError::Paused) && *final(self) == *old(self),
            !old(self).paused() && old(self).token_metadata is None ==> r == Err::<
                String,
                TokenError,
            >(TokenError::MetadataUnavailable) && *final(self) == *old(self),
            !old(self).paused() && old(self).token_metadata is Some ==> {
                &&& (r matches Ok(sym) && sym@ == old(self).token_metadata->Some_0.symbol@)
                &&& final(self).token_metadata is None
                &&& Self::frame_except_metadata(*old(self), *final(self))
            },
    {
        if matches!(self.status, ContractStatus::Paused) {
            return Err(TokenError::Paused);
        }
        let metadata = self.token_metadata.take();
        match metadata {
            Some(m) => Ok(m.symbol),
            None => Err(TokenError::MetadataUnavailable),
        }
    }

    /// The token name, with the same pause guard and the same consuming read
    /// as [`MalbornClubContract::get_symbol`].
    pub fn get_name(&mut self) -> (r: Result<String, TokenError>)
        requires
            old(self).wf(),
        ensures
            final(self).wf(),
            old(self).paused() ==> r == Err::<String, TokenError>(TokenError::Paused) && *final(self) == *old(self),
            !old(self).paused() && old(self).token_metadata is None ==> r == Err::<
                String,
                TokenError,
            >(TokenError::MetadataUnavailable) && *final(self) == *old(self),
            !old(self).paused() && old(self).token_metadata is Some ==> {
                &&& (r matches Ok(name) && name@ == old(self).token_metadata->Some_0.name@)
                &&& final(self).token_metadata is None
                &&& Self::frame_except_metadata(*old(self), *final(self))
            },
    {
        if matches!(self.status, ContractStatus::Paused) {
            return Err(TokenError::Paused);
        }
        let metadata = self.token_metadata.take();
        match metadata {
            Some(m) => Ok(m.name),
            None => Err(TokenError::MetadataUnavailable),
        }
    }

    /// The number of decimals, with the same pause guard and the same
    /// consuming read as [`MalbornClubContract::get_symbol`].
    pub fn get_decimals(&mut self) -> (r: Result<u8, TokenError>)
        requires
            old(self).wf(),
        ensures
            final(self).wf(),
            old(self).paused() ==> r == Err::<u8, TokenError>(TokenError::Paused) && *final(self)
                == *old(self),
            !old(self).paused() && old(self).token_metadata is None ==> r == Err::<u8, TokenError>(
                TokenError::MetadataUnavailable,
            ) && *final(self) == *old(self),
            !old(self).paused() && old(self).token_metadata is Some ==> {
                &&& r == Ok::<u8, TokenError>(old(self).token_metadata->Some_0.decimals)
                &&& final(self).token_metadata is None
                &&& Self::frame_except_metadata(*old(self), *final(self))
            },
    {
        if matches!(self.status, ContractStatus::Paused) {
            return Err(TokenError::Paused);
        }
        let metadata = self.token_metadata.take();
        match metadata {
            Some(m) => Ok(m.decimals),
            None => Err(TokenError::MetadataUnavailable),
        }
    }

    /// Everything but the metadata is as it was.
    pub open spec fn frame_except_metadata(pre: Self, post: Self) -> bool {
        &&& post.owner_id == pre.owner_id
        &&& post.malborn_token == pre.malborn_token
        &&& post.block_list == pre.block_list
        &&& post.status == pre.status
        &&& post.associated_contract_account_id == pre.associated_contract_account_id
        &&& post.registration_fee_denominator == pre.registration_fee_denominator
    }

    /// Whether the contract accepts calls.
    pub fn contract_status(&self) -> (r: ContractStatus)
        ensures
            r == self.status,
    {
        self.status
    }

    /// The account's block-list standing.  Aborts while paused, although it
    /// only reads.
    pub fn get_blocklist_status(&self, account_id: &AccountId) -> (r: Result<
        BlocklistStatus,
        TokenError,
    >)
        ensures
            self.paused() ==> r == Err::<BlocklistStatus, TokenError>(TokenError::Paused),
            !self.paused() ==> r == Ok::<BlocklistStatus, TokenError>(
                self.blocklist_status_of(account_id@),
            ),
    {
        if matches!(self.status, ContractStatus::Paused) {
            return Err(TokenError::Paused);
        }
        match self.block_list.get(account_id) {
            Some(user_status) => Ok(user_status),
            None => Ok(BlocklistStatus::Allowed),
        }
    }
}

/// The fungible-token standard's calls, with the club's own guards in front.
impl MalbornClubContract {
    /// How the club's `ft_transfer` by the caller in `ctx` ends.
    pub open spec fn club_transfer_check(
        s: Self,
        ctx: Context,
        receiver: Seq<char>,
        amount: u128,
    ) -> Result<(), TokenError> {
        if s.paused() {
            Err(TokenError::Paused)
        } else if s.blocklist_status_of(ctx.signer_account_id@) == BlocklistStatus::Banned {
            Err(TokenError::Banned)
        } else if amount > s.malborn_token.balance_of(ctx.signer_account_id@) {
            Err(TokenError::NotEnoughBalance)
        } else {
            FungibleToken::ft_transfer_check(s.malborn_token, ctx, receiver, amount)
        }
    }

    /// Transfers `amount` to `receiver_id`.  The pause and block-list guards,
    /// and the balance check, look at the *signer*; the tokens move from the
    /// *predecessor*, who must attach exactly one yoctotoken.  The memo is
    /// only logged and changes nothing.
    #[allow(unused_variables)]
    pub fn ft_transfer(
        &mut self,
        ctx: &Context,
        receiver_id: &AccountId,
        amount: u128,
        memo: Option<String>,
    ) -> (r: Result<(), TokenError>)
        requires
            old(self).wf(),
        ensures
            final(self).wf(),
            r == Self::club_transfer_check(*old(self), *ctx, receiver_id@, amount),
            r is Err ==> *final(self) == *old(self),
            r is Ok ==> {
                &&& Self::frame_except_token(*old(self), *final(self))
                &&& final(self).malborn_token.accounts.spec_get(ctx.predecessor_account_id@)
                    == Some(
                    (old(self).malborn_token.balance_of(ctx.predecessor_account_id@)
                        - amount) as u128,
                )
                &&& final(self).malborn_token.accounts.spec_get(receiver_id@) == Some(
                    (old(self).malborn_token.balance_of(receiver_id@) + amount) as u128,
                )
                &&& forall|a: Seq<char>|
                    a != ctx.predecessor_account_id@ && a != receiver_id@
                        ==> #[trigger] final(self).malborn_token.accounts.spec_get(a)
                            == old(self).malborn_token.accounts.spec_get(a)
                &&& final(self).malborn_token.total_supply == old(self).malborn_token.total_supply
                &&& final(self).malborn_token.accounts.key_seq() == old(self).malborn_token.accounts.key_seq()
                &&& final(self).malborn_token.account_storage_usage == old(self).malborn_token.account_storage_usage
                &&& final(self).malborn_token.accounts.total() == old(self).malborn_token.accounts.total()
            },
            old(self).malborn_token.supply_covers_balances() ==> final(self).malborn_token.supply_covers_balances(),
    {
        if matches!(self.status, ContractStatus::Paused) {
            return Err(TokenError::Paused);
        }
        let sender_id = &ctx.signer_account_id;
        match self.block_list.get(sender_id) {
            Some(BlocklistStatus::Banned) => {
                return Err(TokenError::Banned);
            },
            _ => {},
        }
        let signer_balance = self.malborn_token.ft_balance_of(sender_id);
        if amount > signer_balance {
            return Err(TokenError::NotEnoughBalance);
        }
        self.malborn_token.ft_transfer(ctx, receiver_id, amount)
    }

    /// Like [`MalbornClubContract::ft_transfer`], without the balance
    /// pre-check, and on success also hands back the call that tells the
    /// receiving contract.
    #[allow(unused_variables)]
    pub fn ft_transfer_call(
        &mut self,
        ctx: &Context,
        receiver_id: &AccountId,
        amount: u128,
        memo: Option<String>,
        msg: String,
    ) -> (r: Result<FtOnTransferCall, TokenError>)
        requires
            old(self).wf(),
        ensures
            final(self).wf(),
            r is Err ==> *final(self) == *old(self),
            r matches Err(e) ==> Err::<(), TokenError>(e) == ({
                if old(self).paused() {
                    Err::<(), TokenError>(TokenError::Paused)
                } else if old(self).blocklist_status_of(ctx.signer_account_id@)
                    == BlocklistStatus::Banned {
                    Err::<(), TokenError>(TokenError::Banned)
                } else {
                    FungibleToken::ft_transfer_check(
                        old(self).malborn_token,
                        *ctx,
                        receiver_id@,
                        amount,
                    )
                }
            }),
            r is Ok ==> !old(self).paused() && old(self).blocklist_status_of(
                ctx.signer_account_id@,
            ) != BlocklistStatus::Banned && FungibleToken::ft_transfer_check(
                old(self).malborn_token,
                *ctx,
                receiver_id@,
                amount,
            ) is Ok,
            r matches Ok(call) ==> {
                &&& call.sender@ == ctx.predecessor_account_id@
                &&& call.receiver@ == receiver_id@
                &&& call.amount == amount
                &&& call.msg@ == msg@
                &&& Self::frame_except_token(*old(self), *final(self))
                &&& final(self).malborn_token.accounts.spec_get(ctx.predecessor_account_id@)
                    == Some(
                    (old(self).malborn_token.balance_of(ctx.predecessor_account_id@)
                        - amount) as u128,
                )
                &&& final(self).malborn_token.accounts.spec_get(receiver_id@) == Some(
                    (old(self).malborn_token.balance_of(receiver_id@) + amount) as u128,
                )
                &&& forall|a: Seq<char>|
                    a != ctx.predecessor_account_id@ && a != receiver_id@
                        ==> #[trigger] final(self).malborn_token.accounts.spec_get(a)
                            == old(self).malborn_token.accounts.spec_get(a)
                &&& final(self).malborn_token.total_supply == old(self).malborn_token.total_supply
                &&& final(self).malborn_token.accounts.key_seq() == old(self).malborn_token.accounts.key_seq()
                &&& final(self).malborn_token.account_storage_usage == old(self).malborn_token.account_storage_usage
                &&& final(self).malborn_token.accounts.total() == old(self).malborn_token.accounts.total()
            },
            old(self).malborn_token.supply_covers_balances() ==> final(self).malborn_token.supply_covers_balances(),
    {
        if matches!(self.status, ContractStatus::Paused) {
            return Err(TokenError::Paused);
        }
        let sender_id = &ctx.signer_account_id;
        match self.block_list.get(sender_id) {
            Some(BlocklistStatus::Banned) => {
                return Err(TokenError::Banned);
            },
            _ => {},
        }
        self.malborn_token.ft_transfer_call(ctx, receiver_id, amount, msg)
    }

    /// The total supply.  Aborts while paused, which breaks the
    /// fungible-token standard's promise that views always answer.
    pub fn ft_total_supply(&self) -> (r: Result<u128, TokenError>)
        ensures
            self.paused() ==> r == Err::<u128, TokenError>(TokenError::Paused),
            !self.paused() ==> r == Ok::<u128, TokenError>(self.malborn_token.total_supply),
    {
        if matches!(self.status, ContractStatus::Paused) {
            return Err(TokenError::Paused);
        }
        Ok(self.malborn_token.ft_total_supply())
    }

    /// The account's balance, zero when unregistered.  Aborts while paused,
    /// which breaks the fungible-token standard's promise that views always
    /// answer.
    pub fn ft_balance_of(&self, account_id: &AccountId) -> (r: Result<u128, TokenError>)
        ensures
            self.paused() ==> r == Err::<u128, TokenError>(TokenError::Paused),
            !self.paused() ==> r == Ok::<u128, TokenError>(
                self.malborn_token.balance_of(account_id@),
            ),
    {
        if matches!(self.status, ContractStatus::Paused) {
            return Err(TokenError::Paused);
        }
        Ok(self.malborn_token.ft_balance_of(account_id))
    }

    /// Settles a transfer-and-call after the receiver answered, and returns
    /// the amount the receiver kept.  Only the contract account itself may
    /// call this; `callback_unused` stands for the receiver's answer, `None`
    /// for a failed call.
    pub fn ft_resolve_transfer(
        &mut self,
        ctx: &Context,
        sender_id: &AccountId,
        receiver_id: &AccountId,
        amount: u128,
        callback_unused: Option<u128>,
    ) -> (r: Result<u128, TokenError>)
        requires
            old(self).wf(),
        ensures
            final(self).wf(),
            r is Err ==> *final(self) == *old(self),
            ctx.predecessor_account_id@ != ctx.current_account_id@ ==> r == Err::<
                u128,
                TokenError,
            >(TokenError::PrivateMethod),
            ctx.predecessor_account_id@ == ctx.current_account_id@ ==> {
                let refund = FungibleToken::resolve_refund(
                    old(self).malborn_token,
                    receiver_id@,
                    amount,
                    callback_unused,
                );
                &&& Self::frame_except_token(*old(self), *final(self))
                &&& final(self).malborn_token.account_storage_usage == old(self).malborn_token.account_storage_usage
                &&& if refund == 0 {
                    r == Ok::<u128, TokenError>(amount) && final(self).malborn_token == old(self).malborn_token
                } else if sender_id@ == receiver_id@ {
                    r == Ok::<u128, TokenError>((amount - refund) as u128) && final(self).malborn_token == old(self).malborn_token
                } else if old(self).malborn_token.registered(sender_id@) {
                    if old(self).malborn_token.balance_of(sender_id@) + refund > u128::MAX {
                        r == Err::<u128, TokenError>(TokenError::BalanceOverflow)
                    } else {
                        &&& r == Ok::<u128, TokenError>((amount - refund) as u128)
                        &&& final(self).malborn_token.accounts.spec_get(receiver_id@) == Some(
                            (old(self).malborn_token.balance_of(receiver_id@) - refund) as u128,
                        )
                        &&& final(self).malborn_token.accounts.spec_get(sender_id@) == Some(
                            (old(self).malborn_token.balance_of(sender_id@) + refund) as u128,
                        )
                        &&& forall|a: Seq<char>|
                            a != sender_id@ && a != receiver_id@
                                ==> #[trigger] final(self).malborn_token.accounts.spec_get(a)
                                    == old(self).malborn_token.accounts.spec_get(a)
                        &&& final(self).malborn_token.total_supply == old(self).malborn_token.total_supply
                    }
                } else {
                    if old(self).malborn_token.total_supply < refund {
                        r == Err::<u128, TokenError>(TokenError::TotalSupplyOverflow)
                    } else {
                        &&& r == Ok::<u128, TokenError>(amount)
                        &&& final(self).malborn_token.accounts.spec_get(receiver_id@) == Some(
                            (old(self).malborn_token.balance_of(receiver_id@) - refund) as u128,
                        )
                        &&& forall|a: Seq<char>|
                            a != receiver_id@
                                ==> #[trigger] final(self).malborn_token.accounts.spec_get(a)
                                    == old(self).malborn_token.accounts.spec_get(a)
                        &&& final(self).malborn_token.total_supply == old(self).malborn_token.total_supply - refund
                    }
                }
            },
            old(self).malborn_token.supply_covers_balances() ==> final(self).malborn_token.supply_covers_balances(),
    {
        if !ctx.predecessor_account_id.eq_id(&ctx.current_account_id) {
            return Err(TokenError::PrivateMethod);
        }
        match self.malborn_token.internal_ft_resolve_transfer(
            sender_id,
            receiver_id,
            amount,
            callback_unused,
        ) {
            Ok((used_amount, _burned)) => Ok(used_amount),
            Err(e) => Err(e),
        }
    }

    /// The token metadata.  Aborts once a consuming read has taken it.
    pub fn ft_metadata(&self) -> (r: Result<FungibleTokenMetadata, TokenError>)
        ensures
            self.token_metadata is None ==> r == Err::<FungibleTokenMetadata, TokenError>(
                TokenError::MetadataUnavailable,
            ),
            self.token_metadata matches Some(m) ==> (r matches Ok(m2) && m2.standard@ == m.standard@
                && m2.name@ == m.name@ && m2.symbol@ == m.symbol@ && m2.decimals == m.decimals),
    {
        match &self.token_metadata {
            Some(m) => Ok(m.clone()),
            None => Err(TokenError::MetadataUnavailable),
        }
    }

    /// Registers `account_id` (the caller when none is named) for the
    /// attached deposit; the standard's `registration_only` flag changes
    /// nothing here.  A deposit beyond the storage price goes back to the
    /// caller as the returned transfer.
    #[allow(unused_variables)]
    pub fn storage_deposit(
        &mut self,
        ctx: &Context,
        account_id: Option<&AccountId>,
        registration_only: Option<bool>,
    ) -> (r: Result<(StorageBalance, Option<TransferAction>), TokenError>)
        requires
            old(self).wf(),
        ensures
            final(self).wf(),
            Self::frame_except_token(*old(self), *final(self)),
            final(self).malborn_token.total_supply == old(self).malborn_token.total_supply,
            final(self).malborn_token.accounts.total() == old(self).malborn_token.accounts.total(),
            old(self).malborn_token.supply_covers_balances() ==> final(self).malborn_token.supply_covers_balances(),
            r is Err ==> *final(self) == *old(self),
            ({
                let a = if account_id is Some {
                    account_id->Some_0@
                } else {
                    ctx.predecessor_account_id@
                };
                let min = old(self).malborn_token.spec_storage_min();
                if old(self).malborn_token.registered(a) {
                    &&& r is Ok
                    &&& *final(self) == *old(self)
                    &&& r->Ok_0.0 == (StorageBalance { total: min, available: 0u128 })
                    &&& ctx.attached_deposit > 0 ==> (r->Ok_0.1 matches Some(t) && t.receiver@
                        == ctx.predecessor_account_id@ && t.amount == ctx.attached_deposit)
                    &&& ctx.attached_deposit == 0 ==> r->Ok_0.1 is None
                } else if ctx.attached_deposit < min {
                    r == Err::<(StorageBalance, Option<TransferAction>), TokenError>(
                        TokenError::InsufficientStorageDeposit,
                    )
                } else {
                    &&& r is Ok
                    &&& final(self).malborn_token.accounts.spec_get(a) == Some(0u128)
                    &&& forall|b: Seq<char>|
                        b != a ==> #[trigger] final(self).malborn_token.accounts.spec_get(b)
                            == old(self).malborn_token.accounts.spec_get(b)
                    &&& final(self).malborn_token.accounts.key_seq() == old(self).malborn_token.accounts.key_seq().push(a)
                    &&& r->Ok_0.0 == (StorageBalance { total: min, available: 0u128 })
                    &&& ctx.attached_deposit > min ==> (r->Ok_0.1 matches Some(t) && t.receiver@
                        == ctx.predecessor_account_id@ && t.amount == ctx.attached_deposit - min)
                    &&& ctx.attached_deposit == min ==> r->Ok_0.1 is None
                }
            }),
    {
        self.malborn_token.storage_deposit(ctx, account_id)
    }

    /// Reports the caller's storage standing; nothing can ever be withdrawn.
    /// The call must attach exactly one yoctotoken.
    pub fn storage_withdraw(&mut self, ctx: &Context, amount: Option<u128>) -> (r: Result<
        StorageBalance,
        TokenError,
    >)
        requires
            old(self).wf(),
        ensures
            final(self).wf(),
            *final(self) == *old(self),
            r == if ctx.attached_deposit != 1 {
                Err::<StorageBalance, TokenError>(TokenError::OneYoctoRequired)
            } else if !old(self).malborn_token.registered(ctx.predecessor_account_id@) {
                Err::<StorageBalance, TokenError>(TokenError::NotRegistered)
            } else if amount matches Some(a) && a > 0 {
                Err::<StorageBalance, TokenError>(TokenError::StorageAmountTooHigh)
            } else {
                Ok::<StorageBalance, TokenError>(
                    StorageBalance {
                        total: old(self).malborn_token.spec_storage_min(),
                        available: 0u128,
                    },
                )
            },
    {
        self.malborn_token.storage_withdraw(ctx, amount)
    }

    /// Closes the caller's account: burns what it held (by force when the
    /// balance is positive), pays the storage deposit back, and says whether
    /// an account was closed.  The call must attach exactly one yoctotoken.
    pub fn storage_unregister(&mut self, ctx: &Context, force: Option<bool>) -> (r: Result<
        (bool, Option<TransferAction>),
        TokenError,
    >)
        requires
            old(self).wf(),
        ensures
            final(self).wf(),
            Self::frame_except_token(*old(self), *final(self)),
            final(self).malborn_token.account_storage_usage == old(self).malborn_token.account_storage_usage,
            old(self).malborn_token.supply_covers_balances() ==> final(self).malborn_token.supply_covers_balances(),
            r is Err ==> *final(self) == *old(self),
            ({
                let a = ctx.predecessor_account_id@;
                let balance = old(self).malborn_token.balance_of(a);
                if ctx.attached_deposit != 1 {
                    r == Err::<(bool, Option<TransferAction>), TokenError>(
                        TokenError::OneYoctoRequired,
                    )
                } else if !old(self).malborn_token.registered(a) {
                    r == Ok::<(bool, Option<TransferAction>), TokenError>(
                        (false, None::<TransferAction>),
                    ) && *final(self) == *old(self)
                } else if balance != 0 && force != Some(true) {
                    r == Err::<(bool, Option<TransferAction>), TokenError>(
                        TokenError::UnregisterWithBalance,
                    )
                } else if old(self).malborn_token.total_supply < balance {
                    r == Err::<(bool, Option<TransferAction>), TokenError>(
                        TokenError::TotalSupplyOverflow,
                    )
                } else {
                    &&& final(self).malborn_token.accounts.spec_get(a) == None::<u128>
                    &&& forall|b: Seq<char>|
                        b != a ==> #[trigger] final(self).malborn_token.accounts.spec_get(b)
                            == old(self).malborn_token.accounts.spec_get(b)
                    &&& final(self).malborn_token.total_supply == old(self).malborn_token.total_supply - balance
                    &&& final(self).malborn_token.accounts.total() == old(self).malborn_token.accounts.total() - balance
                    &&& r is Ok
                    &&& r->Ok_0.0 == true
                    &&& (r->Ok_0.1 matches Some(t) && t.receiver@ == a && t.amount == old(self).malborn_token.spec_storage_min().saturating_add(1))
                }
            }),
    {
        match self.malborn_token.internal_storage_unregister(ctx, force) {
            Ok(Some((_balance, refund))) => Ok((true, Some(refund))),
            Ok(None) => Ok((false, None)),
            Err(e) => Err(e),
        }
    }

    /// The storage deposit an account must bring; minimum and maximum
    /// coincide.
    pub fn storage_balance_bounds(&self) -> (r: StorageBalanceBounds)
        ensures
            r.min == self.malborn_token.spec_storage_min(),
            r.max == Some(self.malborn_token.spec_storage_min()),
    {
        self.malborn_token.storage_balance_bounds()
    }

    /// The storage standing of `account_id`, when it is registered.
    pub fn storage_balance_of(&self, account_id: &AccountId) -> (r: Option<StorageBalance>)
        ensures
            r == if self.malborn_token.registered(account_id@) {
                Some(
                    StorageBalance {
                        total: self.malborn_token.spec_storage_min(),
                        available: 0u128,
                    },
                )
            } else {
                None::<StorageBalance>
            },
    {
        self.malborn_token.storage_balance_of(account_id)
    }
}

} // verus!
