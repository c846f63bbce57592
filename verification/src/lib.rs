//! A family of small, intentionally vulnerable smart contracts, as verified
//! state machines: a staking contract and a fungible-token club contract for
//! the NEAR account model, a pausable runtime module, and an on-chain game's
//! level-up rule.  They are training targets: each carries planted bugs, and
//! the point of this library is that every bug is *stated*, not hidden — the
//! `ensures` clauses pin down the flawed behaviour precisely, where a correct
//! contract would promise something else.
//!
//! Each contract is a state machine over plain values.  What the blockchain
//! host would supply at run time (the signer, the attached deposit) comes in
//! through an explicit [`context::Context`]; what the contract would hand
//! back to the host (token transfers, cross-contract calls) is returned as
//! action values.  A call that aborts returns `Err` with the state left
//! unchanged, which is what a host's transaction rollback leaves behind.

pub mod account;
pub mod context;
pub mod fungible_token;
pub mod game;
pub mod ledger;
pub mod malborn;
pub mod metadata;
pub mod pause;
pub mod staking;
