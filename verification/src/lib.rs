//! Composition of liquidity-position transactions for a bin-based market maker.
//!
//! A position is a range of price bins in a pool, owned by one account. This library turns
//! what a caller wants done to a position (open it, deposit into it by a strategy, withdraw
//! everything, close it) into the transaction that asks the liquidity program for it: the
//! exact accounts of each instruction, its encoded arguments, and the order of the
//! instructions. It reads nothing and submits nothing. The caller hands in what it read of
//! the chain and submits what it gets back.
//!
//! - [`pubkey`], [`codec`], [`wide`]: addresses and byte encodings.
//! - [`pda`]: the addresses of the accounts that belong to a pool, a bin or a wallet.
//! - [`instruction`], [`accounts`], [`args`], [`builders`]: the instructions of the liquidity
//!   program.
//! - [`resolver`]: from an operation and the state of the chain to its account set.
//! - [`composer`], [`operations`]: whole transactions.
//! - [`lifecycle`], [`submission`]: what a transaction does to a position, and what its
//!   submission returns.
//! - [`laws`]: what holds of every composed transaction.

pub mod accounts;
pub mod args;
pub mod builders;
pub mod codec;
pub mod composer;
pub mod instruction;
pub mod laws;
pub mod lifecycle;
pub mod operations;
pub mod pda;
pub mod pubkey;
pub mod resolver;
pub mod submission;
pub mod wide;
