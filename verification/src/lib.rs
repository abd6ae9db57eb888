//! A custodial crowdfunding escrow: a maker opens a fundraiser with a target
//! and a deadline, contributors deposit into a vault that only the
//! fundraiser's derived address controls, and the vault is either swept by
//! the maker or refunded to the contributors.
//!
//! The crate decides and never acts. Each operation takes a snapshot of the
//! accounts it is handed, the instruction data and the time, and answers
//! with an [`outcome::Outcome`]: the custody transfer for the host to
//! perform and the records to store afterwards.
//!
//! - [`wire`], [`address`], [`account`]: bytes, addresses and accounts.
//! - [`state`]: the fundraiser and contributor records and their layouts.
//! - [`authority`]: the derived address that controls record and vault.
//! - [`token`], [`custody`]: token balances and the transfer instruction.
//! - [`lifecycle`]: the rules of deposit, sweep and refund.
//! - [`instructions`]: the operations on accounts, and their dispatch.
//! - [`outcome`]: what an accepted operation asks of the host.
//! - [`invariants`]: what holds of the books over a fundraiser's life.
pub mod account;
pub mod address;
pub mod authority;
pub mod custody;
pub mod error;
pub mod instructions;
pub mod invariants;
pub mod lifecycle;
pub mod outcome;
pub mod state;
pub mod token;
pub mod wire;
