//! Client-side transaction building for a UTXO ledger.
//!
//! From a sender, a recipient, a worth and the outputs that the ledger
//! offers for spending, the crate derives a signed transaction that is
//! identified by its hash, ready to be submitted.
//!
//! - [`hash`]: SHA-256 digests in lowercase hexadecimal.
//! - [`merkle`]: reduction of ordered digests to a root.
//! - [`amount`]: exact decimal amounts.
//! - [`keys`]: public keys, addresses and signatures.
//! - [`json`]: the JSON text that is hashed and sent.
//! - [`utxo`], [`unspent`], [`transaction`]: the records of a transaction.
//! - [`selector`]: the outputs of a transfer.
//! - [`wire`], [`error`], [`pipeline`]: the ordered steps of a transfer and
//!   what the ledger service says to them.
//!
//! The crate performs no I/O. The caller makes the exchanges with the
//! service and hands in how they ended.

pub mod amount;
pub mod error;
pub mod hash;
pub mod json;
pub mod keys;
pub mod merkle;
pub mod pipeline;
pub mod selector;
pub mod transaction;
pub mod unspent;
pub mod utxo;
pub mod wire;
