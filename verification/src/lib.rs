//! An in-memory registry of cryptocurrency wallets.
//!
//! Three kinds of wallet (plain, hierarchical-deterministic and
//! multisignature) are kept in one store. A single set of operations,
//! written against the [`models::resource_wallet::ResourceWallet`]
//! capability, lists, shows, creates, updates and destroys wallets of any
//! kind and manages the addresses that belong to a wallet. Every operation
//! carries a contract that says which store it leaves behind and which
//! error it reports.

pub mod errors;
pub mod handlers;
pub mod laws;
pub mod lookup;
pub mod models;
pub mod server_state;
