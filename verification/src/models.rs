//! The data of the registry: addresses, the three kinds of wallet, the
//! capability they share, and the store that holds them.

pub mod hd_wallet;
pub mod multisig_wallet;
pub mod plain_wallet;
pub mod query;
pub mod resource_address;
pub mod resource_wallet;
pub mod wallet;
pub mod wallets;
