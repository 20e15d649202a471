//! The operations of the registry on the state of the server.

pub mod addresses;
pub mod wallets;
