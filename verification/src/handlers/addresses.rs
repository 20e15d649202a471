//! The operations on the addresses of one wallet.

pub mod base;
