//! Plain wallets: a list of addresses and nothing else.

use crate::errors::WalletError;
use crate::models::resource_address::{add_to, remove_from, ResourceAddress};
use crate::models::resource_wallet::ResourceWallet;
use crate::models::wallets::{WalletKind, Wallets};
use vstd::prelude::*;

verus! {

/// A wallet that holds addresses without any key material.
#[derive(Debug, Clone, PartialEq, Eq)]
pub struct PlainWallet {
    pub id: Option<u64>,
    pub version: String,
    pub addresses: Vec<Address>,
}

/// An address of a plain wallet.
#[derive(Debug, Clone, PartialEq, Eq)]
pub struct Address {
    pub id: Option<u64>,
    pub address: String,
}

impl ResourceAddress for Address {
    open spec fn spec_raw_id(&self) -> Option<u64> {
        self.id
    }

    open spec fn spec_jsonapi_type() -> Seq<char> {
        "address"@
    }

    fn raw_id(&self) -> (id: Option<u64>) {
        self.id
    }

    fn jsonapi_type() -> (name: &'static str) {
        proof {
            reveal_strlit("address");
        }
        "address"
    }
}

impl ResourceWallet for PlainWallet {
    type A = Address;

    open spec fn spec_kind() -> WalletKind {
        WalletKind::Plain
    }

    open spec fn spec_raw_id(&self) -> Option<u64> {
        self.id
    }

    open spec fn spec_addresses(&self) -> Seq<Address> {
        self.addresses@
    }

    open spec fn spec_set_id(self, new_id: u64) -> Self {
        PlainWallet { id: Some(new_id), ..self }
    }

    open spec fn spec_merge(self, newer: Self) -> Self {
        PlainWallet { addresses: self.addresses, ..newer }
    }

    open spec fn same_apart_from_addresses(&self, other: &Self) -> bool {
        &&& self.id == other.id
        &&& self.version == other.version
    }

    open spec fn spec_jsonapi_type() -> Seq<char> {
        "plain_wallet"@
    }

    open spec fn spec_default_fields() -> Seq<char> {
        "version"@
    }

    open spec fn spec_collection(wallets: Wallets) -> Seq<Self> {
        wallets.plains@
    }

    proof fn lemma_set_id(self, new_id: u64) {
    }

    proof fn lemma_merge(self, newer: Self) {
    }

    proof fn lemma_same_apart_from_addresses(&self, other: &Self, third: &Self) {
    }

    fn raw_id(&self) -> (id: Option<u64>) {
        self.id
    }

    fn set_id(self, new_id: u64) -> (wallet: Self) {
        PlainWallet { id: Some(new_id), ..self }
    }

    fn merge(self, newer: Self) -> (wallet: Self) {
        let addresses = self.addresses;
        PlainWallet { addresses, ..newer }
    }

    fn add_address(&mut self, address: Address) -> (outcome: Result<bool, WalletError>) {
        add_to(&mut self.addresses, address)
    }

    fn get_addresses(&self) -> (addresses: &Vec<Address>) {
        &self.addresses
    }

    fn remove_address(&mut self, address: Address) -> (outcome: Result<bool, WalletError>) {
        remove_from(&mut self.addresses, address)
    }

    fn jsonapi_type() -> (name: &'static str) {
        proof {
            reveal_strlit("plain_wallet");
        }
        "plain_wallet"
    }

    fn default_fields() -> (fields: &'static str) {
        proof {
            reveal_strlit("version");
        }
        "version"
    }

    fn collection(wallets: &Wallets) -> (collection: &Vec<Self>) {
        &wallets.plains
    }

    fn collection_from_wallets(wallets: &mut Wallets) -> (collection: &mut Vec<Self>) {
        &mut wallets.plains
    }
}

} // verus!
