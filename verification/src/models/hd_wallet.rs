//! Hierarchical-deterministic wallets and their addresses.

use crate::errors::WalletError;
use crate::models::resource_address::{add_to, remove_from, ResourceAddress};
use crate::models::resource_wallet::ResourceWallet;
use crate::models::wallet::Wallet;
use crate::models::wallets::{WalletKind, Wallets};
use vstd::prelude::*;

verus! {

/// A wallet whose addresses are derived from one extended public key.
#[derive(Debug, Clone, PartialEq, Eq)]
pub struct HdWallet {
    pub id: Option<u64>,
    pub version: String,
    pub addresses: Vec<HdAddress>,
    pub xpub: String,
}

/// An unspent output of a hierarchical-deterministic wallet.
#[derive(Debug, Clone, PartialEq, Eq)]
pub struct HdUtxo {
    pub prev_hash: String,
    pub prev_index: u64,
    pub address: HdAddress,
    pub amount: u64,
}

/// An address together with the path along which it was derived.
#[derive(Debug, Clone, PartialEq, Eq)]
pub struct HdAddress {
    pub id: Option<u64>,
    pub address: String,
    pub path: Vec<u64>,
}

impl ResourceAddress for HdAddress {
    open spec fn spec_raw_id(&self) -> Option<u64> {
        self.id
    }

    open spec fn spec_jsonapi_type() -> Seq<char> {
        "hd_address"@
    }

    fn raw_id(&self) -> (id: Option<u64>) {
        self.id
    }

    fn jsonapi_type() -> (name: &'static str) {
        proof {
            reveal_strlit("hd_address");
        }
        "hd_address"
    }
}

impl Wallet for HdWallet {
    type Utxo = HdUtxo;

    type Incoming = HdUtxo;

    open spec fn spec_utxos(
        &self,
        limit: Option<u64>,
        since: Option<u64>,
        utxos: Seq<HdUtxo>,
    ) -> bool {
        utxos.len() == 0
    }

    open spec fn spec_incoming(
        &self,
        limit: Option<u64>,
        since: Option<u64>,
        incoming: Seq<HdUtxo>,
    ) -> bool {
        incoming.len() == 0
    }

    /// Reports no output, whatever the bounds; the chain is not consulted.
    fn get_utxos(&self, limit: Option<u64>, since: Option<u64>) -> (utxos: Vec<HdUtxo>) {
        Vec::new()
    }

    /// Reports no incoming transaction, whatever the bounds; the chain is
    /// not consulted.
    fn get_incoming(&self, limit: Option<u64>, since: Option<u64>) -> (incoming: Vec<HdUtxo>) {
        Vec::new()
    }
}

impl ResourceWallet for HdWallet {
    type A = HdAddress;

    open spec fn spec_kind() -> WalletKind {
        WalletKind::Hd
    }

    open spec fn spec_raw_id(&self) -> Option<u64> {
        self.id
    }

    open spec fn spec_addresses(&self) -> Seq<HdAddress> {
        self.addresses@
    }

    open spec fn spec_set_id(self, new_id: u64) -> Self {
        HdWallet { id: Some(new_id), ..self }
    }

    open spec fn spec_merge(self, newer: Self) -> Self {
        HdWallet { addresses: self.addresses, ..newer }
    }

    open spec fn same_apart_from_addresses(&self, other: &Self) -> bool {
        &&& self.id == other.id
        &&& self.version == other.version
        &&& self.xpub == other.xpub
    }

    open spec fn spec_jsonapi_type() -> Seq<char> {
        "hd_wallet"@
    }

    open spec fn spec_default_fields() -> Seq<char> {
        "version,xpub"@
    }

    open spec fn spec_collection(wallets: Wallets) -> Seq<Self> {
        wallets.hds@
    }

    proof fn lemma_set_id(self, new_id: u64) {
    }

    proof fn lemma_merge(self, newer: Self) {
    }

    proof fn lemma_same_apart_from_addresses(&self, other: &Self, third: &Self) {
    }

    fn raw_id(&self) -> (id: Option<u64>) {
        self.id
    }

    fn set_id(self, new_id: u64) -> (wallet: Self) {
        HdWallet { id: Some(new_id), ..self }
    }

    fn merge(self, newer: Self) -> (wallet: Self) {
        let addresses = self.addresses;
        HdWallet { addresses, ..newer }
    }

    fn add_address(&mut self, address: HdAddress) -> (outcome: Result<bool, WalletError>) {
        add_to(&mut self.addresses, address)
    }

    fn get_addresses(&self) -> (addresses: &Vec<HdAddress>) {
        &self.addresses
    }

    fn remove_address(&mut self, address: HdAddress) -> (outcome: Result<bool, WalletError>) {
        remove_from(&mut self.addresses, address)
    }

    fn jsonapi_type() -> (name: &'static str) {
        proof {
            reveal_strlit("hd_wallet");
        }
        "hd_wallet"
    }

    fn default_fields() -> (fields: &'static str) {
        proof {
            reveal_strlit("version,xpub");
        }
        "version,xpub"
    }

    fn collection(wallets: &Wallets) -> (collection: &Vec<Self>) {
        &wallets.hds
    }

    fn collection_from_wallets(wallets: &mut Wallets) -> (collection: &mut Vec<Self>) {
        &mut wallets.hds
    }
}

} // verus!
