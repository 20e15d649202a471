//! Multisignature wallets and the unspent outputs they report.

use crate::errors::WalletError;
use crate::models::hd_wallet::HdAddress;
use crate::models::resource_address::{add_to, remove_from};
use crate::models::resource_wallet::ResourceWallet;
use crate::models::wallet::Wallet;
use crate::models::wallets::{WalletKind, Wallets};
use vstd::prelude::*;

verus! {

/// A wallet that several extended public keys control, `signers` of which
/// have to sign.
#[derive(Debug, Clone, PartialEq, Eq)]
pub struct MultisigWallet {
    pub id: Option<u64>,
    pub version: String,
    pub addresses: Vec<HdAddress>,
    pub xpubs: Vec<String>,
    pub signers: u64,
}

/// An unspent output of a multisignature wallet.
#[derive(Debug, Clone, PartialEq, Eq)]
pub struct MultisigUtxo {
    pub prev_hash: String,
    pub prev_index: u64,
    pub address: HdAddress,
    pub amount: u64,
    pub script_type: String,
    pub multisig: MultisigDefinition,
}

/// Who can spend a multisignature output.
#[derive(Debug, Clone, PartialEq, Eq)]
pub struct MultisigDefinition {
    pub signatures: Vec<String>,
    pub m: usize,
    pub pubkeys: Vec<PubkeyDefinition>,
}

/// One of the keys of a multisignature output.
#[derive(Debug, Clone, PartialEq, Eq)]
pub struct PubkeyDefinition {
    pub address_n: Vec<u64>,
    pub node: NodeDefinition,
}

/// A node of a key tree.
#[derive(Debug, Clone, PartialEq, Eq)]
pub struct NodeDefinition {
    pub chain_code: String,
    pub depth: u64,
    pub child_num: u64,
    pub fingerprint: u64,
    pub public_key: String,
}

impl MultisigWallet {
    /// `definition` is the key that the fixed output lists for
    /// `xpub`.
    pub open spec fn is_fixed_pubkey(definition: PubkeyDefinition, xpub: String) -> bool {
        &&& definition.address_n@ == seq![0u64, 0u64, 1u64]
        &&& definition.node.chain_code@ == "Hello"@
        &&& definition.node.depth == 0
        &&& definition.node.child_num == 0
        &&& definition.node.fingerprint == 0
        &&& definition.node.public_key@ == xpub@
    }

    /// `utxo` is the fixed output of this wallet: constant values, and
    /// one key for each extended public key of the wallet, in their order.
    pub open spec fn is_fixed_utxo(&self, utxo: MultisigUtxo) -> bool {
        &&& utxo.prev_hash@ == "abc"@
        &&& utxo.prev_index == 1
        &&& utxo.address.id is None
        &&& utxo.address.address@ == "abc"@
        &&& utxo.address.path@ == seq![0u64, 1u64, 0u64]
        &&& utxo.amount == 100000000
        &&& utxo.script_type@ == "SPENDMULTISIG"@
        &&& utxo.multisig.signatures@.len() == 3
        &&& forall|i: int| 0 <= i < 3 ==> (#[trigger] utxo.multisig.signatures@[i])@.len() == 0
        &&& utxo.multisig.m == self.xpubs@.len()
        &&& utxo.multisig.pubkeys@.len() == self.xpubs@.len()
        &&& forall|i: int|
            0 <= i < self.xpubs@.len() ==> Self::is_fixed_pubkey(
                #[trigger] utxo.multisig.pubkeys@[i],
                self.xpubs@[i],
            )
    }
}

impl Wallet for MultisigWallet {
    type Utxo = MultisigUtxo;

    type Incoming = MultisigUtxo;

    open spec fn spec_utxos(
        &self,
        limit: Option<u64>,
        since: Option<u64>,
        utxos: Seq<MultisigUtxo>,
    ) -> bool {
        if limit == Some(0u64) {
            utxos.len() == 0
        } else {
            &&& utxos.len() == 1
            &&& self.is_fixed_utxo(utxos[0])
        }
    }

    open spec fn spec_incoming(
        &self,
        limit: Option<u64>,
        since: Option<u64>,
        incoming: Seq<MultisigUtxo>,
    ) -> bool {
        incoming.len() == 0
    }

    /// Reports one fixed output, or none where `limit` leaves room for
    /// none; `since` is not read and the chain is not consulted.
    fn get_utxos(&self, limit: Option<u64>, since: Option<u64>) -> (utxos: Vec<MultisigUtxo>) {
        match limit {
            Some(most) => {
                if most == 0 {
                    return Vec::new();
                }
            },
            None => {},
        }
        let mut pubkeys: Vec<PubkeyDefinition> = Vec::new();
        let mut index: usize = 0;
        while index < self.xpubs.len()
            invariant
                index <= self.xpubs@.len(),
                pubkeys@.len() == index,
                forall|i: int|
                    0 <= i < index ==> Self::is_fixed_pubkey(
                        #[trigger] pubkeys@[i],
                        self.xpubs@[i],
                    ),
            decreases self.xpubs@.len() - index,
        {
            pubkeys.push(
                PubkeyDefinition {
                    address_n: vec![0, 0, 1],
                    node: NodeDefinition {
                        chain_code: String::from_str("Hello"),
                        depth: 0,
                        child_num: 0,
                        fingerprint: 0,
                        public_key: self.xpubs[index].clone(),
                    },
                },
            );
            index += 1;
        }
        let utxo = MultisigUtxo {
            prev_hash: String::from_str("abc"),
            prev_index: 1,
            address: HdAddress { id: None, address: String::from_str("abc"), path: vec![0, 1, 0] },
            amount: 100000000,
            script_type: String::from_str("SPENDMULTISIG"),
            multisig: MultisigDefinition {
                signatures: vec![String::new(), String::new(), String::new()],
                m: self.xpubs.len(),
                pubkeys,
            },
        };
        vec![utxo]
    }

    /// Reports no incoming transaction, whatever the bounds; the chain is
    /// not consulted.
    fn get_incoming(&self, limit: Option<u64>, since: Option<u64>) -> (incoming: Vec<
        MultisigUtxo,
    >) {
        Vec::new()
    }
}

impl ResourceWallet for MultisigWallet {
    type A = HdAddress;

    open spec fn spec_kind() -> WalletKind {
        WalletKind::Multisig
    }

    open spec fn spec_raw_id(&self) -> Option<u64> {
        self.id
    }

    open spec fn spec_addresses(&self) -> Seq<HdAddress> {
        self.addresses@
    }

    open spec fn spec_set_id(self, new_id: u64) -> Self {
        MultisigWallet { id: Some(new_id), ..self }
    }

    open spec fn spec_merge(self, newer: Self) -> Self {
        MultisigWallet { addresses: self.addresses, ..newer }
    }

    open spec fn same_apart_from_addresses(&self, other: &Self) -> bool {
        &&& self.id == other.id
        &&& self.version == other.version
        &&& self.xpubs == other.xpubs
        &&& self.signers == other.signers
    }

    open spec fn spec_jsonapi_type() -> Seq<char> {
        "multisig_wallet"@
    }

    open spec fn spec_default_fields() -> Seq<char> {
        "version,xpubs,signers"@
    }

    open spec fn spec_collection(wallets: Wallets) -> Seq<Self> {
        wallets.multisigs@
    }

    proof fn lemma_set_id(self, new_id: u64) {
    }

    proof fn lemma_merge(self, newer: Self) {
    }

    proof fn lemma_same_apart_from_addresses(&self, other: &Self, third: &Self) {
    }

    fn raw_id(&self) -> (id: Option<u64>) {
        self.id
    }

    fn set_id(self, new_id: u64) -> (wallet: Self) {
        MultisigWallet { id: Some(new_id), ..self }
    }

    fn merge(self, newer: Self) -> (wallet: Self) {
        let addresses = self.addresses;
        MultisigWallet { addresses, ..newer }
    }

    fn add_address(&mut self, address: HdAddress) -> (outcome: Result<bool, WalletError>) {
        add_to(&mut self.addresses, address)
    }

    fn get_addresses(&self) -> (addresses: &Vec<HdAddress>) {
        &self.addresses
    }

    fn remove_address(&mut self, address: HdAddress) -> (outcome: Result<bool, WalletError>) {
        remove_from(&mut self.addresses, address)
    }

    fn jsonapi_type() -> (name: &'static str) {
        proof {
            reveal_strlit("multisig_wallet");
        }
        "multisig_wallet"
    }

    fn default_fields() -> (fields: &'static str) {
        proof {
            reveal_strlit("version,xpubs,signers");
        }
        "version,xpubs,signers"
    }

    fn collection(wallets: &Wallets) -> (collection: &Vec<Self>) {
        &wallets.multisigs
    }

    fn collection_from_wallets(wallets: &mut Wallets) -> (collection: &mut Vec<Self>) {
        &mut wallets.multisigs
    }
}

} // verus!
