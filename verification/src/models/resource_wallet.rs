//! The capability that every kind of wallet offers to the registry.
//!
//! The operations of the registry are written once, against this trait.
//! Each kind of wallet says how its identifier is read and set, which
//! record an update leaves behind, how its addresses change, under which
//! resource type and with which fields it is serialized, and where its
//! collection lives in the store.

use crate::errors::WalletError;
use crate::models::query::{field_selection, is_name, is_name_list, parsed_query, selection_params};
use crate::models::resource_address::{added, has_address, removed, ResourceAddress};
use crate::models::wallets::{WalletKind, Wallets};
use jsonapi::query::Query;
use vstd::prelude::*;

verus! {

/// The identifier that stands for an optional one in a lookup: 0 for an
/// absent identifier.
pub open spec fn id_or_zero(raw_id: Option<u64>) -> u64 {
    match raw_id {
        Some(id) => id,
        None => 0,
    }
}

/// A kind of wallet that the registry can hold.
pub trait ResourceWallet: Sized {
    /// The addresses of this kind of wallet.
    type A: ResourceAddress;

    /// The kind of wallet, which names its collection in the store.
    spec fn spec_kind() -> WalletKind;

    /// The identifier; `None` while none is assigned.
    spec fn spec_raw_id(&self) -> Option<u64>;

    /// The addresses of the wallet, in their order.
    spec fn spec_addresses(&self) -> Seq<Self::A>;

    /// The wallet with its identifier set to `new_id`.
    spec fn spec_set_id(self, new_id: u64) -> Self;

    /// The record that an update leaves behind: the addresses of `self`,
    /// everything else from `newer`.
    spec fn spec_merge(self, newer: Self) -> Self;

    /// The two wallets differ in nothing but their addresses.
    spec fn same_apart_from_addresses(&self, other: &Self) -> bool;

    /// The resource type under which the wallet is serialized.
    spec fn spec_jsonapi_type() -> Seq<char>;

    /// The fields that are serialized when a collection is listed.
    spec fn spec_default_fields() -> Seq<char>;

    /// The collection of this kind of wallet in the store.
    spec fn spec_collection(wallets: Wallets) -> Seq<Self>;

    /// Setting the identifier sets it and keeps the addresses.
    proof fn lemma_set_id(self, new_id: u64)
        ensures
            self.spec_set_id(new_id).spec_raw_id() == Some(new_id),
            self.spec_set_id(new_id).spec_addresses() == self.spec_addresses(),
    ;

    /// A merged record has the addresses of the older record and differs
    /// from the newer one in nothing else.
    proof fn lemma_merge(self, newer: Self)
        ensures
            self.spec_merge(newer).spec_addresses() == self.spec_addresses(),
            self.spec_merge(newer).same_apart_from_addresses(&newer),
    ;

    /// To differ in nothing but the addresses is an equivalence: a wallet
    /// differs from itself in nothing, the relation can be turned around,
    /// and it passes along a chain. Wallets that it relates have the same
    /// identifier.
    proof fn lemma_same_apart_from_addresses(&self, other: &Self, third: &Self)
        ensures
            self.same_apart_from_addresses(self),
            self.same_apart_from_addresses(other) ==> other.same_apart_from_addresses(self),
            self.same_apart_from_addresses(other) && other.same_apart_from_addresses(third)
                ==> self.same_apart_from_addresses(third),
            self.same_apart_from_addresses(other) ==> self.spec_raw_id() == other.spec_raw_id(),
    ;

    /// The identifier; `None` while none is assigned.
    fn raw_id(&self) -> (id: Option<u64>)
        ensures
            id == self.spec_raw_id(),
    ;

    /// The identifier by which the wallet is looked up: 0 while none is
    /// assigned.
    fn id(&self) -> (id: u64)
        ensures
            id == id_or_zero(self.spec_raw_id()),
    {
        match self.raw_id() {
            Some(id) => id,
            None => 0,
        }
    }

    /// The wallet with its identifier set to `new_id`.
    fn set_id(self, new_id: u64) -> (wallet: Self)
        ensures
            wallet == self.spec_set_id(new_id),
    ;

    /// Gives a wallet without an identifier the one after `last_id`, and
    /// leaves any other unchanged. For a wallet without an identifier,
    /// `last_id` must not be the largest identifier there is.
    fn set_auto_id_if_needed(self, last_id: u64) -> (wallet: Self)
        requires
            self.spec_raw_id() is None ==> last_id < u64::MAX,
        ensures
            wallet == if self.spec_raw_id() is None {
                self.spec_set_id((last_id + 1) as u64)
            } else {
                self
            },
    {
        if self.raw_id().is_none() {
            self.set_id(last_id + 1)
        } else {
            self
        }
    }

    /// The record that an update leaves behind: the addresses of `self`,
    /// everything else from `newer`.
    fn merge(self, newer: Self) -> (wallet: Self)
        ensures
            wallet == self.spec_merge(newer),
    ;

    /// Adds an address at the end, unless the wallet has one with the same
    /// identifier. Nothing but the addresses changes, and nothing at all
    /// where the address is refused.
    fn add_address(&mut self, address: Self::A) -> (outcome: Result<bool, WalletError>)
        ensures
            final(self).same_apart_from_addresses(old(self)),
            match outcome {
                Ok(flag) => {
                    &&& flag
                    &&& added(old(self).spec_addresses(), address) == Ok::<
                        Seq<Self::A>,
                        WalletError,
                    >(final(self).spec_addresses())
                },
                Err(error) => {
                    &&& added(old(self).spec_addresses(), address) == Err::<
                        Seq<Self::A>,
                        WalletError,
                    >(error)
                    &&& *final(self) == *old(self)
                },
            },
    ;

    /// The addresses of the wallet, in their order.
    fn get_addresses(&self) -> (addresses: &Vec<Self::A>)
        ensures
            addresses@ == self.spec_addresses(),
    ;

    /// Takes out the first address that has the identifier of `address`.
    /// Nothing but the addresses changes, and nothing at all where no
    /// address has that identifier.
    fn remove_address(&mut self, address: Self::A) -> (outcome: Result<bool, WalletError>)
        ensures
            final(self).same_apart_from_addresses(old(self)),
            match outcome {
                Ok(flag) => {
                    &&& flag
                    &&& removed(old(self).spec_addresses(), address.spec_raw_id()) == Ok::<
                        Seq<Self::A>,
                        WalletError,
                    >(final(self).spec_addresses())
                },
                Err(error) => {
                    &&& removed(old(self).spec_addresses(), address.spec_raw_id()) == Err::<
                        Seq<Self::A>,
                        WalletError,
                    >(error)
                    &&& !has_address(old(self).spec_addresses(), address.spec_raw_id())
                    &&& *final(self) == *old(self)
                },
            },
    ;

    /// The resource type under which the wallet is serialized.
    fn jsonapi_type() -> (name: &'static str)
        ensures
            name@ == Self::spec_jsonapi_type(),
            is_name(name@),
    ;

    /// The fields that are serialized when a collection is listed,
    /// separated by commas.
    fn default_fields() -> (fields: &'static str)
        ensures
            fields@ == Self::spec_default_fields(),
            is_name_list(fields@),
    ;

    /// The query that selects the default fields of this kind of wallet.
    fn default_query() -> (query: Query)
        ensures
            query == parsed_query(
                selection_params(Self::spec_jsonapi_type(), Self::spec_default_fields()),
            ),
    {
        field_selection(Self::jsonapi_type(), Self::default_fields())
    }

    /// The collection of this kind of wallet in the store.
    fn collection(wallets: &Wallets) -> (collection: &Vec<Self>)
        ensures
            collection@ == Self::spec_collection(*wallets),
    ;

    /// The collection of this kind of wallet in the store, to be changed
    /// in place. The rest of the store stays as it is.
    fn collection_from_wallets(wallets: &mut Wallets) -> (collection: &mut Vec<Self>)
        ensures
            collection@ == Self::spec_collection(*old(wallets)),
            Self::spec_collection(*final(wallets)) == final(collection)@,
            final(wallets).same_apart_from(*old(wallets), Self::spec_kind()),
    ;
}

/// The identifier by which a wallet is looked up: 0 while none is
/// assigned.
pub open spec fn id_of<W: ResourceWallet>(wallet: W) -> u64 {
    id_or_zero(wallet.spec_raw_id())
}

} // verus!
