//! The store: one ordered collection for each kind of wallet.

use crate::errors::WalletError;
use crate::lookup::{
    is_first, is_largest, lemma_max_key, lemma_position, lemma_position_is, max_key, position,
};
use crate::models::hd_wallet::HdWallet;
use crate::models::multisig_wallet::MultisigWallet;
use crate::models::plain_wallet::PlainWallet;
use crate::models::resource_address::{added, has_address, removed, ResourceAddress};
use crate::models::resource_wallet::{id_of, ResourceWallet};
use vstd::prelude::*;

verus! {

/// The kinds of wallet that the store holds.
#[derive(Clone, Copy, Debug, PartialEq, Eq)]
pub enum WalletKind {
    Plain,
    Hd,
    Multisig,
}

/// The store of the registry.
#[derive(Debug, Clone, PartialEq, Eq)]
pub struct Wallets {
    pub id: String,
    pub plains: Vec<PlainWallet>,
    pub hds: Vec<HdWallet>,
    pub multisigs: Vec<MultisigWallet>,
}

/// The identifiers by which the wallets of a collection are looked up, in
/// the order of the collection.
pub open spec fn wallet_ids<W: ResourceWallet>(wallets: Seq<W>) -> Seq<u64> {
    Seq::new(wallets.len(), |i: int| id_of(wallets[i]))
}

/// A wallet of the collection is looked up by `id`.
pub open spec fn has_id<W: ResourceWallet>(wallets: Seq<W>, id: u64) -> bool {
    exists|j: int| 0 <= j < wallets.len() && id_of(#[trigger] wallets[j]) == id
}

/// A wallet is looked up by `id` exactly when `id` has a place among the
/// identifiers of the collection.
pub proof fn lemma_has_id<W: ResourceWallet>(wallets: Seq<W>, id: u64)
    ensures
        has_id(wallets, id) <==> wallet_ids(wallets).contains(id),
        has_id(wallets, id) <==> position(wallet_ids(wallets), id) is Some,
{
    let ids = wallet_ids(wallets);
    lemma_position(ids, id);
    if has_id(wallets, id) {
        let j = choose|j: int| 0 <= j < wallets.len() && id_of(#[trigger] wallets[j]) == id;
        assert(ids[j] == id);
    }
    if ids.contains(id) {
        let j = choose|j: int| 0 <= j < ids.len() && ids[j] == id;
        assert(id_of(wallets[j]) == id);
    }
}

/// What a creation stores in a collection: `new` itself where it has an
/// identifier that no wallet of the collection is looked up by; `new` with
/// the identifier after the largest one where it has none.
///
/// A creation is refused with `Conflict` where the identifier of `new` is
/// taken, and where `new` has none and the largest identifier there is is
/// taken, so that none is left to follow it.
pub open spec fn created<W: ResourceWallet>(collection: Seq<W>, new: W) -> Result<W, WalletError> {
    match new.spec_raw_id() {
        Some(id) => if has_id(collection, id) {
            Err(WalletError::Conflict(id))
        } else {
            Ok(new)
        },
        None => if has_id(collection, u64::MAX) {
            Err(WalletError::Conflict(u64::MAX))
        } else {
            Ok(new.spec_set_id((max_key(wallet_ids(collection)) + 1) as u64))
        },
    }
}

/// The collection after an update: the wallet at `index` gives way to its
/// merge with `new`, in the same place. The merged record keeps the
/// addresses it had and takes everything else from `new`.
pub open spec fn merged_at<W: ResourceWallet>(collection: Seq<W>, index: int, new: W) -> Seq<W> {
    collection.update(index, collection[index].spec_merge(new))
}

/// `after` is `before` with the addresses of the wallet at `index`
/// replaced by `addresses`, and nothing else changed.
pub open spec fn with_addresses_at<W: ResourceWallet>(
    before: Seq<W>,
    after: Seq<W>,
    index: int,
    addresses: Seq<W::A>,
) -> bool {
    &&& after.len() == before.len()
    &&& forall|j: int| 0 <= j < before.len() && j != index ==> after[j] == before[j]
    &&& after[index].spec_addresses() == addresses
    &&& after[index].same_apart_from_addresses(&before[index])
}

/// The place of the first wallet that is looked up by `id`.
pub fn find_wallet<W: ResourceWallet>(haystack: &Vec<W>, id: u64) -> (found: Option<usize>)
    ensures
        match found {
            Some(index) => {
                &&& index < haystack.len()
                &&& position(wallet_ids(haystack@), id) == Some(index as int)
            },
            None => {
                &&& position(wallet_ids(haystack@), id) is None
                &&& !has_id(haystack@, id)
            },
        },
{
    let ghost keys = wallet_ids(haystack@);
    let mut index: usize = 0;
    while index < haystack.len()
        invariant
            index <= haystack.len(),
            keys == wallet_ids(haystack@),
            forall|j: int| 0 <= j < index ==> keys[j] != id,
        decreases haystack.len() - index,
    {
        if haystack[index].id() == id {
            proof {
                assert(keys[index as int] == id);
                assert(is_first(keys, id, index as int));
                lemma_position_is(keys, id, index as int);
            }
            return Some(index);
        }
        index += 1;
    }
    proof {
        lemma_has_id(haystack@, id);
    }
    None
}

/// The largest identifier by which a wallet of the collection is looked
/// up, or 0 for an empty collection.
pub fn last_id<W: ResourceWallet>(haystack: &Vec<W>) -> (id: u64)
    ensures
        is_largest(wallet_ids(haystack@), id),
        id == max_key(wallet_ids(haystack@)),
{
    let ghost keys = wallet_ids(haystack@);
    let mut largest: u64 = 0;
    let mut index: usize = 0;
    while index < haystack.len()
        invariant
            index <= haystack.len(),
            keys == wallet_ids(haystack@),
            is_largest(keys.take(index as int), largest),
        decreases haystack.len() - index,
    {
        let id = haystack[index].id();
        proof {
            let seen = keys.take(index as int);
            let upto = keys.take(index as int + 1);
            assert(upto[index as int] == id);
            assert forall|j: int| 0 <= j < upto.len() implies upto[j] <= (if id > largest {
                id
            } else {
                largest
            }) by {
                if j < index {
                    assert(seen[j] == upto[j]);
                }
            }
            if id <= largest && index > 0 {
                let j = choose|j: int| 0 <= j < seen.len() && seen[j] == largest;
                assert(upto[j] == largest);
            }
        }
        if id > largest {
            largest = id;
        }
        index += 1;
    }
    proof {
        assert(keys.take(index as int) == keys);
        lemma_max_key(keys);
    }
    largest
}

/// Puts the merge of the wallet at `index` and `newer` in the place of
/// that wallet.
pub(crate) fn merge_at<W: ResourceWallet>(haystack: &mut Vec<W>, index: usize, newer: W)
    requires
        index < old(haystack).len(),
    ensures
        final(haystack)@ == merged_at(old(haystack)@, index as int, newer),
        final(haystack)@[index as int].spec_addresses() == old(
            haystack,
        )@[index as int].spec_addresses(),
        final(haystack)@[index as int].same_apart_from_addresses(&newer),
{
    let ghost before = haystack@;
    proof {
        before[index as int].lemma_merge(newer);
    }
    let old_item = haystack.remove(index);
    let new_item = old_item.merge(newer);
    haystack.insert(index, new_item);
    assert(haystack@ == before.update(index as int, new_item));
}

impl Wallets {
    /// The two stores differ in nothing but the collection of `kind`.
    pub open spec fn same_apart_from(self, other: Wallets, kind: WalletKind) -> bool {
        &&& self.id == other.id
        &&& !(kind is Plain) ==> self.plains == other.plains
        &&& !(kind is Hd) ==> self.hds == other.hds
        &&& !(kind is Multisig) ==> self.multisigs == other.multisigs
    }

    /// A store without any wallet.
    pub fn new() -> (wallets: Wallets)
        ensures
            wallets.id@.len() == 0,
            wallets.plains@.len() == 0,
            wallets.hds@.len() == 0,
            wallets.multisigs@.len() == 0,
    {
        Wallets { id: String::new(), plains: Vec::new(), hds: Vec::new(), multisigs: Vec::new() }
    }

    /// Stores `field_wallet` at the end of the collection. A wallet without
    /// an identifier is given the one after the largest in the collection,
    /// which is 1 in an empty collection; any other is stored as it is.
    ///
    /// Fails with `Conflict`, and changes nothing, where a wallet of the
    /// collection is looked up by the identifier of `field_wallet`, and
    /// where `field_wallet` has none and the largest identifier there is
    /// is taken.
    pub fn add_wallet<W: ResourceWallet>(state_wallets: &mut Vec<W>, field_wallet: W) -> (outcome:
        Result<bool, WalletError>)
        ensures
            match outcome {
                Ok(flag) => {
                    &&& flag
                    &&& created(old(state_wallets)@, field_wallet) matches Ok(stored)
                    &&& final(state_wallets)@ == old(state_wallets)@.push(stored)
                    &&& stored.spec_addresses() == field_wallet.spec_addresses()
                    &&& match field_wallet.spec_raw_id() {
                        Some(id) => stored.spec_raw_id() == Some(id),
                        None => {
                            &&& stored.spec_raw_id() matches Some(assigned)
                            &&& assigned >= 1
                            &&& is_largest(wallet_ids(old(state_wallets)@), (assigned - 1) as u64)
                        },
                    }
                },
                Err(error) => {
                    &&& created(old(state_wallets)@, field_wallet) == Err::<W, WalletError>(error)
                    &&& final(state_wallets)@ == old(state_wallets)@
                },
            },
    {
        proof {
            lemma_has_id(state_wallets@, field_wallet.spec_raw_id().unwrap_or(0));
            lemma_has_id(state_wallets@, u64::MAX);
            lemma_max_key(wallet_ids(state_wallets@));
            field_wallet.lemma_set_id((max_key(wallet_ids(state_wallets@)) + 1) as u64);
        }
        match field_wallet.raw_id() {
            Some(id) => {
                if find_wallet(state_wallets, id).is_some() {
                    return Err(WalletError::Conflict(id));
                }
            },
            None => {},
        }
        let last = last_id(state_wallets);
        if field_wallet.raw_id().is_none() && last == u64::MAX {
            return Err(WalletError::Conflict(u64::MAX));
        }
        state_wallets.push(field_wallet.set_auto_id_if_needed(last));
        Ok(true)
    }

    /// The first wallet that is looked up by `id`. Fails with `NotFound`
    /// where there is none.
    pub fn show_wallet<W: ResourceWallet>(state_wallets: &Vec<W>, id: u64) -> (outcome: Result<
        &W,
        WalletError,
    >)
        ensures
            match outcome {
                Ok(wallet) => {
                    &&& position(wallet_ids(state_wallets@), id) matches Some(index)
                    &&& *wallet == state_wallets@[index]
                },
                Err(error) => {
                    &&& error == WalletError::NotFound(id)
                    &&& !has_id(state_wallets@, id)
                },
            },
    {
        match find_wallet(state_wallets, id) {
            Some(index) => Ok(&state_wallets[index]),
            None => Err(WalletError::NotFound(id)),
        }
    }

    /// Replaces the first wallet that is looked up by `id` with the merge
    /// of that wallet and `field_wallet`, in the same place: the record
    /// keeps the addresses it had and takes everything else from
    /// `field_wallet`. Fails with `NotFound`, and changes nothing, where
    /// there is no such wallet.
    pub fn update_wallet<W: ResourceWallet>(
        state_wallets: &mut Vec<W>,
        id: u64,
        field_wallet: W,
    ) -> (outcome: Result<bool, WalletError>)
        ensures
            match outcome {
                Ok(flag) => {
                    &&& flag
                    &&& position(wallet_ids(old(state_wallets)@), id) matches Some(index)
                    &&& final(state_wallets)@ == merged_at(
                        old(state_wallets)@,
                        index,
                        field_wallet,
                    )
                    &&& final(state_wallets)@[index].spec_addresses() == old(
                        state_wallets,
                    )@[index].spec_addresses()
                    &&& final(state_wallets)@[index].same_apart_from_addresses(&field_wallet)
                },
                Err(error) => {
                    &&& error == WalletError::NotFound(id)
                    &&& !has_id(old(state_wallets)@, id)
                    &&& final(state_wallets)@ == old(state_wallets)@
                },
            },
    {
        match find_wallet(state_wallets, id) {
            Some(index) => {
                merge_at(state_wallets, index, field_wallet);
                Ok(true)
            },
            None => Err(WalletError::NotFound(id)),
        }
    }

    /// Takes the first wallet that is looked up by `id` out of the
    /// collection; the wallets behind it move up by one place. Fails with
    /// `NotFound`, and changes nothing, where there is none.
    pub fn destroy_wallet<W: ResourceWallet>(state_wallets: &mut Vec<W>, id: u64) -> (outcome:
        Result<bool, WalletError>)
        ensures
            match outcome {
                Ok(flag) => {
                    &&& flag
                    &&& position(wallet_ids(old(state_wallets)@), id) matches Some(index)
                    &&& final(state_wallets)@ == old(state_wallets)@.remove(index)
                },
                Err(error) => {
                    &&& error == WalletError::NotFound(id)
                    &&& !has_id(old(state_wallets)@, id)
                    &&& final(state_wallets)@ == old(state_wallets)@
                },
            },
    {
        match find_wallet(state_wallets, id) {
            Some(index) => {
                let _ = state_wallets.remove(index);
                Ok(true)
            },
            None => Err(WalletError::NotFound(id)),
        }
    }

    /// Adds `address` to the first wallet that is looked up by `id`.
    /// Fails with `NotFound` where there is no such wallet and with
    /// `DuplicateAddress` where that wallet has an address with the same
    /// identifier; a failure changes nothing.
    pub fn add_address<W: ResourceWallet>(state_wallets: &mut Vec<W>, id: u64, address: W::A) -> (
        outcome: Result<bool, WalletError>)
        ensures
            match outcome {
                Ok(flag) => {
                    &&& flag
                    &&& position(wallet_ids(old(state_wallets)@), id) matches Some(index)
                    &&& added(old(state_wallets)@[index].spec_addresses(), address) matches Ok(list)
                    &&& with_addresses_at(old(state_wallets)@, final(state_wallets)@, index, list)
                },
                Err(error) => {
                    &&& final(state_wallets)@ == old(state_wallets)@
                    &&& match position(wallet_ids(old(state_wallets)@), id) {
                        Some(index) => added(
                            old(state_wallets)@[index].spec_addresses(),
                            address,
                        ) == Err::<Seq<W::A>, WalletError>(error),
                        None => {
                            &&& error == WalletError::NotFound(id)
                            &&& !has_id(old(state_wallets)@, id)
                        },
                    }
                },
            },
    {
        match find_wallet(state_wallets, id) {
            Some(index) => state_wallets[index].add_address(address),
            None => Err(WalletError::NotFound(id)),
        }
    }

    /// Takes the first address that has the identifier of `address` out of
    /// the first wallet that is looked up by `id`. Fails with `NotFound`
    /// where there is no such wallet and with `AddressNotFound` where that
    /// wallet has no such address; a failure changes nothing.
    pub fn destroy_address<W: ResourceWallet>(
        state_wallets: &mut Vec<W>,
        id: u64,
        address: W::A,
    ) -> (outcome: Result<bool, WalletError>)
        ensures
            match outcome {
                Ok(flag) => {
                    &&& flag
                    &&& position(wallet_ids(old(state_wallets)@), id) matches Some(index)
                    &&& removed(
                        old(state_wallets)@[index].spec_addresses(),
                        address.spec_raw_id(),
                    ) matches Ok(list)
                    &&& with_addresses_at(old(state_wallets)@, final(state_wallets)@, index, list)
                },
                Err(error) => {
                    &&& final(state_wallets)@ == old(state_wallets)@
                    &&& match position(wallet_ids(old(state_wallets)@), id) {
                        Some(index) => {
                            &&& error == WalletError::AddressNotFound(address.spec_raw_id())
                            &&& !has_address(
                                old(state_wallets)@[index].spec_addresses(),
                                address.spec_raw_id(),
                            )
                        },
                        None => {
                            &&& error == WalletError::NotFound(id)
                            &&& !has_id(old(state_wallets)@, id)
                        },
                    }
                },
            },
    {
        match find_wallet(state_wallets, id) {
            Some(index) => state_wallets[index].remove_address(address),
            None => Err(WalletError::NotFound(id)),
        }
    }
}

} // verus!
