//! What holds of the operations of the registry, whatever the collection
//! and the wallet.
//!
//! Each law is stated over the functions in which the contracts of the
//! operations are written: the place of an identifier in a collection,
//! the record a creation stores, the merge of two records, and the lists
//! that adding and removing an address leave behind.

use crate::errors::WalletError;
use crate::handlers::wallets::base::destroyed_at;
use crate::lookup::{is_first, is_largest, lemma_max_key, lemma_position, max_key, position};
use crate::models::resource_address::{added, address_ids, has_address, removed, ResourceAddress};
use crate::models::resource_wallet::{id_of, ResourceWallet};
use crate::models::wallets::{
    created, has_id, lemma_has_id, merged_at, wallet_ids, with_addresses_at,
};
use vstd::prelude::*;

verus! {

/// A wallet that is created without an identifier is stored with the
/// largest identifier of the collection plus one, which is 1 in an empty
/// collection. That identifier is larger than every identifier of the
/// collection.
pub proof fn law_created_identifier<W: ResourceWallet>(collection: Seq<W>, new: W)
    requires
        new.spec_raw_id() is None,
        created(collection, new) is Ok,
    ensures
        is_largest(wallet_ids(collection), max_key(wallet_ids(collection))),
        max_key(wallet_ids(collection)) < u64::MAX,
        created(collection, new).unwrap().spec_raw_id() == Some(
            (max_key(wallet_ids(collection)) + 1) as u64,
        ),
        collection.len() == 0 ==> created(collection, new).unwrap().spec_raw_id() == Some(1u64),
        forall|j: int|
            0 <= j < collection.len() ==> id_of(#[trigger] collection[j]) < id_of(
                created(collection, new).unwrap(),
            ),
{
    let ids = wallet_ids(collection);
    lemma_max_key(ids);
    lemma_has_id(collection, u64::MAX);
    new.lemma_set_id((max_key(ids) + 1) as u64);
    assert forall|j: int| 0 <= j < collection.len() implies id_of(#[trigger] collection[j])
        < id_of(created(collection, new).unwrap()) by {
        assert(ids[j] == id_of(collection[j]));
    }
}

/// A wallet whose identifier is taken is not created: the creation fails
/// with `Conflict` and that identifier.
pub proof fn law_create_conflict<W: ResourceWallet>(collection: Seq<W>, new: W, id: u64)
    requires
        new.spec_raw_id() == Some(id),
        has_id(collection, id),
    ensures
        created(collection, new) == Err::<W, WalletError>(WalletError::Conflict(id)),
{
}

/// A creation leaves the identifiers of a collection distinct.
pub proof fn law_create_keeps_identifiers_distinct<W: ResourceWallet>(collection: Seq<W>, new: W)
    requires
        wallet_ids(collection).no_duplicates(),
        created(collection, new) is Ok,
    ensures
        wallet_ids(collection.push(created(collection, new).unwrap())).no_duplicates(),
{
    let ids = wallet_ids(collection);
    let stored = created(collection, new).unwrap();
    let after = wallet_ids(collection.push(stored));
    if new.spec_raw_id() is None {
        law_created_identifier(collection, new);
    }
    assert forall|i: int, j: int| 0 <= i < after.len() && 0 <= j < after.len() && i != j implies
        after[i] != after[j] by {
        if i < ids.len() {
            assert(after[i] == ids[i]);
            assert(ids[i] == id_of(collection[i]));
        }
        if j < ids.len() {
            assert(after[j] == ids[j]);
            assert(ids[j] == id_of(collection[j]));
        }
    }
}

/// An update keeps the length of the collection and every other record.
/// The record it stores has the addresses of the record it replaces and
/// differs from `new` in nothing else, its identifier included. That
/// record is found under its own identifier only: no lookup by another
/// identifier ends at its place.
pub proof fn law_update<W: ResourceWallet>(collection: Seq<W>, id: u64, new: W, index: int)
    requires
        position(wallet_ids(collection), id) == Some(index),
    ensures
        0 <= index < collection.len(),
        merged_at(collection, index, new).len() == collection.len(),
        forall|j: int|
            0 <= j < collection.len() && j != index ==> merged_at(collection, index, new)[j]
                == collection[j],
        merged_at(collection, index, new)[index].spec_addresses()
            == collection[index].spec_addresses(),
        merged_at(collection, index, new)[index].same_apart_from_addresses(&new),
        id_of(merged_at(collection, index, new)[index]) == id_of(new),
        forall|other: u64|
            other != id_of(new) ==> #[trigger] position(
                wallet_ids(merged_at(collection, index, new)),
                other,
            ) != Some(index),
{
    let stored = collection[index].spec_merge(new);
    let after = merged_at(collection, index, new);
    collection[index].lemma_merge(new);
    stored.lemma_same_apart_from_addresses(&new, &new);
    assert forall|other: u64| other != id_of(new) implies #[trigger] position(
        wallet_ids(after),
        other,
    ) != Some(index) by {
        assert(wallet_ids(after)[index] == id_of(stored));
    }
}

/// An update with a wallet that carries the identifier it is stored under
/// changes no identifier of the collection: every lookup ends at the place
/// at which it ended before, and the lookup by that identifier ends at the
/// stored record.
pub proof fn law_update_keeps_identifiers<W: ResourceWallet>(
    collection: Seq<W>,
    id: u64,
    new: W,
    index: int,
)
    requires
        position(wallet_ids(collection), id) == Some(index),
        id_of(new) == id,
    ensures
        wallet_ids(merged_at(collection, index, new)) == wallet_ids(collection),
        position(wallet_ids(merged_at(collection, index, new)), id) == Some(index),
{
    law_update(collection, id, new, index);
    let ids = wallet_ids(collection);
    let after = wallet_ids(merged_at(collection, index, new));
    assert forall|j: int| 0 <= j < ids.len() implies after[j] == ids[j] by {
        if j == index {
            assert(ids[index] == id);
        }
    }
    assert(after =~= ids);
}

/// An update leaves the identifiers of a collection distinct, provided
/// that `new` carries the identifier it is stored under or one by which
/// no wallet of the collection is looked up.
pub proof fn law_update_keeps_identifiers_distinct<W: ResourceWallet>(
    collection: Seq<W>,
    id: u64,
    new: W,
    index: int,
)
    requires
        wallet_ids(collection).no_duplicates(),
        position(wallet_ids(collection), id) == Some(index),
        id_of(new) == id || !has_id(collection, id_of(new)),
    ensures
        wallet_ids(merged_at(collection, index, new)).no_duplicates(),
{
    law_update(collection, id, new, index);
    lemma_has_id(collection, id_of(new));
    let ids = wallet_ids(collection);
    let after = wallet_ids(merged_at(collection, index, new));
    assert forall|i: int, j: int| 0 <= i < after.len() && 0 <= j < after.len() && i != j implies
        after[i] != after[j] by {
        assert(after[index] == id_of(new));
        if i != index {
            assert(after[i] == ids[i]);
        }
        if j != index {
            assert(after[j] == ids[j]);
        }
        assert(ids[index] == id);
    }
}

/// Destroying a wallet takes exactly one record out of the collection, the
/// first that is looked up by the identifier: the collection is shorter by
/// one, the last wallet stands in the place of the destroyed one, and
/// every other wallet stands where it stood. Where the identifiers of the
/// collection are distinct, a lookup by that identifier finds nothing
/// afterwards, and the identifiers are still distinct.
pub proof fn law_destroy_then_show<W: ResourceWallet>(collection: Seq<W>, id: u64, index: int)
    requires
        wallet_ids(collection).no_duplicates(),
        position(wallet_ids(collection), id) == Some(index),
    ensures
        0 <= index < collection.len(),
        id_of(collection[index]) == id,
        destroyed_at(collection, index).len() == collection.len() - 1,
        forall|j: int|
            0 <= j < collection.len() - 1 && j != index ==> destroyed_at(collection, index)[j]
                == collection[j],
        index < collection.len() - 1 ==> destroyed_at(collection, index)[index]
            == collection.last(),
        position(wallet_ids(destroyed_at(collection, index)), id) is None,
        !has_id(destroyed_at(collection, index), id),
        wallet_ids(destroyed_at(collection, index)).no_duplicates(),
{
    let ids = wallet_ids(collection);
    let last = collection.len() - 1;
    assert(ids[index] == id_of(collection[index]));
    let after = wallet_ids(destroyed_at(collection, index));
    assert forall|j: int| 0 <= j < after.len() implies after[j] == ids[if j == index {
        last
    } else {
        j
    }] by {}
    assert forall|j: int| 0 <= j < after.len() implies after[j] != id by {
        let k = if j == index {
            last
        } else {
            j
        };
        assert(after[j] == ids[k]);
        assert(ids[k] != ids[index]);
    }
    lemma_has_id(destroyed_at(collection, index), id);
    assert forall|i: int, j: int| 0 <= i < after.len() && 0 <= j < after.len() && i != j implies
        after[i] != after[j] by {
        let ki = if i == index {
            last
        } else {
            i
        };
        let kj = if j == index {
            last
        } else {
            j
        };
        assert(after[i] == ids[ki]);
        assert(after[j] == ids[kj]);
    }
}

/// Adding an address and then removing the address with that identifier
/// gives back the list of addresses as it was.
pub proof fn law_add_then_remove<A: ResourceAddress>(addresses: Seq<A>, address: A)
    requires
        added(addresses, address) is Ok,
    ensures
        removed(added(addresses, address).unwrap(), address.spec_raw_id()) == Ok::<
            Seq<A>,
            WalletError,
        >(addresses),
{
    let key = address.spec_raw_id();
    let longer = addresses.push(address);
    let keys = address_ids(longer);
    let last = addresses.len() as int;
    assert(keys[last] == key);
    assert forall|j: int| 0 <= j < last implies keys[j] != key by {
        assert(longer[j] == addresses[j]);
    }
    assert(is_first(keys, key, last));
    assert(longer.remove(last) =~= addresses);
}

/// An address whose identifier the wallet already has is not added: the
/// attempt fails with `DuplicateAddress` and that identifier.
pub proof fn law_add_duplicate<A: ResourceAddress>(addresses: Seq<A>, address: A)
    requires
        has_address(addresses, address.spec_raw_id()),
    ensures
        added(addresses, address) == Err::<Seq<A>, WalletError>(
            WalletError::DuplicateAddress(address.spec_raw_id()),
        ),
{
}

/// Adding an address keeps the identifiers of the addresses distinct, and
/// so does removing one.
pub proof fn law_addresses_stay_distinct<A: ResourceAddress>(addresses: Seq<A>, address: A)
    requires
        address_ids(addresses).no_duplicates(),
    ensures
        added(addresses, address) matches Ok(list) ==> address_ids(list).no_duplicates(),
        removed(addresses, address.spec_raw_id()) matches Ok(list) ==> address_ids(
            list,
        ).no_duplicates(),
{
    let keys = address_ids(addresses);
    let key = address.spec_raw_id();
    if let Ok(list) = added(addresses, address) {
        let after = address_ids(list);
        assert forall|i: int, j: int|
            0 <= i < after.len() && 0 <= j < after.len() && i != j implies after[i] != after[j] by {
            if i < keys.len() {
                assert(after[i] == keys[i]);
                assert(addresses[i].spec_raw_id() == keys[i]);
            }
            if j < keys.len() {
                assert(after[j] == keys[j]);
                assert(addresses[j].spec_raw_id() == keys[j]);
            }
        }
    }
    if let Ok(list) = removed(addresses, key) {
        lemma_position(keys, key);
        let index = position(keys, key).unwrap();
        let after = address_ids(list);
        assert forall|i: int, j: int|
            0 <= i < after.len() && 0 <= j < after.len() && i != j implies after[i] != after[j] by {
            let ki = if i < index {
                i
            } else {
                i + 1
            };
            let kj = if j < index {
                j
            } else {
                j + 1
            };
            assert(after[i] == keys[ki]);
            assert(after[j] == keys[kj]);
        }
    }
}

/// A change of the addresses of one wallet changes no identifier of the
/// collection.
pub proof fn law_addresses_keep_identifiers<W: ResourceWallet>(
    before: Seq<W>,
    after: Seq<W>,
    index: int,
    addresses: Seq<W::A>,
)
    requires
        0 <= index < before.len(),
        with_addresses_at(before, after, index, addresses),
    ensures
        wallet_ids(after) == wallet_ids(before),
{
    after[index].lemma_same_apart_from_addresses(&before[index], &before[index]);
    assert(wallet_ids(after) =~= wallet_ids(before));
}

/// Two changes of the addresses of one wallet, one after the other, are
/// one change: the wallet ends with the addresses of the second, differs
/// from what it was in nothing else, and no other wallet changes.
pub proof fn law_address_changes_compose<W: ResourceWallet>(
    first: Seq<W>,
    second: Seq<W>,
    third: Seq<W>,
    index: int,
    addresses: Seq<W::A>,
    later: Seq<W::A>,
)
    requires
        0 <= index < first.len(),
        with_addresses_at(first, second, index, addresses),
        with_addresses_at(second, third, index, later),
    ensures
        with_addresses_at(first, third, index, later),
{
    third[index].lemma_same_apart_from_addresses(&second[index], &first[index]);
}

} // verus!
