//! What every address has in common: an optional identifier by which it is
//! found inside its wallet, and the two changes a list of addresses allows.

use crate::errors::WalletError;
use crate::lookup::{is_first, lemma_position, lemma_position_is, position};
use crate::models::query::is_name;
use vstd::prelude::*;

verus! {

/// An address that belongs to a wallet.
pub trait ResourceAddress: Sized {
    /// The identifier of the address; `None` while none is assigned.
    spec fn spec_raw_id(&self) -> Option<u64>;

    /// The resource type under which the address is serialized.
    spec fn spec_jsonapi_type() -> Seq<char>;

    /// The identifier of the address; `None` while none is assigned.
    fn raw_id(&self) -> (id: Option<u64>)
        ensures
            id == self.spec_raw_id(),
    ;

    /// The resource type under which the address is serialized.
    fn jsonapi_type() -> (name: &'static str)
        ensures
            name@ == Self::spec_jsonapi_type(),
            is_name(name@),
    ;
}

/// The identifiers of a list of addresses, in the order of the list.
pub open spec fn address_ids<A: ResourceAddress>(addresses: Seq<A>) -> Seq<Option<u64>> {
    Seq::new(addresses.len(), |i: int| addresses[i].spec_raw_id())
}

/// An address of the list has the identifier `key`. Two absent
/// identifiers count as the same.
pub open spec fn has_address<A: ResourceAddress>(addresses: Seq<A>, key: Option<u64>) -> bool {
    exists|j: int| 0 <= j < addresses.len() && (#[trigger] addresses[j]).spec_raw_id() == key
}

/// The list after `address` was added: the address goes to the end, unless
/// its identifier is already taken.
pub open spec fn added<A: ResourceAddress>(addresses: Seq<A>, address: A) -> Result<
    Seq<A>,
    WalletError,
> {
    if has_address(addresses, address.spec_raw_id()) {
        Err(WalletError::DuplicateAddress(address.spec_raw_id()))
    } else {
        Ok(addresses.push(address))
    }
}

/// The list after the first address with identifier `key` was taken out.
pub open spec fn removed<A: ResourceAddress>(addresses: Seq<A>, key: Option<u64>) -> Result<
    Seq<A>,
    WalletError,
> {
    match position(address_ids(addresses), key) {
        Some(index) => Ok(addresses.remove(index)),
        None => Err(WalletError::AddressNotFound(key)),
    }
}

/// An address has the identifier `key` exactly when `key` has a place
/// among the identifiers of the list.
pub proof fn lemma_has_address<A: ResourceAddress>(addresses: Seq<A>, key: Option<u64>)
    ensures
        has_address(addresses, key) <==> address_ids(addresses).contains(key),
        has_address(addresses, key) <==> position(address_ids(addresses), key) is Some,
{
    let keys = address_ids(addresses);
    lemma_position(keys, key);
    if has_address(addresses, key) {
        let j = choose|j: int|
            0 <= j < addresses.len() && (#[trigger] addresses[j]).spec_raw_id() == key;
        assert(keys[j] == key);
    }
    if keys.contains(key) {
        let j = choose|j: int| 0 <= j < keys.len() && keys[j] == key;
        assert(addresses[j].spec_raw_id() == key);
    }
}

/// Whether two identifiers are the same, two absent ones included.
pub fn same_key(left: Option<u64>, right: Option<u64>) -> (same: bool)
    ensures
        same == (left == right),
{
    match (left, right) {
        (Some(a), Some(b)) => a == b,
        (None, None) => true,
        _ => false,
    }
}

/// The place of the first address with identifier `key`.
pub fn find_address<A: ResourceAddress>(addresses: &Vec<A>, key: Option<u64>) -> (found: Option<
    usize,
>)
    ensures
        match found {
            Some(index) => {
                &&& index < addresses.len()
                &&& position(address_ids(addresses@), key) == Some(index as int)
            },
            None => {
                &&& position(address_ids(addresses@), key) is None
                &&& !has_address(addresses@, key)
            },
        },
{
    let ghost keys = address_ids(addresses@);
    let mut index: usize = 0;
    while index < addresses.len()
        invariant
            index <= addresses.len(),
            keys == address_ids(addresses@),
            forall|j: int| 0 <= j < index ==> keys[j] != key,
        decreases addresses.len() - index,
    {
        if same_key(addresses[index].raw_id(), key) {
            proof {
                assert(keys[index as int] == key);
                assert(is_first(keys, key, index as int));
                lemma_position_is(keys, key, index as int);
            }
            return Some(index);
        }
        index += 1;
    }
    proof {
        lemma_has_address(addresses@, key);
    }
    None
}

/// Adds `address` at the end of the list. Fails with `DuplicateAddress`,
/// and changes nothing, where an address of the list has the same
/// identifier.
pub fn add_to<A: ResourceAddress>(addresses: &mut Vec<A>, address: A) -> (outcome: Result<
    bool,
    WalletError,
>)
    ensures
        match outcome {
            Ok(flag) => {
                &&& flag
                &&& added(old(addresses)@, address) == Ok::<Seq<A>, WalletError>(
                    final(addresses)@,
                )
            },
            Err(error) => {
                &&& added(old(addresses)@, address) == Err::<Seq<A>, WalletError>(error)
                &&& *final(addresses) == *old(addresses)
            },
        },
{
    let key = address.raw_id();
    match find_address(addresses, key) {
        Some(_) => {
            proof {
                lemma_has_address(addresses@, key);
            }
            Err(WalletError::DuplicateAddress(key))
        },
        None => {
            addresses.push(address);
            Ok(true)
        },
    }
}

/// Takes the first address with the identifier of `address` out of the
/// list. Fails with `AddressNotFound`, and changes nothing, where no
/// address of the list has that identifier.
pub fn remove_from<A: ResourceAddress>(addresses: &mut Vec<A>, address: A) -> (outcome: Result<
    bool,
    WalletError,
>)
    ensures
        match outcome {
            Ok(flag) => {
                &&& flag
                &&& removed(old(addresses)@, address.spec_raw_id()) == Ok::<Seq<A>, WalletError>(
                    final(addresses)@,
                )
            },
            Err(error) => {
                &&& removed(old(addresses)@, address.spec_raw_id()) == Err::<
                    Seq<A>,
                    WalletError,
                >(error)
                &&& !has_address(old(addresses)@, address.spec_raw_id())
                &&& *final(addresses) == *old(addresses)
            },
        },
{
    let key = address.raw_id();
    match find_address(addresses, key) {
        Some(index) => {
            let _ = addresses.remove(index);
            Ok(true)
        },
        None => Err(WalletError::AddressNotFound(key)),
    }
}

} // verus!
