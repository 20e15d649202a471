//! Listing, adding and removing the addresses of one wallet, for every
//! kind of wallet alike.

use crate::errors::WalletError;
use crate::handlers::wallets::base::lookup_failure;
use crate::lookup::position;
use crate::models::resource_address::{added, has_address, removed, ResourceAddress};
use crate::models::resource_wallet::ResourceWallet;
use crate::models::wallets::{find_wallet, has_id, wallet_ids, with_addresses_at, Wallets};
use crate::server_state::ServerState;
use vstd::prelude::*;

verus! {

/// The operations on the addresses of a wallet. Every kind of wallet has
/// them.
pub trait AddressHandler: ResourceWallet {
    /// The addresses of the first wallet that is looked up by `id`.
    fn address_index<'a>(state: &'a ServerState, id: u64) -> (outcome: Result<
        &'a Vec<Self::A>,
        WalletError,
    >) where Self: 'a
        ensures
            ({
                let collection = Self::spec_collection(state.wallets);
                match outcome {
                    Ok(addresses) => {
                        &&& state.spec_available()
                        &&& position(wallet_ids(collection), id) matches Some(index)
                        &&& addresses@ == collection[index].spec_addresses()
                    },
                    Err(error) => {
                        &&& error == lookup_failure(state.spec_available(), id)
                        &&& state.spec_available() ==> !has_id(collection, id)
                    },
                }
            }),
    {
        let wallets = match state.wallets() {
            Ok(wallets) => wallets,
            Err(error) => {
                return Err(error);
            },
        };
        let haystack = Self::collection(wallets);
        match find_wallet(haystack, id) {
            Some(index) => Ok(haystack[index].get_addresses()),
            None => Err(WalletError::NotFound(id)),
        }
    }

    /// Adds `address` at the end of the addresses of the first wallet that
    /// is looked up by `id`.
    ///
    /// Fails with `NotFound` where there is no such wallet, and with
    /// `DuplicateAddress` where that wallet has an address with the same
    /// identifier. A failure changes nothing.
    fn address_create(state: &mut ServerState, id: u64, address: Self::A) -> (outcome: Result<
        bool,
        WalletError,
    >)
        ensures
            final(state).same_apart_from(*old(state), Self::spec_kind()),
            ({
                let before = Self::spec_collection(old(state).wallets);
                let after = Self::spec_collection(final(state).wallets);
                match outcome {
                    Ok(flag) => {
                        &&& flag
                        &&& old(state).spec_available()
                        &&& position(wallet_ids(before), id) matches Some(index)
                        &&& added(before[index].spec_addresses(), address) matches Ok(list)
                        &&& with_addresses_at(before, after, index, list)
                    },
                    Err(error) => {
                        &&& after == before
                        &&& if !old(state).spec_available() {
                            error == WalletError::ServiceUnavailable
                        } else {
                            match position(wallet_ids(before), id) {
                                Some(index) => added(before[index].spec_addresses(), address)
                                    == Err::<Seq<Self::A>, WalletError>(error),
                                None => error == WalletError::NotFound(id) && !has_id(before, id),
                            }
                        }
                    },
                }
            }),
    {
        let wallets = match state.wallets_lock() {
            Ok(wallets) => wallets,
            Err(error) => {
                return Err(error);
            },
        };
        Wallets::add_address(Self::collection_from_wallets(wallets), id, address)
    }

    /// Takes the first address that has the identifier of `address` out of
    /// the first wallet that is looked up by `id`.
    ///
    /// Fails with `NotFound` where there is no such wallet, and with
    /// `AddressNotFound` where that wallet has no address with that
    /// identifier. A failure changes nothing.
    fn address_destroy(state: &mut ServerState, id: u64, address: Self::A) -> (outcome: Result<
        bool,
        WalletError,
    >)
        ensures
            final(state).same_apart_from(*old(state), Self::spec_kind()),
            ({
                let before = Self::spec_collection(old(state).wallets);
                let after = Self::spec_collection(final(state).wallets);
                match outcome {
                    Ok(flag) => {
                        &&& flag
                        &&& old(state).spec_available()
                        &&& position(wallet_ids(before), id) matches Some(index)
                        &&& removed(before[index].spec_addresses(), address.spec_raw_id()) matches Ok(
                            list,
                        )
                        &&& with_addresses_at(before, after, index, list)
                    },
                    Err(error) => {
                        &&& after == before
                        &&& if !old(state).spec_available() {
                            error == WalletError::ServiceUnavailable
                        } else {
                            match position(wallet_ids(before), id) {
                                Some(index) => {
                                    &&& error == WalletError::AddressNotFound(
                                        address.spec_raw_id(),
                                    )
                                    &&& !has_address(
                                        before[index].spec_addresses(),
                                        address.spec_raw_id(),
                                    )
                                },
                                None => error == WalletError::NotFound(id) && !has_id(before, id),
                            }
                        }
                    },
                }
            }),
    {
        let wallets = match state.wallets_lock() {
            Ok(wallets) => wallets,
            Err(error) => {
                return Err(error);
            },
        };
        Wallets::destroy_address(Self::collection_from_wallets(wallets), id, address)
    }
}

impl<R: ResourceWallet> AddressHandler for R {

}

} // verus!
