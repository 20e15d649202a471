//! Listing, showing, creating, updating and destroying the wallets of one
//! kind, for every kind alike.

use crate::errors::WalletError;
use crate::lookup::{is_largest, position};
use crate::models::query::{parsed_query, selection_params};
use crate::models::resource_wallet::ResourceWallet;
use crate::models::wallet::{within_limit, Wallet};
use crate::models::wallets::{
    created, find_wallet, has_id, merge_at, merged_at, wallet_ids, Wallets,
};
use crate::server_state::ServerState;
use jsonapi::query::Query;
use vstd::prelude::*;

verus! {

/// The query with which wallets of kind `W` are listed and shown.
pub open spec fn default_selection<W: ResourceWallet>() -> Query {
    parsed_query(selection_params(W::spec_jsonapi_type(), W::spec_default_fields()))
}

/// The collection after the wallet at `index` was destroyed: the last
/// wallet takes its place, and the collection is shorter by one.
pub open spec fn destroyed_at<W: ResourceWallet>(collection: Seq<W>, index: int) -> Seq<W> {
    collection.update(index, collection.last()).drop_last()
}

/// The error of a lookup that cannot be made or that finds nothing.
pub open spec fn lookup_failure(available: bool, id: u64) -> WalletError {
    if available {
        WalletError::NotFound(id)
    } else {
        WalletError::ServiceUnavailable
    }
}

/// The operations on the wallets of one kind. Every kind of wallet has
/// them.
pub trait WalletHandler: ResourceWallet {
    /// The whole collection, and the query with which it is serialized.
    fn index(state: &ServerState) -> (outcome: Result<(&Vec<Self>, Query), WalletError>)
        ensures
            match outcome {
                Ok((collection, query)) => {
                    &&& state.spec_available()
                    &&& collection@ == Self::spec_collection(state.wallets)
                    &&& query == default_selection::<Self>()
                },
                Err(error) => !state.spec_available() && error == WalletError::ServiceUnavailable,
            },
    {
        let wallets = match state.wallets() {
            Ok(wallets) => wallets,
            Err(error) => {
                return Err(error);
            },
        };
        Ok((Self::collection(wallets), Self::default_query()))
    }

    /// The first wallet that is looked up by `id`, and the query with
    /// which it is serialized.
    fn show(state: &ServerState, id: u64) -> (outcome: Result<(&Self, Query), WalletError>)
        ensures
            ({
                let collection = Self::spec_collection(state.wallets);
                match outcome {
                    Ok((wallet, query)) => {
                        &&& state.spec_available()
                        &&& position(wallet_ids(collection), id) matches Some(index)
                        &&& *wallet == collection[index]
                        &&& query == default_selection::<Self>()
                    },
                    Err(error) => {
                        &&& error == lookup_failure(state.spec_available(), id)
                        &&& state.spec_available() ==> !has_id(collection, id)
                    },
                }
            }),
    {
        let wallets = match state.wallets() {
            Ok(wallets) => wallets,
            Err(error) => {
                return Err(error);
            },
        };
        let haystack = Self::collection(wallets);
        match find_wallet(haystack, id) {
            Some(index) => Ok((&haystack[index], Self::default_query())),
            None => Err(WalletError::NotFound(id)),
        }
    }

    /// Stores `new` at the end of the collection and returns the stored
    /// record. A wallet without an identifier is given the one after the
    /// largest in the collection, which is 1 in an empty collection.
    ///
    /// Fails with `Conflict` where a wallet of the collection is looked up
    /// by the identifier of `new`, and where `new` has none and the
    /// largest identifier there is is taken. A failure changes nothing.
    fn create(state: &mut ServerState, new: Self) -> (outcome: Result<&Self, WalletError>)
        ensures
            final(state).same_apart_from(*old(state), Self::spec_kind()),
            ({
                let before = Self::spec_collection(old(state).wallets);
                let after = Self::spec_collection(final(state).wallets);
                match outcome {
                    Ok(stored) => {
                        &&& old(state).spec_available()
                        &&& created(before, new) == Ok::<Self, WalletError>(*stored)
                        &&& after == before.push(*stored)
                        &&& stored.spec_addresses() == new.spec_addresses()
                        &&& match new.spec_raw_id() {
                            Some(id) => stored.spec_raw_id() == Some(id),
                            None => {
                                &&& stored.spec_raw_id() matches Some(assigned)
                                &&& assigned >= 1
                                &&& is_largest(wallet_ids(before), (assigned - 1) as u64)
                            },
                        }
                    },
                    Err(error) => {
                        &&& after == before
                        &&& if old(state).spec_available() {
                            created(before, new) == Err::<Self, WalletError>(error)
                        } else {
                            error == WalletError::ServiceUnavailable
                        }
                    },
                }
            }),
    {
        let wallets = match state.wallets_lock() {
            Ok(wallets) => wallets,
            Err(error) => {
                return Err(error);
            },
        };
        let haystack = Self::collection_from_wallets(wallets);
        match Wallets::add_wallet(haystack, new) {
            Ok(_) => {
                let place = haystack.len() - 1;
                Ok(&haystack[place])
            },
            Err(error) => Err(error),
        }
    }

    /// Replaces the first wallet that is looked up by `id` with the merge
    /// of that wallet and `new`, in the same place, and returns the stored
    /// record: it keeps the addresses it had and takes everything else
    /// from `new`.
    fn update(state: &mut ServerState, id: u64, new: Self) -> (outcome: Result<&Self, WalletError>)
        ensures
            final(state).same_apart_from(*old(state), Self::spec_kind()),
            ({
                let before = Self::spec_collection(old(state).wallets);
                let after = Self::spec_collection(final(state).wallets);
                match outcome {
                    Ok(stored) => {
                        &&& old(state).spec_available()
                        &&& position(wallet_ids(before), id) matches Some(index)
                        &&& *stored == before[index].spec_merge(new)
                        &&& after == merged_at(before, index, new)
                        &&& stored.spec_addresses() == before[index].spec_addresses()
                        &&& stored.same_apart_from_addresses(&new)
                    },
                    Err(error) => {
                        &&& after == before
                        &&& error == lookup_failure(old(state).spec_available(), id)
                        &&& old(state).spec_available() ==> !has_id(before, id)
                    },
                }
            }),
    {
        let wallets = match state.wallets_lock() {
            Ok(wallets) => wallets,
            Err(error) => {
                return Err(error);
            },
        };
        let haystack = Self::collection_from_wallets(wallets);
        match find_wallet(haystack, id) {
            Some(index) => {
                merge_at(haystack, index, new);
                Ok(&haystack[index])
            },
            None => Err(WalletError::NotFound(id)),
        }
    }

    /// Takes the first wallet that is looked up by `id` out of the
    /// collection and returns it; the last wallet of the collection takes
    /// its place.
    fn destroy(state: &mut ServerState, id: u64) -> (outcome: Result<Self, WalletError>)
        ensures
            final(state).same_apart_from(*old(state), Self::spec_kind()),
            ({
                let before = Self::spec_collection(old(state).wallets);
                let after = Self::spec_collection(final(state).wallets);
                match outcome {
                    Ok(removed) => {
                        &&& old(state).spec_available()
                        &&& position(wallet_ids(before), id) matches Some(index)
                        &&& removed == before[index]
                        &&& after == destroyed_at(before, index)
                    },
                    Err(error) => {
                        &&& after == before
                        &&& error == lookup_failure(old(state).spec_available(), id)
                        &&& old(state).spec_available() ==> !has_id(before, id)
                    },
                }
            }),
    {
        let wallets = match state.wallets_lock() {
            Ok(wallets) => wallets,
            Err(error) => {
                return Err(error);
            },
        };
        let haystack = Self::collection_from_wallets(wallets);
        match find_wallet(haystack, id) {
            Some(index) => Ok(haystack.swap_remove(index)),
            None => Err(WalletError::NotFound(id)),
        }
    }

    /// Looks up the wallet `id` and hands it, with the bounds of the page,
    /// to `fn_tx`, which asks the chain; what `fn_tx` returns is returned
    /// as it is. `limit` and `since` are passed on unread.
    fn get_transactions<F, T>(
        state: &ServerState,
        id: u64,
        limit: Option<u64>,
        since: Option<u64>,
        fn_tx: F,
    ) -> (outcome: Result<Vec<T>, WalletError>) where
        F: FnOnce(&Self, Option<u64>, Option<u64>) -> Vec<T>,

        requires
            state.spec_available() ==> match position(
                wallet_ids(Self::spec_collection(state.wallets)),
                id,
            ) {
                Some(index) => call_requires(
                    fn_tx,
                    (&Self::spec_collection(state.wallets)[index], limit, since),
                ),
                None => true,
            },
        ensures
            ({
                let collection = Self::spec_collection(state.wallets);
                match outcome {
                    Ok(transactions) => {
                        &&& state.spec_available()
                        &&& position(wallet_ids(collection), id) matches Some(index)
                        &&& call_ensures(fn_tx, (&collection[index], limit, since), transactions)
                    },
                    Err(error) => {
                        &&& error == lookup_failure(state.spec_available(), id)
                        &&& state.spec_available() ==> !has_id(collection, id)
                    },
                }
            }),
    {
        let wallets = match state.wallets() {
            Ok(wallets) => wallets,
            Err(error) => {
                return Err(error);
            },
        };
        let haystack = Self::collection(wallets);
        match find_wallet(haystack, id) {
            Some(index) => Ok(fn_tx(&haystack[index], limit, since)),
            None => Err(WalletError::NotFound(id)),
        }
    }
}

impl<R: ResourceWallet> WalletHandler for R {

}

/// The unspent outputs that the first wallet that is looked up by `id`
/// reports for the bounds `limit` and `since`, which are handed to the
/// wallet as they are; no more outputs than `limit` come back.
pub fn get_utxos<W: ResourceWallet + Wallet>(
    state: &ServerState,
    id: u64,
    limit: Option<u64>,
    since: Option<u64>,
) -> (outcome: Result<Vec<W::Utxo>, WalletError>)
    ensures
        ({
            let collection = W::spec_collection(state.wallets);
            match outcome {
                Ok(utxos) => {
                    &&& state.spec_available()
                    &&& position(wallet_ids(collection), id) matches Some(index)
                    &&& collection[index].spec_utxos(limit, since, utxos@)
                    &&& within_limit(limit, utxos@.len())
                },
                Err(error) => {
                    &&& error == lookup_failure(state.spec_available(), id)
                    &&& state.spec_available() ==> !has_id(collection, id)
                },
            }
        }),
{
    let report = |wallet: &W, limit: Option<u64>, since: Option<u64>| -> (utxos: Vec<W::Utxo>)
        ensures
            wallet.spec_utxos(limit, since, utxos@),
            within_limit(limit, utxos@.len()),
        { wallet.get_utxos(limit, since) };
    W::get_transactions(state, id, limit, since, report)
}

/// The incoming transactions that the first wallet that is looked up by
/// `id` reports for the bounds `limit` and `since`, which are handed to
/// the wallet as they are; no more transactions than `limit` come back.
pub fn get_incoming<W: ResourceWallet + Wallet>(
    state: &ServerState,
    id: u64,
    limit: Option<u64>,
    since: Option<u64>,
) -> (outcome: Result<Vec<W::Incoming>, WalletError>)
    ensures
        ({
            let collection = W::spec_collection(state.wallets);
            match outcome {
                Ok(incoming) => {
                    &&& state.spec_available()
                    &&& position(wallet_ids(collection), id) matches Some(index)
                    &&& collection[index].spec_incoming(limit, since, incoming@)
                    &&& within_limit(limit, incoming@.len())
                },
                Err(error) => {
                    &&& error == lookup_failure(state.spec_available(), id)
                    &&& state.spec_available() ==> !has_id(collection, id)
                },
            }
        }),
{
    let report = |wallet: &W, limit: Option<u64>, since: Option<u64>| -> (incoming: Vec<
        W::Incoming,
    >)
        ensures
            wallet.spec_incoming(limit, since, incoming@),
            within_limit(limit, incoming@.len()),
        { wallet.get_incoming(limit, since) };
    W::get_transactions(state, id, limit, since, report)
}

} // verus!
