//! The operations on wallets: those on the wallets of one kind, and those
//! on the whole store at once.

pub mod base;

use crate::errors::WalletError;
use crate::lookup::position;
use crate::models::resource_wallet::{id_of, ResourceWallet};
use crate::models::wallets::{merged_at, wallet_ids, Wallets};
use crate::server_state::ServerState;
use vstd::prelude::*;

verus! {

/// What is left of a collection after the wallets of `incoming` were
/// merged, one after the other, into the first wallet that is looked up by
/// their identifier; and the identifier at which this stopped because no
/// wallet is looked up by it, if there was one. A merged record keeps the
/// addresses it had and takes everything else from the incoming wallet.
pub open spec fn replaced_all<W: ResourceWallet>(collection: Seq<W>, incoming: Seq<W>) -> (
    Seq<W>,
    Option<u64>,
)
    decreases incoming.len(),
{
    if incoming.len() == 0 {
        (collection, None)
    } else {
        match position(wallet_ids(collection), id_of(incoming[0])) {
            Some(index) => replaced_all(
                merged_at(collection, index, incoming[0]),
                incoming.drop_first(),
            ),
            None => (collection, Some(id_of(incoming[0]))),
        }
    }
}

/// Merges each wallet of `incoming`, in their order, into the first wallet
/// of the collection that is looked up by its identifier, and stops at the
/// first for which there is none. Every record keeps its addresses.
pub fn replace_all<W: ResourceWallet>(collection: &mut Vec<W>, incoming: Vec<W>) -> (outcome:
    Result<(), WalletError>)
    ensures
        final(collection)@ == replaced_all(old(collection)@, incoming@).0,
        outcome == match replaced_all(old(collection)@, incoming@).1 {
            Some(id) => Err::<(), WalletError>(WalletError::NotFound(id)),
            None => Ok::<(), WalletError>(()),
        },
{
    let mut waiting = incoming;
    while waiting.len() > 0
        invariant
            replaced_all(collection@, waiting@) == replaced_all(old(collection)@, incoming@),
        decreases waiting.len(),
    {
        let ghost queue = waiting@;
        let ghost held = collection@;
        let wallet = waiting.remove(0);
        assert(waiting@ == queue.drop_first());
        assert(wallet == queue[0]);
        let id = wallet.id();
        match Wallets::update_wallet(collection, id, wallet) {
            Ok(_) => {
                assert(replaced_all(held, queue) == replaced_all(collection@, waiting@));
            },
            Err(error) => {
                assert(replaced_all(held, queue) == (held, Some(id)));
                return Err(error);
            },
        }
    }
    Ok(())
}

/// The whole store.
pub fn index(state: &ServerState) -> (outcome: Result<&Wallets, WalletError>)
    ensures
        outcome == if state.spec_available() {
            Ok::<&Wallets, WalletError>(&state.wallets)
        } else {
            Err::<&Wallets, WalletError>(WalletError::ServiceUnavailable)
        },
{
    state.wallets()
}

/// Appends the wallets of `wallets` to the three collections of the store,
/// as they are and in their order. No identifier is assigned and none is
/// compared: a wallet that comes without one stays without, and two
/// wallets may end up under one identifier.
pub fn create(state: &mut ServerState, wallets: Wallets) -> (outcome: Result<(), WalletError>)
    ensures
        final(state).stopping == old(state).stopping,
        final(state).health == old(state).health,
        final(state).wallets.id == old(state).wallets.id,
        if old(state).spec_available() {
            &&& outcome == Ok::<(), WalletError>(())
            &&& final(state).wallets.plains@ == old(state).wallets.plains@ + wallets.plains@
            &&& final(state).wallets.hds@ == old(state).wallets.hds@ + wallets.hds@
            &&& final(state).wallets.multisigs@ == old(state).wallets.multisigs@
                + wallets.multisigs@
        } else {
            &&& outcome == Err::<(), WalletError>(WalletError::ServiceUnavailable)
            &&& final(state).wallets == old(state).wallets
        },
{
    let mut wallets = wallets;
    let store = match state.wallets_lock() {
        Ok(store) => store,
        Err(error) => {
            return Err(error);
        },
    };
    store.plains.append(&mut wallets.plains);
    store.hds.append(&mut wallets.hds);
    store.multisigs.append(&mut wallets.multisigs);
    Ok(())
}

/// Updates wallets of the store by those of `wallets` that are looked up
/// by the same identifier: the plain ones first, then the
/// hierarchical-deterministic, then the multisignature ones. Every record
/// keeps its addresses and takes everything else from the incoming wallet.
/// It stops at the first wallet for which the store has none; what was
/// updated until then stays updated.
pub fn update(state: &mut ServerState, wallets: Wallets) -> (outcome: Result<(), WalletError>)
    ensures
        final(state).stopping == old(state).stopping,
        final(state).health == old(state).health,
        final(state).wallets.id == old(state).wallets.id,
        if !old(state).spec_available() {
            &&& outcome == Err::<(), WalletError>(WalletError::ServiceUnavailable)
            &&& final(state).wallets == old(state).wallets
        } else if let Some(id) = replaced_all(old(state).wallets.plains@, wallets.plains@).1 {
            &&& outcome == Err::<(), WalletError>(WalletError::NotFound(id))
            &&& final(state).wallets.plains@ == replaced_all(
                old(state).wallets.plains@,
                wallets.plains@,
            ).0
            &&& final(state).wallets.hds@ == old(state).wallets.hds@
            &&& final(state).wallets.multisigs@ == old(state).wallets.multisigs@
        } else if let Some(id) = replaced_all(old(state).wallets.hds@, wallets.hds@).1 {
            &&& outcome == Err::<(), WalletError>(WalletError::NotFound(id))
            &&& final(state).wallets.plains@ == replaced_all(
                old(state).wallets.plains@,
                wallets.plains@,
            ).0
            &&& final(state).wallets.hds@ == replaced_all(old(state).wallets.hds@, wallets.hds@).0
            &&& final(state).wallets.multisigs@ == old(state).wallets.multisigs@
        } else {
            &&& outcome == match replaced_all(
                old(state).wallets.multisigs@,
                wallets.multisigs@,
            ).1 {
                Some(id) => Err::<(), WalletError>(WalletError::NotFound(id)),
                None => Ok::<(), WalletError>(()),
            }
            &&& final(state).wallets.plains@ == replaced_all(
                old(state).wallets.plains@,
                wallets.plains@,
            ).0
            &&& final(state).wallets.hds@ == replaced_all(old(state).wallets.hds@, wallets.hds@).0
            &&& final(state).wallets.multisigs@ == replaced_all(
                old(state).wallets.multisigs@,
                wallets.multisigs@,
            ).0
        },
{
    let store = match state.wallets_lock() {
        Ok(store) => store,
        Err(error) => {
            return Err(error);
        },
    };
    match replace_all(&mut store.plains, wallets.plains) {
        Ok(_) => {},
        Err(error) => {
            return Err(error);
        },
    }
    match replace_all(&mut store.hds, wallets.hds) {
        Ok(_) => {},
        Err(error) => {
            return Err(error);
        },
    }
    replace_all(&mut store.multisigs, wallets.multisigs)
}

} // verus!
