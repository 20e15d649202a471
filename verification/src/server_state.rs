//! The state that every request works on: the store, and whether it may be
//! used.
//!
//! The store is one value that is handed to each operation. An operation
//! that changes it takes the state exclusively for its whole run, so a
//! lookup, the check for a collision and the change are one step to every
//! other caller.

use crate::errors::WalletError;
use crate::models::wallets::{WalletKind, Wallets};
use vstd::prelude::*;

verus! {

/// Whether the store can be trusted.
#[derive(Clone, Copy, Debug, PartialEq, Eq)]
pub enum StoreHealth {
    /// Every operation so far ran to its end.
    Healthy,
    /// An operation ended abnormally while it held the store, which may
    /// be half-changed.
    Contaminated,
}

/// The store together with the conditions under which it is served.
#[derive(Debug, Clone, PartialEq, Eq)]
pub struct ServerState {
    pub wallets: Wallets,
    pub stopping: bool,
    pub health: StoreHealth,
}

impl ServerState {
    /// The store may be used: the service is not shutting down and the
    /// store is healthy.
    pub open spec fn spec_available(&self) -> bool {
        !self.stopping && self.health is Healthy
    }

    /// The two states differ in nothing but the collection of `kind`.
    pub open spec fn same_apart_from(self, other: ServerState, kind: WalletKind) -> bool {
        &&& self.stopping == other.stopping
        &&& self.health == other.health
        &&& self.wallets.same_apart_from(other.wallets, kind)
    }

    /// A running service with a healthy, empty store.
    pub fn new() -> (state: ServerState)
        ensures
            state.spec_available(),
            state.wallets.id@.len() == 0,
            state.wallets.plains@.len() == 0,
            state.wallets.hds@.len() == 0,
            state.wallets.multisigs@.len() == 0,
    {
        ServerState { wallets: Wallets::new(), stopping: false, health: StoreHealth::Healthy }
    }

    /// Whether the store may be used.
    pub fn available(&self) -> (available: bool)
        ensures
            available == self.spec_available(),
    {
        !self.stopping && matches!(self.health, StoreHealth::Healthy)
    }

    /// Admits a request unless the service is shutting down.
    pub fn accept_request(&self) -> (outcome: Result<(), WalletError>)
        ensures
            outcome == if self.stopping {
                Err::<(), WalletError>(WalletError::ServiceUnavailable)
            } else {
                Ok::<(), WalletError>(())
            },
    {
        if self.stopping {
            Err(WalletError::ServiceUnavailable)
        } else {
            Ok(())
        }
    }

    /// The store, to be read.
    pub fn wallets(&self) -> (outcome: Result<&Wallets, WalletError>)
        ensures
            outcome == if self.spec_available() {
                Ok::<&Wallets, WalletError>(&self.wallets)
            } else {
                Err::<&Wallets, WalletError>(WalletError::ServiceUnavailable)
            },
    {
        if self.available() {
            Ok(&self.wallets)
        } else {
            Err(WalletError::ServiceUnavailable)
        }
    }

    /// The store, to be changed by the one caller that holds the state.
    pub fn wallets_lock(&mut self) -> (outcome: Result<&mut Wallets, WalletError>)
        ensures
            final(self).stopping == old(self).stopping,
            final(self).health == old(self).health,
            match outcome {
                Ok(wallets) => {
                    &&& old(self).spec_available()
                    &&& *wallets == old(self).wallets
                    &&& final(self).wallets == *final(wallets)
                },
                Err(error) => {
                    &&& !old(self).spec_available()
                    &&& error == WalletError::ServiceUnavailable
                    &&& final(self).wallets == old(self).wallets
                },
            },
    {
        if self.available() {
            Ok(&mut self.wallets)
        } else {
            Err(WalletError::ServiceUnavailable)
        }
    }

    /// Begins the shutdown: from now on no request is admitted and the
    /// store is not served.
    pub fn graceful_stop(&mut self)
        ensures
            final(self).stopping,
            final(self).health == old(self).health,
            final(self).wallets == old(self).wallets,
    {
        self.stopping = true;
    }

    /// Records that an operation ended abnormally while it held the store.
    pub fn mark_contaminated(&mut self)
        ensures
            final(self).health is Contaminated,
            final(self).stopping == old(self).stopping,
            final(self).wallets == old(self).wallets,
    {
        self.health = StoreHealth::Contaminated;
    }
}

} // verus!
