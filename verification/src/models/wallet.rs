//! Wallets that can report their unspent outputs and their incoming
//! transactions.

use vstd::prelude::*;

verus! {

/// A report of `count` entries keeps to `limit`: it has no more entries
/// than the limit, where there is one.
pub open spec fn within_limit(limit: Option<u64>, count: nat) -> bool {
    match limit {
        Some(most) => count <= most,
        None => true,
    }
}

/// A wallet that reports its unspent transaction outputs and its incoming
/// transactions, page by page: `limit` caps the number of entries and
/// `since` is the mark after which entries are asked for.
pub trait Wallet {
    /// An unspent output of this kind of wallet.
    type Utxo;

    /// An incoming transaction of this kind of wallet.
    type Incoming;

    /// `utxos` is what the wallet reports as its unspent outputs for the
    /// bounds `limit` and `since`.
    spec fn spec_utxos(
        &self,
        limit: Option<u64>,
        since: Option<u64>,
        utxos: Seq<Self::Utxo>,
    ) -> bool;

    /// `incoming` is what the wallet reports as its incoming transactions
    /// for the bounds `limit` and `since`.
    spec fn spec_incoming(
        &self,
        limit: Option<u64>,
        since: Option<u64>,
        incoming: Seq<Self::Incoming>,
    ) -> bool;

    /// The unspent outputs of the wallet, no more of them than `limit`.
    fn get_utxos(&self, limit: Option<u64>, since: Option<u64>) -> (utxos: Vec<Self::Utxo>)
        ensures
            self.spec_utxos(limit, since, utxos@),
            within_limit(limit, utxos@.len()),
    ;

    /// The incoming transactions of the wallet, no more of them than
    /// `limit`.
    fn get_incoming(&self, limit: Option<u64>, since: Option<u64>) -> (incoming: Vec<
        Self::Incoming,
    >)
        ensures
            self.spec_incoming(limit, since, incoming@),
            within_limit(limit, incoming@.len()),
    ;
}

} // verus!
