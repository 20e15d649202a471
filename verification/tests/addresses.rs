use wallet_registry::errors::WalletError;
use wallet_registry::handlers::addresses::base::AddressHandler;
use wallet_registry::handlers::wallets::base::WalletHandler;
use wallet_registry::models::hd_wallet::{HdAddress, HdWallet};
use wallet_registry::models::multisig_wallet::MultisigWallet;
use wallet_registry::models::plain_wallet::{Address, PlainWallet};
use wallet_registry::models::resource_address::{add_to, find_address, remove_from, same_key, ResourceAddress};
use wallet_registry::models::resource_wallet::ResourceWallet;
use wallet_registry::server_state::ServerState;

fn hd_address(id: Option<u64>, address: &str) -> HdAddress {
    HdAddress { id, address: address.to_string(), path: vec![44, 0, 7] }
}

fn hd_wallet(id: u64, addresses: Vec<HdAddress>) -> HdWallet {
    HdWallet { id: Some(id), version: "1".to_string(), addresses, xpub: "xpub".to_string() }
}

fn state_with(wallets: Vec<HdWallet>) -> ServerState {
    let mut state = ServerState::new();
    for wallet in wallets {
        HdWallet::create(&mut state, wallet).expect("created");
    }
    state
}

#[test]
fn address_is_added_at_the_end() {
    let mut state = state_with(vec![
        hd_wallet(1, vec![hd_address(Some(1), "a")]),
        hd_wallet(2, vec![hd_address(Some(1), "b")]),
    ]);
    let outcome = HdWallet::address_create(&mut state, 2, hd_address(Some(2), "c"));
    assert_eq!(outcome, Ok(true));
    assert_eq!(
        state.wallets.hds,
        vec![
            hd_wallet(1, vec![hd_address(Some(1), "a")]),
            hd_wallet(2, vec![hd_address(Some(1), "b"), hd_address(Some(2), "c")]),
        ]
    );
}

#[test]
fn adding_then_removing_an_address_restores_the_addresses() {
    let initial = vec![hd_address(Some(1), "a"), hd_address(Some(2), "b")];
    let mut state = state_with(vec![hd_wallet(1, initial.clone())]);
    assert_eq!(HdWallet::address_create(&mut state, 1, hd_address(Some(3), "c")), Ok(true));
    assert_eq!(state.wallets.hds[0].addresses.len(), 3);
    assert_eq!(HdWallet::address_destroy(&mut state, 1, hd_address(Some(3), "other text")), Ok(true));
    assert_eq!(state.wallets.hds, vec![hd_wallet(1, initial)]);
}

#[test]
fn duplicate_address_is_refused_and_nothing_changes() {
    let mut state = state_with(vec![hd_wallet(1, vec![hd_address(Some(1), "a")])]);
    let before = state.clone();
    let outcome = HdWallet::address_create(&mut state, 1, hd_address(Some(1), "b"));
    assert_eq!(outcome, Err(WalletError::DuplicateAddress(Some(1))));
    assert_eq!(state.wallets.hds[0].addresses.len(), 1);
    assert_eq!(state, before);
}

#[test]
fn two_addresses_without_identifier_collide() {
    let mut state = state_with(vec![hd_wallet(1, vec![hd_address(None, "a")])]);
    let outcome = HdWallet::address_create(&mut state, 1, hd_address(None, "b"));
    assert_eq!(outcome, Err(WalletError::DuplicateAddress(None)));
}

#[test]
fn the_same_address_identifier_may_live_in_two_wallets() {
    let mut state = state_with(vec![hd_wallet(1, vec![hd_address(Some(1), "a")]), hd_wallet(2, vec![])]);
    assert_eq!(HdWallet::address_create(&mut state, 2, hd_address(Some(1), "a")), Ok(true));
}

#[test]
fn removing_an_unknown_address_is_refused() {
    let mut state = state_with(vec![hd_wallet(1, vec![hd_address(Some(1), "a")])]);
    let before = state.clone();
    let outcome = HdWallet::address_destroy(&mut state, 1, hd_address(Some(2), "a"));
    assert_eq!(outcome, Err(WalletError::AddressNotFound(Some(2))));
    assert_eq!(state, before);
}

#[test]
fn removing_takes_the_first_match_only() {
    let mut state = ServerState::new();
    state.wallets.hds.push(hd_wallet(
        1,
        vec![hd_address(Some(5), "first"), hd_address(Some(6), "x"), hd_address(Some(5), "second")],
    ));
    assert_eq!(HdWallet::address_destroy(&mut state, 1, hd_address(Some(5), "")), Ok(true));
    assert_eq!(
        state.wallets.hds[0].addresses,
        vec![hd_address(Some(6), "x"), hd_address(Some(5), "second")]
    );
}

#[test]
fn address_operations_on_unknown_wallet_are_not_found() {
    let mut state = state_with(vec![hd_wallet(1, vec![])]);
    let before = state.clone();
    assert_eq!(
        HdWallet::address_create(&mut state, 9, hd_address(Some(1), "a")),
        Err(WalletError::NotFound(9))
    );
    assert_eq!(
        HdWallet::address_destroy(&mut state, 9, hd_address(Some(1), "a")),
        Err(WalletError::NotFound(9))
    );
    assert_eq!(HdWallet::address_index(&state, 9).map(|a| a.clone()), Err(WalletError::NotFound(9)));
    assert_eq!(state, before);
}

#[test]
fn address_index_lists_the_addresses_of_the_wallet() {
    let state = state_with(vec![
        hd_wallet(1, vec![hd_address(Some(1), "a")]),
        hd_wallet(2, vec![hd_address(Some(7), "b"), hd_address(Some(8), "c")]),
    ]);
    assert_eq!(
        HdWallet::address_index(&state, 2),
        Ok(&vec![hd_address(Some(7), "b"), hd_address(Some(8), "c")])
    );
}

#[test]
fn address_operations_fail_while_unavailable() {
    let mut state = state_with(vec![hd_wallet(1, vec![hd_address(Some(1), "a")])]);
    state.mark_contaminated();
    let before = state.clone();
    assert_eq!(
        HdWallet::address_create(&mut state, 1, hd_address(Some(2), "b")),
        Err(WalletError::ServiceUnavailable)
    );
    assert_eq!(
        HdWallet::address_destroy(&mut state, 1, hd_address(Some(1), "a")),
        Err(WalletError::ServiceUnavailable)
    );
    assert_eq!(HdWallet::address_index(&state, 1).map(|a| a.len()), Err(WalletError::ServiceUnavailable));
    assert_eq!(state, before);
}

#[test]
fn plain_and_multisig_wallets_manage_their_own_addresses() {
    let mut state = ServerState::new();
    PlainWallet::create(
        &mut state,
        PlainWallet { id: None, version: "1".to_string(), addresses: vec![] },
    )
    .expect("created");
    MultisigWallet::create(
        &mut state,
        MultisigWallet {
            id: None,
            version: "1".to_string(),
            addresses: vec![],
            xpubs: vec!["a".to_string()],
            signers: 1,
        },
    )
    .expect("created");
    let plain_address = Address { id: Some(3), address: "p".to_string() };
    assert_eq!(PlainWallet::address_create(&mut state, 1, plain_address.clone()), Ok(true));
    assert_eq!(
        PlainWallet::address_create(&mut state, 1, plain_address.clone()),
        Err(WalletError::DuplicateAddress(Some(3)))
    );
    assert_eq!(MultisigWallet::address_create(&mut state, 1, hd_address(Some(3), "m")), Ok(true));
    assert_eq!(state.wallets.plains[0].addresses, vec![plain_address.clone()]);
    assert_eq!(state.wallets.multisigs[0].addresses, vec![hd_address(Some(3), "m")]);
    assert_eq!(PlainWallet::address_destroy(&mut state, 1, plain_address), Ok(true));
    assert!(state.wallets.plains[0].addresses.is_empty());
    assert_eq!(
        MultisigWallet::address_destroy(&mut state, 1, hd_address(Some(4), "m")),
        Err(WalletError::AddressNotFound(Some(4)))
    );
}

#[test]
fn wallet_adds_and_removes_its_addresses() {
    let mut wallet = hd_wallet(1, vec![]);
    assert_eq!(wallet.add_address(hd_address(Some(1), "a")), Ok(true));
    assert_eq!(wallet.add_address(hd_address(Some(2), "b")), Ok(true));
    assert_eq!(wallet.add_address(hd_address(Some(1), "c")), Err(WalletError::DuplicateAddress(Some(1))));
    assert_eq!(wallet.get_addresses(), &vec![hd_address(Some(1), "a"), hd_address(Some(2), "b")]);
    assert_eq!(wallet.remove_address(hd_address(Some(1), "")), Ok(true));
    assert_eq!(wallet.remove_address(hd_address(Some(1), "")), Err(WalletError::AddressNotFound(Some(1))));
    assert_eq!(wallet, hd_wallet(1, vec![hd_address(Some(2), "b")]));
}

#[test]
fn address_list_helpers_find_add_and_remove() {
    let mut addresses = vec![hd_address(Some(4), "a"), hd_address(None, "b"), hd_address(Some(4), "c")];
    assert_eq!(find_address(&addresses, Some(4)), Some(0));
    assert_eq!(find_address(&addresses, None), Some(1));
    assert_eq!(find_address(&addresses, Some(0)), None);
    assert_eq!(add_to(&mut addresses, hd_address(Some(9), "d")), Ok(true));
    assert_eq!(find_address(&addresses, Some(9)), Some(3));
    assert_eq!(remove_from(&mut addresses, hd_address(None, "")), Ok(true));
    assert_eq!(find_address(&addresses, Some(9)), Some(2));
    assert_eq!(hd_address(Some(9), "d").raw_id(), Some(9));
}

#[test]
fn identifiers_compare_with_absent_equal_to_absent() {
    assert!(same_key(None, None));
    assert!(same_key(Some(3), Some(3)));
    assert!(!same_key(Some(0), None));
    assert!(!same_key(None, Some(0)));
    assert!(!same_key(Some(3), Some(4)));
}
