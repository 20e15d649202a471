use wallet_registry::errors::WalletError;
use wallet_registry::handlers::wallets::base::{get_incoming, get_utxos, WalletHandler};
use wallet_registry::models::hd_wallet::{HdAddress, HdWallet};
use wallet_registry::models::multisig_wallet::MultisigWallet;
use wallet_registry::models::plain_wallet::{Address, PlainWallet};
use wallet_registry::models::resource_wallet::ResourceWallet;
use wallet_registry::server_state::{ServerState, StoreHealth};

fn plain(id: Option<u64>, version: &str) -> PlainWallet {
    PlainWallet { id, version: version.to_string(), addresses: vec![] }
}

fn hd(id: Option<u64>, version: &str, xpub: &str) -> HdWallet {
    HdWallet { id, version: version.to_string(), addresses: vec![], xpub: xpub.to_string() }
}

fn hd_address(id: Option<u64>, address: &str) -> HdAddress {
    HdAddress { id, address: address.to_string(), path: vec![0, 1] }
}

fn plain_ids(state: &ServerState) -> Vec<Option<u64>> {
    state.wallets.plains.iter().map(|wallet| wallet.id).collect()
}

#[test]
fn create_on_empty_collection_assigns_one_then_two() {
    let mut state = ServerState::new();
    let first = PlainWallet::create(&mut state, plain(None, "a")).expect("created").clone();
    assert_eq!(first, plain(Some(1), "a"));
    let second = PlainWallet::create(&mut state, plain(None, "b")).expect("created").clone();
    assert_eq!(second, plain(Some(2), "b"));
    assert_eq!(plain_ids(&state), vec![Some(1), Some(2)]);
}

#[test]
fn scenario_create_conflict_destroy() {
    let mut state = ServerState::new();
    PlainWallet::create(&mut state, plain(None, "a")).expect("created");
    PlainWallet::create(&mut state, plain(None, "b")).expect("created");
    let refused = PlainWallet::create(&mut state, plain(Some(1), "c")).map(|w| w.clone());
    assert_eq!(refused, Err(WalletError::Conflict(1)));
    assert_eq!(state.wallets.plains.len(), 2);
    let removed = PlainWallet::destroy(&mut state, 1);
    assert_eq!(removed, Ok(plain(Some(1), "a")));
    assert_eq!(state.wallets.plains, vec![plain(Some(2), "b")]);
}

#[test]
fn create_assigns_largest_identifier_plus_one() {
    let mut state = ServerState::new();
    PlainWallet::create(&mut state, plain(Some(5), "a")).expect("created");
    PlainWallet::create(&mut state, plain(Some(3), "b")).expect("created");
    let stored = PlainWallet::create(&mut state, plain(None, "c")).expect("created").clone();
    assert_eq!(stored.id, Some(6));
    assert_eq!(plain_ids(&state), vec![Some(5), Some(3), Some(6)]);
}

#[test]
fn create_reuses_an_identifier_above_which_nothing_is_left() {
    let mut state = ServerState::new();
    PlainWallet::create(&mut state, plain(None, "a")).expect("created");
    PlainWallet::create(&mut state, plain(None, "b")).expect("created");
    PlainWallet::destroy(&mut state, 2).expect("destroyed");
    let stored = PlainWallet::create(&mut state, plain(None, "c")).expect("created").clone();
    assert_eq!(stored.id, Some(2));
}

#[test]
fn create_keeps_a_given_identifier() {
    let mut state = ServerState::new();
    let stored = HdWallet::create(&mut state, hd(Some(40), "1", "xpub-a")).expect("created").clone();
    assert_eq!(stored, hd(Some(40), "1", "xpub-a"));
    assert_eq!(state.wallets.hds, vec![hd(Some(40), "1", "xpub-a")]);
}

#[test]
fn create_with_taken_identifier_changes_nothing() {
    let mut state = ServerState::new();
    HdWallet::create(&mut state, hd(Some(7), "1", "xpub-a")).expect("created");
    HdWallet::create(&mut state, hd(Some(8), "1", "xpub-b")).expect("created");
    let before = state.clone();
    let refused = HdWallet::create(&mut state, hd(Some(8), "2", "xpub-c")).map(|w| w.clone());
    assert_eq!(refused, Err(WalletError::Conflict(8)));
    assert_eq!(state, before);
}

#[test]
fn create_of_identifier_zero_collides_with_a_wallet_without_identifier() {
    let mut state = ServerState::new();
    state.wallets.plains.push(plain(None, "a"));
    let refused = PlainWallet::create(&mut state, plain(Some(0), "b")).map(|w| w.clone());
    assert_eq!(refused, Err(WalletError::Conflict(0)));
    assert_eq!(state.wallets.plains, vec![plain(None, "a")]);
}

#[test]
fn create_without_identifier_fails_when_no_larger_one_exists() {
    let mut state = ServerState::new();
    PlainWallet::create(&mut state, plain(Some(u64::MAX), "a")).expect("created");
    let refused = PlainWallet::create(&mut state, plain(None, "b")).map(|w| w.clone());
    assert_eq!(refused, Err(WalletError::Conflict(u64::MAX)));
    assert_eq!(state.wallets.plains.len(), 1);
    let stored = PlainWallet::create(&mut state, plain(Some(4), "c")).expect("created").clone();
    assert_eq!(stored.id, Some(4));
}

#[test]
fn collections_assign_identifiers_independently() {
    let mut state = ServerState::new();
    PlainWallet::create(&mut state, plain(None, "a")).expect("created");
    PlainWallet::create(&mut state, plain(None, "b")).expect("created");
    let stored = HdWallet::create(&mut state, hd(None, "1", "xpub-a")).expect("created").clone();
    assert_eq!(stored.id, Some(1));
    assert_eq!(state.wallets.plains.len(), 2);
    assert_eq!(state.wallets.hds.len(), 1);
    assert!(state.wallets.multisigs.is_empty());
}

#[test]
fn show_finds_the_wallet_and_gives_the_default_query() {
    let mut state = ServerState::new();
    HdWallet::create(&mut state, hd(Some(7), "1", "xpub-a")).expect("created");
    HdWallet::create(&mut state, hd(Some(9), "2", "xpub-b")).expect("created");
    let (wallet, query) = HdWallet::show(&state, 9).expect("shown");
    assert_eq!(wallet, &hd(Some(9), "2", "xpub-b"));
    let fields = query.fields.expect("fields are selected");
    assert_eq!(fields["hd_wallet"], vec!["version".to_string(), "xpub".to_string()]);
}

#[test]
fn show_takes_the_first_match() {
    let mut state = ServerState::new();
    state.wallets.plains.push(plain(Some(3), "first"));
    state.wallets.plains.push(plain(Some(3), "second"));
    let (wallet, _) = PlainWallet::show(&state, 3).expect("shown");
    assert_eq!(wallet.version, "first");
}

#[test]
fn show_of_unknown_identifier_is_not_found() {
    let mut state = ServerState::new();
    HdWallet::create(&mut state, hd(Some(7), "1", "xpub-a")).expect("created");
    let missing = HdWallet::show(&state, 8).map(|(wallet, _)| wallet.clone());
    assert_eq!(missing, Err(WalletError::NotFound(8)));
}

#[test]
fn index_lists_the_whole_collection_in_order() {
    let mut state = ServerState::new();
    PlainWallet::create(&mut state, plain(Some(2), "a")).expect("created");
    PlainWallet::create(&mut state, plain(Some(1), "b")).expect("created");
    let (collection, query) = PlainWallet::index(&state).expect("listed");
    assert_eq!(collection, &vec![plain(Some(2), "a"), plain(Some(1), "b")]);
    let fields = query.fields.expect("fields are selected");
    assert_eq!(fields["plain_wallet"], vec!["version".to_string()]);
}

#[test]
fn update_keeps_addresses_and_place_and_takes_the_rest() {
    let mut state = ServerState::new();
    let mut first = hd(Some(1), "1", "xpub-a");
    first.addresses.push(hd_address(Some(11), "addr-a"));
    HdWallet::create(&mut state, first).expect("created");
    HdWallet::create(&mut state, hd(Some(2), "1", "xpub-b")).expect("created");
    let mut incoming = hd(Some(1), "2", "xpub-c");
    incoming.addresses.push(hd_address(Some(99), "ignored"));
    let stored = HdWallet::update(&mut state, 1, incoming).expect("updated").clone();
    let mut expected = hd(Some(1), "2", "xpub-c");
    expected.addresses.push(hd_address(Some(11), "addr-a"));
    assert_eq!(stored, expected);
    assert_eq!(state.wallets.hds, vec![expected, hd(Some(2), "1", "xpub-b")]);
}

#[test]
fn update_takes_the_identifier_of_the_new_record() {
    let mut state = ServerState::new();
    HdWallet::create(&mut state, hd(Some(3), "1", "xpub-a")).expect("created");
    let stored = HdWallet::update(&mut state, 3, hd(Some(7), "2", "xpub-b")).expect("updated").clone();
    assert_eq!(stored.id, Some(7));
    assert!(HdWallet::show(&state, 3).is_err());
    assert_eq!(HdWallet::show(&state, 7).expect("shown").0, &hd(Some(7), "2", "xpub-b"));
}

#[test]
fn update_of_unknown_identifier_changes_nothing() {
    let mut state = ServerState::new();
    HdWallet::create(&mut state, hd(Some(3), "1", "xpub-a")).expect("created");
    let before = state.clone();
    let missing = HdWallet::update(&mut state, 4, hd(Some(4), "2", "xpub-b")).map(|w| w.clone());
    assert_eq!(missing, Err(WalletError::NotFound(4)));
    assert_eq!(state, before);
}

#[test]
fn destroy_removes_one_record_and_show_fails_afterwards() {
    let mut state = ServerState::new();
    PlainWallet::create(&mut state, plain(Some(1), "a")).expect("created");
    PlainWallet::create(&mut state, plain(Some(2), "b")).expect("created");
    PlainWallet::create(&mut state, plain(Some(3), "c")).expect("created");
    let removed = PlainWallet::destroy(&mut state, 2);
    assert_eq!(removed, Ok(plain(Some(2), "b")));
    assert_eq!(state.wallets.plains, vec![plain(Some(1), "a"), plain(Some(3), "c")]);
    let missing = PlainWallet::show(&state, 2).map(|(wallet, _)| wallet.clone());
    assert_eq!(missing, Err(WalletError::NotFound(2)));
}

#[test]
fn destroy_puts_the_last_record_in_the_free_place() {
    let mut state = ServerState::new();
    for id in [1u64, 2, 3, 4] {
        PlainWallet::create(&mut state, plain(Some(id), "a")).expect("created");
    }
    assert_eq!(PlainWallet::destroy(&mut state, 1), Ok(plain(Some(1), "a")));
    assert_eq!(plain_ids(&state), vec![Some(4), Some(2), Some(3)]);
    assert_eq!(PlainWallet::destroy(&mut state, 3), Ok(plain(Some(3), "a")));
    assert_eq!(plain_ids(&state), vec![Some(4), Some(2)]);
    assert_eq!(PlainWallet::destroy(&mut state, 4), Ok(plain(Some(4), "a")));
    assert_eq!(PlainWallet::destroy(&mut state, 2), Ok(plain(Some(2), "a")));
    assert!(state.wallets.plains.is_empty());
}

#[test]
fn destroy_of_unknown_identifier_changes_nothing() {
    let mut state = ServerState::new();
    PlainWallet::create(&mut state, plain(Some(1), "a")).expect("created");
    let before = state.clone();
    assert_eq!(PlainWallet::destroy(&mut state, 2), Err(WalletError::NotFound(2)));
    assert_eq!(state, before);
}

#[test]
fn every_operation_fails_while_the_service_is_stopping() {
    let mut state = ServerState::new();
    PlainWallet::create(&mut state, plain(Some(1), "a")).expect("created");
    state.graceful_stop();
    let before = state.clone();
    assert_eq!(PlainWallet::index(&state).map(|_| ()), Err(WalletError::ServiceUnavailable));
    assert_eq!(PlainWallet::show(&state, 1).map(|_| ()), Err(WalletError::ServiceUnavailable));
    assert_eq!(
        PlainWallet::create(&mut state, plain(None, "b")).map(|_| ()),
        Err(WalletError::ServiceUnavailable)
    );
    assert_eq!(
        PlainWallet::update(&mut state, 1, plain(Some(1), "b")).map(|_| ()),
        Err(WalletError::ServiceUnavailable)
    );
    assert_eq!(PlainWallet::destroy(&mut state, 1), Err(WalletError::ServiceUnavailable));
    let relayed = PlainWallet::get_transactions(&state, 1, None, None, |_, _, _| vec![1u8]);
    assert_eq!(relayed, Err(WalletError::ServiceUnavailable));
    assert_eq!(state, before);
}

#[test]
fn every_operation_fails_on_a_contaminated_store() {
    let mut state = ServerState::new();
    HdWallet::create(&mut state, hd(Some(1), "1", "xpub-a")).expect("created");
    state.mark_contaminated();
    assert_eq!(state.health, StoreHealth::Contaminated);
    let before = state.clone();
    assert_eq!(HdWallet::show(&state, 1).map(|_| ()), Err(WalletError::ServiceUnavailable));
    assert_eq!(
        HdWallet::create(&mut state, hd(None, "1", "xpub-b")).map(|_| ()),
        Err(WalletError::ServiceUnavailable)
    );
    assert_eq!(HdWallet::destroy(&mut state, 1), Err(WalletError::ServiceUnavailable));
    assert_eq!(state, before);
}

#[test]
fn get_transactions_passes_the_bounds_on_and_the_result_back() {
    let mut state = ServerState::new();
    HdWallet::create(&mut state, hd(Some(4), "1", "xpub-a")).expect("created");
    let relayed = HdWallet::get_transactions(
        &state,
        4,
        Some(10),
        Some(250),
        |wallet: &HdWallet, limit: Option<u64>, since: Option<u64>| {
            vec![(wallet.xpub.clone(), limit, since), ("tail".to_string(), None, None)]
        },
    );
    assert_eq!(
        relayed,
        Ok(vec![
            ("xpub-a".to_string(), Some(10), Some(250)),
            ("tail".to_string(), None, None)
        ])
    );
}

#[test]
fn get_transactions_of_unknown_wallet_does_not_ask() {
    let mut state = ServerState::new();
    HdWallet::create(&mut state, hd(Some(4), "1", "xpub-a")).expect("created");
    let mut asked = false;
    let relayed = HdWallet::get_transactions(&state, 5, None, None, |_, _, _| {
        asked = true;
        vec![0u8]
    });
    assert_eq!(relayed, Err(WalletError::NotFound(5)));
    assert!(!asked);
}

#[test]
fn get_utxos_of_a_multisig_wallet_is_the_fixed_output() {
    let mut state = ServerState::new();
    let wallet = MultisigWallet {
        id: Some(1),
        version: "1".to_string(),
        addresses: vec![],
        xpubs: vec!["xpub-a".to_string(), "xpub-b".to_string()],
        signers: 2,
    };
    MultisigWallet::create(&mut state, wallet).expect("created");
    let utxos = get_utxos::<MultisigWallet>(&state, 1, Some(5), None).expect("reported");
    assert_eq!(utxos.len(), 1);
    assert_eq!(utxos[0].multisig.m, 2);
    assert_eq!(utxos[0].multisig.pubkeys[1].node.public_key, "xpub-b");
    assert_eq!(
        get_utxos::<MultisigWallet>(&state, 2, None, None),
        Err(WalletError::NotFound(2))
    );
}

#[test]
fn get_utxos_hands_the_limit_to_the_wallet() {
    let mut state = ServerState::new();
    let wallet = MultisigWallet {
        id: Some(1),
        version: "1".to_string(),
        addresses: vec![],
        xpubs: vec!["xpub-a".to_string()],
        signers: 1,
    };
    MultisigWallet::create(&mut state, wallet).expect("created");
    assert_eq!(get_utxos::<MultisigWallet>(&state, 1, Some(0), None), Ok(vec![]));
    assert_eq!(get_utxos::<MultisigWallet>(&state, 1, Some(1), Some(3)).map(|u| u.len()), Ok(1));
    assert_eq!(get_utxos::<MultisigWallet>(&state, 1, None, None).map(|u| u.len()), Ok(1));
}

#[test]
fn get_incoming_looks_the_wallet_up_and_relays_its_report() {
    let mut state = ServerState::new();
    HdWallet::create(&mut state, hd(Some(1), "1", "xpub-a")).expect("created");
    assert_eq!(get_incoming::<HdWallet>(&state, 1, Some(5), Some(2)), Ok(vec![]));
    assert_eq!(get_incoming::<HdWallet>(&state, 2, None, None), Err(WalletError::NotFound(2)));
    assert_eq!(
        get_incoming::<MultisigWallet>(&state, 1, None, None),
        Err(WalletError::NotFound(1))
    );
    state.graceful_stop();
    assert_eq!(
        get_incoming::<HdWallet>(&state, 1, None, None),
        Err(WalletError::ServiceUnavailable)
    );
    assert_eq!(get_utxos::<HdWallet>(&state, 1, None, None), Err(WalletError::ServiceUnavailable));
}

#[test]
fn get_utxos_of_an_hd_wallet_is_empty() {
    let mut state = ServerState::new();
    HdWallet::create(&mut state, hd(Some(1), "1", "xpub-a")).expect("created");
    assert_eq!(get_utxos::<HdWallet>(&state, 1, None, None), Ok(vec![]));
}

#[test]
fn plain_address_is_kept_by_update() {
    let mut state = ServerState::new();
    let mut first = plain(Some(1), "1");
    first.addresses.push(Address { id: Some(5), address: "addr".to_string() });
    PlainWallet::create(&mut state, first).expect("created");
    let stored = PlainWallet::update(&mut state, 1, plain(Some(1), "2")).expect("updated").clone();
    assert_eq!(stored.version, "2");
    assert_eq!(stored.get_addresses(), &vec![Address { id: Some(5), address: "addr".to_string() }]);
}
