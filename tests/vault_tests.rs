use deadman_vault::validate::{validate_bitcoin_address, validate_timeout};
use deadman_vault::vault::{elapsed_days, NANOS_PER_DAY};
use deadman_vault::{PendingTransfer, Sweep, TransferState, Vault, VaultError, VaultStore};

const ADDR: &str = "1A1zP1eP5QGefi2DMPTfTL5SLmv7DivfNa";
const START: u64 = 1_700_000_000_000_000_000;

fn alice() -> Vec<u8> {
    vec![1, 2, 3]
}

fn bob() -> Vec<u8> {
    vec![9, 9]
}

fn store_with_vault(timeout_days: u64) -> (VaultStore, u64) {
    let mut store = VaultStore::new();
    let id = store
        .create_vault(&alice(), ADDR.to_string(), timeout_days, None, START)
        .unwrap();
    (store, id)
}

fn vault_of<'a>(store: &'a VaultStore, owner: &Vec<u8>) -> &'a Vault {
    store.get_vault(owner).unwrap()
}

#[test]
fn address_accepts_base58_form() {
    assert!(validate_bitcoin_address(ADDR));
    assert!(validate_bitcoin_address("bc1qar9xyz"));
}

#[test]
fn address_rejects_empty_and_too_long() {
    assert!(!validate_bitcoin_address(""));
    let long: String = std::iter::repeat('a').take(101).collect();
    assert!(!validate_bitcoin_address(&long));
    let longest: String = std::iter::repeat('a').take(100).collect();
    assert!(validate_bitcoin_address(&longest));
}

#[test]
fn address_rejects_ambiguous_and_symbols() {
    assert!(!validate_bitcoin_address("abc0def"));
    assert!(!validate_bitcoin_address("abcOdef"));
    assert!(!validate_bitcoin_address("abcIdef"));
    assert!(!validate_bitcoin_address("abcldef"));
    assert!(!validate_bitcoin_address("abc-def"));
    assert!(!validate_bitcoin_address("abc def"));
    assert!(!validate_bitcoin_address("abc!"));
}

#[test]
fn address_accepts_unicode_letters() {
    assert!(validate_bitcoin_address("caf\u{e9}"));
}

#[test]
fn address_rejects_unicode_symbols() {
    assert!(!validate_bitcoin_address("caf\u{20ac}"));
    assert!(validate_bitcoin_address("x\u{b2}"));
}

#[test]
fn timeout_bounds() {
    assert_eq!(validate_timeout(0), Err(VaultError::TimeoutTooShort));
    assert_eq!(validate_timeout(1), Ok(()));
    assert_eq!(validate_timeout(3650), Ok(()));
    assert_eq!(validate_timeout(3651), Err(VaultError::TimeoutTooLong));
}

#[test]
fn elapsed_days_rounds_down_and_saturates() {
    assert_eq!(elapsed_days(0, NANOS_PER_DAY - 1), 0);
    assert_eq!(elapsed_days(0, 3 * NANOS_PER_DAY + 5), 3);
    assert_eq!(elapsed_days(10, 5), 0);
}

#[test]
fn expiry_boundary_is_strict() {
    let (store, _) = store_with_vault(30);
    let v = vault_of(&store, &alice());
    assert!(!v.is_expired(START + 30 * NANOS_PER_DAY));
    assert!(!v.is_expired(START + 31 * NANOS_PER_DAY - 1));
    assert!(v.is_expired(START + 31 * NANOS_PER_DAY));
    assert_eq!(store.is_vault_expired(&alice(), START + 30 * NANOS_PER_DAY), Ok(false));
    assert_eq!(store.is_vault_expired(&alice(), START + 31 * NANOS_PER_DAY), Ok(true));
}

#[test]
fn time_until_expiration_counts_down() {
    let (store, _) = store_with_vault(30);
    assert_eq!(store.get_time_until_expiration(&alice(), START), Ok(30));
    assert_eq!(store.get_time_until_expiration(&alice(), START + 12 * NANOS_PER_DAY), Ok(18));
    assert_eq!(store.get_time_until_expiration(&alice(), START + 30 * NANOS_PER_DAY), Ok(0));
    assert_eq!(store.get_time_until_expiration(&alice(), START + 45 * NANOS_PER_DAY), Ok(0));
    assert_eq!(store.get_time_until_expiration(&bob(), START), Err(VaultError::VaultNotFound));
}

#[test]
fn create_vault_sets_fields() {
    let mut store = VaultStore::new();
    assert_eq!(store.get_next_vault_id(), 1);
    let id = store
        .create_vault(&alice(), ADDR.to_string(), 7, Some("sealed".to_string()), START)
        .unwrap();
    assert_eq!(id, 1);
    let v = vault_of(&store, &alice());
    assert_eq!(v.owner, alice());
    assert_eq!(v.backup_wallet, ADDR);
    assert_eq!(v.timeout_days, 7);
    assert_eq!(v.balance_satoshi, 0);
    assert_eq!(v.last_check_in, START);
    assert_eq!(v.created_at, START);
    assert_eq!(v.encrypted_note, Some("sealed".to_string()));
    assert_eq!(v.transfer_state, TransferState::Idle);
    assert_eq!(store.get_next_vault_id(), 2);
}

#[test]
fn second_vault_for_same_owner_is_refused() {
    let (mut store, _) = store_with_vault(30);
    assert_eq!(
        store.create_vault(&alice(), ADDR.to_string(), 10, None, START + 1),
        Err(VaultError::VaultAlreadyExists)
    );
    assert_eq!(store.len(), 1);
    assert_eq!(store.create_vault(&bob(), ADDR.to_string(), 10, None, START), Ok(2));
    assert_eq!(store.get_my_vaults(&alice()).len(), 1);
    assert_eq!(store.get_my_vaults(&bob())[0].owner, bob());
    assert!(store.get_my_vaults(&vec![5]).is_empty());
}

#[test]
fn create_vault_validates_input() {
    let mut store = VaultStore::new();
    assert_eq!(
        store.create_vault(&alice(), "bad address!".to_string(), 10, None, START),
        Err(VaultError::InvalidDestinationAddress)
    );
    assert_eq!(
        store.create_vault(&alice(), ADDR.to_string(), 0, None, START),
        Err(VaultError::TimeoutTooShort)
    );
    assert_eq!(
        store.create_vault(&alice(), ADDR.to_string(), 4000, None, START),
        Err(VaultError::TimeoutTooLong)
    );
    assert_eq!(store.len(), 0);
}

#[test]
fn foreign_vault_by_id_is_unauthorized() {
    let (store, id) = store_with_vault(30);
    assert_eq!(store.get_vault_by_id(&bob(), id).unwrap_err(), VaultError::Unauthorized);
    assert_eq!(store.get_vault_by_id(&alice(), id).unwrap().owner, alice());
    assert_eq!(store.get_vault_by_id(&alice(), 2).unwrap_err(), VaultError::VaultNotFound);
    assert_eq!(store.get_vault_by_id(&alice(), 0).unwrap_err(), VaultError::VaultNotFound);
    assert_eq!(store.get_by_id(id).unwrap().owner, alice());
}

#[test]
fn caller_without_vault_finds_nothing() {
    let (mut store, _) = store_with_vault(30);
    assert_eq!(store.get_vault(&bob()).unwrap_err(), VaultError::VaultNotFound);
    assert_eq!(store.check_in(&bob(), START), Err(VaultError::VaultNotFound));
    assert_eq!(store.deposit_ckbtc(&bob(), 5, START), Err(VaultError::VaultNotFound));
    assert_eq!(store.withdraw_ckbtc(&bob(), 5, START), Err(VaultError::VaultNotFound));
    assert_eq!(store.update_vault(&bob(), None, Some(5), None), Err(VaultError::VaultNotFound));
    assert_eq!(store.store_encrypted_note(&bob(), "x".to_string()), Err(VaultError::VaultNotFound));
    assert_eq!(store.get_encrypted_note(&bob()).unwrap_err(), VaultError::VaultNotFound);
    assert_eq!(vault_of(&store, &alice()).balance_satoshi, 0);
}

#[test]
fn check_in_refreshes_clock() {
    let (mut store, _) = store_with_vault(1);
    let later = START + 5 * NANOS_PER_DAY;
    assert_eq!(store.check_in(&alice(), later), Ok(()));
    assert_eq!(vault_of(&store, &alice()).last_check_in, later);
    assert_eq!(store.is_vault_expired(&alice(), later + NANOS_PER_DAY), Ok(false));
    assert_eq!(store.check_in(&alice(), START), Ok(()));
    assert_eq!(vault_of(&store, &alice()).last_check_in, later);
}

#[test]
fn update_vault_is_all_or_nothing() {
    let (mut store, _) = store_with_vault(30);
    assert_eq!(
        store.update_vault(&alice(), Some("bc1qnew".to_string()), Some(0), Some("n".to_string())),
        Err(VaultError::TimeoutTooShort)
    );
    assert_eq!(vault_of(&store, &alice()).backup_wallet, ADDR);
    assert_eq!(vault_of(&store, &alice()).encrypted_note, None);
    assert_eq!(
        store.update_vault(&alice(), Some("no good".to_string()), None, None),
        Err(VaultError::InvalidDestinationAddress)
    );
    assert_eq!(
        store.update_vault(&alice(), None, Some(9999), None),
        Err(VaultError::TimeoutTooLong)
    );
    assert_eq!(store.update_vault(&alice(), Some("bc1qnew".to_string()), None, None), Ok(()));
    let v = vault_of(&store, &alice());
    assert_eq!(v.backup_wallet, "bc1qnew");
    assert_eq!(v.timeout_days, 30);
    assert_eq!(store.update_vault(&alice(), None, Some(90), Some("n".to_string())), Ok(()));
    let v = vault_of(&store, &alice());
    assert_eq!(v.timeout_days, 90);
    assert_eq!(v.encrypted_note, Some("n".to_string()));
    assert_eq!(v.backup_wallet, "bc1qnew");
}

#[test]
fn note_is_stored_verbatim() {
    let (mut store, _) = store_with_vault(30);
    assert_eq!(store.get_encrypted_note(&alice()), Ok(&None));
    assert_eq!(store.store_encrypted_note(&alice(), "\u{0}\u{ff}blob".to_string()), Ok(()));
    assert_eq!(store.get_encrypted_note(&alice()), Ok(&Some("\u{0}\u{ff}blob".to_string())));
}

#[test]
fn deposit_credits_and_checks_in() {
    let (mut store, _) = store_with_vault(30);
    let t = START + 3 * NANOS_PER_DAY;
    assert_eq!(store.deposit_ckbtc(&alice(), 500, t), Ok(500));
    assert_eq!(store.deposit_ckbtc(&alice(), 250, t + 1), Ok(750));
    let v = vault_of(&store, &alice());
    assert_eq!(v.balance_satoshi, 750);
    assert_eq!(v.last_check_in, t + 1);
}

#[test]
fn zero_amounts_are_invalid_input() {
    let (mut store, _) = store_with_vault(30);
    assert!(matches!(store.deposit_ckbtc(&alice(), 0, START), Err(VaultError::InvalidInput(_))));
    assert!(matches!(store.withdraw_ckbtc(&alice(), 0, START), Err(VaultError::InvalidInput(_))));
    assert!(matches!(
        store.withdraw_to_bitcoin(&alice(), 0, ADDR, START),
        Err(VaultError::InvalidInput(_))
    ));
}

#[test]
fn deposit_overflow_is_refused() {
    let (mut store, _) = store_with_vault(30);
    store.deposit_ckbtc(&alice(), u64::MAX - 1, START).unwrap();
    assert!(matches!(store.deposit_ckbtc(&alice(), 2, START), Err(VaultError::InvalidInput(_))));
    assert_eq!(vault_of(&store, &alice()).balance_satoshi, u64::MAX - 1);
    assert_eq!(store.deposit_ckbtc(&alice(), 1, START), Ok(u64::MAX));
}

#[test]
fn withdraw_needs_enough_balance() {
    let (mut store, _) = store_with_vault(30);
    store.deposit_ckbtc(&alice(), 100, START).unwrap();
    assert_eq!(store.withdraw_ckbtc(&alice(), 101, START), Err(VaultError::InsufficientBalance));
    assert_eq!(
        store.withdraw_to_bitcoin(&alice(), 10, "not valid", START),
        Err(VaultError::InvalidDestinationAddress)
    );
    assert_eq!(vault_of(&store, &alice()).transfer_state, TransferState::Idle);
}

#[test]
fn withdraw_reserves_then_settles() {
    let (mut store, id) = store_with_vault(30);
    store.deposit_ckbtc(&alice(), 1000, START).unwrap();
    let t = store.withdraw_to_bitcoin(&alice(), 400, ADDR, START + 7).unwrap();
    assert_eq!(t, PendingTransfer { vault_id: id, amount: 400 });
    let v = vault_of(&store, &alice());
    assert_eq!(v.balance_satoshi, 1000);
    assert_eq!(v.last_check_in, START + 7);
    assert_eq!(v.transfer_state, TransferState::TransferPending { amount: 400 });
    assert_eq!(store.finish_transfer(t, Ok(())), Ok(()));
    let v = vault_of(&store, &alice());
    assert_eq!(v.balance_satoshi, 600);
    assert_eq!(v.transfer_state, TransferState::Idle);
}

#[test]
fn failed_withdrawal_keeps_funds() {
    let (mut store, _) = store_with_vault(30);
    store.deposit_ckbtc(&alice(), 1000, START).unwrap();
    let t = store.withdraw_ckbtc(&alice(), 1000, START).unwrap();
    let failure = VaultError::SigningServiceError("key unavailable".to_string());
    assert_eq!(store.finish_transfer(t, Err(failure.clone())), Err(failure));
    let v = vault_of(&store, &alice());
    assert_eq!(v.balance_satoshi, 1000);
    assert_eq!(v.transfer_state, TransferState::Idle);
}

#[test]
fn finish_of_unknown_transfer_changes_nothing() {
    let (mut store, id) = store_with_vault(30);
    store.deposit_ckbtc(&alice(), 1000, START).unwrap();
    let stale = PendingTransfer { vault_id: id, amount: 5 };
    assert!(matches!(store.finish_transfer(stale, Ok(())), Err(VaultError::InvalidInput(_))));
    let missing = PendingTransfer { vault_id: 42, amount: 5 };
    assert_eq!(store.finish_transfer(missing, Ok(())), Err(VaultError::VaultNotFound));
    let t = store.withdraw_ckbtc(&alice(), 300, START).unwrap();
    let other = PendingTransfer { vault_id: id, amount: 299 };
    assert!(matches!(store.finish_transfer(other, Ok(())), Err(VaultError::InvalidInput(_))));
    assert_eq!(vault_of(&store, &alice()).balance_satoshi, 1000);
    assert_eq!(store.finish_transfer(t, Ok(())), Ok(()));
    assert_eq!(vault_of(&store, &alice()).balance_satoshi, 700);
}

#[test]
fn pending_transfer_blocks_balance_changes() {
    let (mut store, id) = store_with_vault(1);
    store.deposit_ckbtc(&alice(), 1000, START).unwrap();
    let t = store.withdraw_ckbtc(&alice(), 200, START).unwrap();
    assert_eq!(store.deposit_ckbtc(&alice(), 5, START), Err(VaultError::TransferInProgress));
    assert_eq!(store.withdraw_ckbtc(&alice(), 5, START), Err(VaultError::TransferInProgress));
    assert_eq!(
        store.withdraw_to_bitcoin(&alice(), 5, ADDR, START),
        Err(VaultError::TransferInProgress)
    );
    let late = START + 3 * NANOS_PER_DAY;
    assert_eq!(store.begin_expiry_transfer(id, late), Err(VaultError::TransferInProgress));
    assert_eq!(store.check_in(&alice(), START + 1), Ok(()));
    assert_eq!(store.finish_transfer(t, Err(VaultError::TransferFailed("down".to_string()))),
        Err(VaultError::TransferFailed("down".to_string())));
    assert_eq!(store.deposit_ckbtc(&alice(), 5, START + 2), Ok(1005));
    let t2 = store.withdraw_ckbtc(&alice(), 5, START + 2).unwrap();
    assert_eq!(store.finish_transfer(t2, Ok(())), Ok(()));
    assert_eq!(vault_of(&store, &alice()).balance_satoshi, 1000);
}

#[test]
fn balance_is_deposits_minus_settled_debits() {
    let (mut store, _) = store_with_vault(30);
    store.deposit_ckbtc(&alice(), 300, START).unwrap();
    store.deposit_ckbtc(&alice(), 200, START).unwrap();
    let t = store.withdraw_ckbtc(&alice(), 120, START).unwrap();
    store.finish_transfer(t, Ok(())).unwrap();
    let t = store.withdraw_ckbtc(&alice(), 50, START).unwrap();
    let _ = store.finish_transfer(t, Err(VaultError::TransferFailed("x".to_string())));
    store.deposit_ckbtc(&alice(), 70, START).unwrap();
    assert_eq!(vault_of(&store, &alice()).balance_satoshi, 300 + 200 + 70 - 120);
}

#[test]
fn expiry_transfer_needs_a_due_vault() {
    let (mut store, id) = store_with_vault(1);
    assert_eq!(store.begin_expiry_transfer(id + 1, START), Err(VaultError::VaultNotFound));
    let late = START + 2 * NANOS_PER_DAY;
    assert!(matches!(store.begin_expiry_transfer(id, late), Err(VaultError::InvalidInput(_))));
    store.deposit_ckbtc(&alice(), 10, START).unwrap();
    assert!(matches!(store.begin_expiry_transfer(id, START), Err(VaultError::InvalidInput(_))));
    let t = store.begin_expiry_transfer(id, late).unwrap();
    assert_eq!(t, PendingTransfer { vault_id: id, amount: 10 });
}

#[test]
fn expired_ids_lists_due_vaults_in_order() {
    let mut store = VaultStore::new();
    store.create_vault(&alice(), ADDR.to_string(), 1, None, START).unwrap();
    store.create_vault(&bob(), ADDR.to_string(), 5, None, START).unwrap();
    store.create_vault(&vec![7], ADDR.to_string(), 1, None, START).unwrap();
    store.deposit_ckbtc(&alice(), 10, START).unwrap();
    store.deposit_ckbtc(&bob(), 10, START).unwrap();
    store.deposit_ckbtc(&vec![7], 10, START).unwrap();
    assert_eq!(store.expired_vault_ids(START + 2 * NANOS_PER_DAY), vec![1, 3]);
    assert_eq!(store.expired_vault_ids(START + 6 * NANOS_PER_DAY), vec![1, 2, 3]);
    assert!(store.expired_vault_ids(START).is_empty());
}

fn funded_expired_vault() -> (VaultStore, u64, u64) {
    let (mut store, id) = store_with_vault(1);
    store.deposit_ckbtc(&alice(), 100000, START).unwrap();
    (store, id, START + 2 * NANOS_PER_DAY)
}

#[test]
fn sweep_drains_expired_vault() {
    let (mut store, id, now) = funded_expired_vault();
    let mut sweep = Sweep::start(&store, now);
    let t = sweep.next_transfer(&mut store).unwrap();
    assert_eq!(t, PendingTransfer { vault_id: id, amount: 100000 });
    assert_eq!(sweep.complete(&mut store, t, Ok(())), Ok(()));
    assert_eq!(sweep.next_transfer(&mut store), None);
    assert_eq!(sweep.drained(), &vec![id]);
    let v = vault_of(&store, &alice());
    assert_eq!(v.balance_satoshi, 0);
    assert_eq!(v.transfer_state, TransferState::Idle);
}

#[test]
fn failed_sweep_transfer_keeps_balance() {
    let (mut store, _, now) = funded_expired_vault();
    let mut sweep = Sweep::start(&store, now);
    let t = sweep.next_transfer(&mut store).unwrap();
    assert_eq!(t.amount, 100000);
    let failure = VaultError::TransferFailed("broadcast rejected".to_string());
    assert_eq!(sweep.complete(&mut store, t, Err(failure.clone())), Err(failure));
    assert_eq!(sweep.next_transfer(&mut store), None);
    assert!(sweep.drained().is_empty());
    let v = vault_of(&store, &alice());
    assert_eq!(v.balance_satoshi, 100000);
    assert_eq!(v.transfer_state, TransferState::Idle);
}

#[test]
fn second_sweep_drains_nothing_more() {
    let (mut store, id, now) = funded_expired_vault();
    let mut first = Sweep::start(&store, now);
    let t = first.next_transfer(&mut store).unwrap();
    first.complete(&mut store, t, Ok(())).unwrap();
    assert_eq!(first.drained(), &vec![id]);
    let mut second = Sweep::start(&store, now + 1);
    assert_eq!(second.next_transfer(&mut store), None);
    assert!(second.drained().is_empty());
}

#[test]
fn sweep_skips_vault_checked_in_meanwhile() {
    let mut store = VaultStore::new();
    store.create_vault(&alice(), ADDR.to_string(), 1, None, START).unwrap();
    store.create_vault(&bob(), ADDR.to_string(), 1, None, START).unwrap();
    store.deposit_ckbtc(&alice(), 10, START).unwrap();
    store.deposit_ckbtc(&bob(), 20, START).unwrap();
    let now = START + 2 * NANOS_PER_DAY;
    let mut sweep = Sweep::start(&store, now);
    store.check_in(&alice(), now).unwrap();
    let t = sweep.next_transfer(&mut store).unwrap();
    assert_eq!(t, PendingTransfer { vault_id: 2, amount: 20 });
    assert_eq!(vault_of(&store, &alice()).transfer_state, TransferState::Idle);
}

#[test]
fn error_messages() {
    assert_eq!(VaultError::VaultNotFound.message(), "Vault not found");
    assert_eq!(VaultError::InvalidInput("x".to_string()).message(), "Invalid input: x");
    assert_eq!(VaultError::TransferFailed("y".to_string()).message(), "Transfer failed: y");
    assert_eq!(
        VaultError::SigningServiceError("z".to_string()).message(),
        "Signing service error: z"
    );
    assert_eq!(VaultError::TimeoutTooLong.message(), "Timeout too long (maximum 3650 days)");
    assert_eq!(VaultError::TransferInProgress.message(), "Transfer in progress");
}

#[test]
fn store_round_trips_through_saved_vaults() {
    let (mut store, _) = store_with_vault(30);
    store.create_vault(&bob(), ADDR.to_string(), 5, Some("n".to_string()), START).unwrap();
    store.deposit_ckbtc(&bob(), 40, START).unwrap();
    let restored = VaultStore::from_vaults(store.vaults().clone()).unwrap();
    assert_eq!(restored.len(), 2);
    assert_eq!(restored.get_vault(&bob()).unwrap().balance_satoshi, 40);
    assert_eq!(restored.get_vault_by_id(&alice(), 1).unwrap().timeout_days, 30);
    assert_eq!(restored.get_next_vault_id(), 3);
}

#[test]
fn inconsistent_saved_vaults_are_refused() {
    let (store, _) = store_with_vault(30);
    let mut twice = store.vaults().clone();
    twice.push(store.vaults()[0].clone());
    assert!(matches!(VaultStore::from_vaults(twice), Err(VaultError::InvalidInput(_))));
    let mut bad = store.vaults().clone();
    bad[0].timeout_days = 0;
    assert!(matches!(VaultStore::from_vaults(bad), Err(VaultError::InvalidInput(_))));
    let mut over = store.vaults().clone();
    over[0].transfer_state = TransferState::TransferPending { amount: 1 };
    assert!(matches!(VaultStore::from_vaults(over), Err(VaultError::InvalidInput(_))));
    assert!(VaultStore::from_vaults(Vec::new()).unwrap().vaults().is_empty());
}
