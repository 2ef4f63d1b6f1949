use vault_core::addressing::{bytes_eq, derive_address};
use vault_core::errors::VaultError;
use vault_core::state::VaultState;
use vault_core::vault::Vault;

fn key(b: u8) -> Vec<u8> {
    vec![b; 32]
}

fn state_tag() -> Vec<u8> {
    vec![115, 116, 97, 116, 101]
}

fn vault_tag() -> Vec<u8> {
    vec![118, 97, 117, 108, 116]
}

fn fresh_vault() -> Vault {
    Vault::new(key(1), key(9), 1000, 10)
}

#[test]
fn derive_twice_identical() {
    let tag = state_tag();
    let k = key(1);
    let ns = key(9);
    let first = derive_address(&tag, &k, &ns).unwrap();
    let second = derive_address(&tag, &k, &ns).unwrap();
    assert_eq!(first, second);
}

#[test]
fn derive_depends_on_inputs() {
    let k = key(1);
    let ns = key(9);
    let state = derive_address(&state_tag(), &k, &ns).unwrap();
    let vault = derive_address(&vault_tag(), &k, &ns).unwrap();
    assert_eq!(state.0.len(), 32);
    assert_ne!(state.0, k);
    assert_ne!(state.0, vault.0);
    let other_ns = derive_address(&state_tag(), &k, &key(8)).unwrap();
    assert_ne!(state.0, other_ns.0);
}

#[test]
fn bytes_eq_decides_equality() {
    assert!(bytes_eq(&key(3), &key(3)));
    assert!(!bytes_eq(&key(3), &key(4)));
    assert!(!bytes_eq(&vec![3; 31], &key(3)));
}

#[test]
fn initialize_stores_rederivable_bumps() {
    let mut v = fresh_vault();
    assert_eq!(v.initialize(&key(1)), Ok(()));
    let rec = v.record.unwrap();
    let (state_addr, state_bump) = derive_address(&state_tag(), &key(1), &key(9)).unwrap();
    let (_, vault_bump) = derive_address(&vault_tag(), &state_addr, &key(9)).unwrap();
    assert_eq!(rec.state_bump, state_bump);
    assert_eq!(rec.vault_bump, vault_bump);
    assert_eq!(v.controller_balance, 990);
    assert_eq!(v.holding_balance, 0);
    assert_eq!(v.record_balance, 10);
}

#[test]
fn deposit_then_withdraw_leaves_net_balance() {
    let mut v = fresh_vault();
    assert_eq!(v.initialize(&key(1)), Ok(()));
    assert_eq!(v.deposit(&key(1), 100), Ok(()));
    assert_eq!(v.withdraw(&key(1), 40), Ok(()));
    assert_eq!(v.holding_balance, 60);
    // Net -60 for the controller, ignoring the storage cost.
    assert_eq!(v.controller_balance, 1000 - 10 - 60);
    assert_eq!(v.controller_balance + v.holding_balance + v.record_balance, 1000);
}

#[test]
fn withdraw_more_than_held_is_rejected() {
    let mut v = fresh_vault();
    assert_eq!(v.initialize(&key(1)), Ok(()));
    assert_eq!(v.deposit(&key(1), 60), Ok(()));
    assert_eq!(v.withdraw(&key(1), 1000), Err(VaultError::InsufficientVaultBalance));
    assert_eq!(v.holding_balance, 60);
    assert_eq!(v.controller_balance, 930);
}

#[test]
fn deposit_zero_is_rejected() {
    let mut v = fresh_vault();
    assert_eq!(v.initialize(&key(1)), Ok(()));
    assert_eq!(v.deposit(&key(1), 0), Err(VaultError::InvalidAmount));
    assert_eq!(v.holding_balance, 0);
    assert_eq!(v.controller_balance, 990);
}

#[test]
fn withdraw_zero_is_rejected() {
    let mut v = fresh_vault();
    assert_eq!(v.initialize(&key(1)), Ok(()));
    assert_eq!(v.deposit(&key(1), 5), Ok(()));
    assert_eq!(v.withdraw(&key(1), 0), Err(VaultError::InvalidAmount));
    assert_eq!(v.holding_balance, 5);
}

#[test]
fn deposit_beyond_controller_balance_is_rejected() {
    let mut v = fresh_vault();
    assert_eq!(v.initialize(&key(1)), Ok(()));
    assert_eq!(v.deposit(&key(1), 991), Err(VaultError::InsufficientFunds));
    assert_eq!(v.holding_balance, 0);
    assert_eq!(v.controller_balance, 990);
}

#[test]
fn initialize_without_rent_is_rejected() {
    let mut v = Vault::new(key(1), key(9), 5, 10);
    assert_eq!(v.initialize(&key(1)), Err(VaultError::InsufficientFunds));
    assert!(v.record.is_none());
    assert_eq!(v.controller_balance, 5);
}

#[test]
fn initialize_twice_is_rejected() {
    let mut v = fresh_vault();
    assert_eq!(v.initialize(&key(1)), Ok(()));
    let rec = v.record.unwrap();
    assert_eq!(v.initialize(&key(1)), Err(VaultError::AlreadyInitialized));
    assert_eq!(v.record.unwrap(), rec);
    assert_eq!(v.controller_balance, 990);
    assert_eq!(v.record_balance, 10);
}

#[test]
fn operations_before_initialize_are_rejected() {
    let mut v = fresh_vault();
    assert_eq!(v.deposit(&key(1), 10), Err(VaultError::VaultNotFound));
    assert_eq!(v.withdraw(&key(1), 10), Err(VaultError::VaultNotFound));
    assert_eq!(v.close(&key(1)), Err(VaultError::VaultNotFound));
    assert_eq!(v.controller_balance, 1000);
}

#[test]
fn other_identity_is_unauthorized() {
    let mut v = fresh_vault();
    assert_eq!(v.initialize(&key(1)), Ok(()));
    assert_eq!(v.deposit(&key(1), 60), Ok(()));
    let intruder = key(2);
    // Correct amounts, wrong co-signer.
    assert_eq!(v.deposit(&intruder, 10), Err(VaultError::Unauthorized));
    assert_eq!(v.withdraw(&intruder, 10), Err(VaultError::Unauthorized));
    assert_eq!(v.close(&intruder), Err(VaultError::Unauthorized));
    assert_eq!(v.holding_balance, 60);
    assert_eq!(v.controller_balance, 930);
    assert!(v.record.is_some());
}

#[test]
fn corrupted_bump_is_always_rejected() {
    let mut v = fresh_vault();
    assert_eq!(v.initialize(&key(1)), Ok(()));
    assert_eq!(v.deposit(&key(1), 60), Ok(()));
    let rec = v.record.unwrap();
    v.record = Some(VaultState {
        state_bump: rec.state_bump.wrapping_add(1),
        vault_bump: rec.vault_bump,
    });
    assert_eq!(v.deposit(&key(1), 10), Err(VaultError::CorruptState));
    assert_eq!(v.withdraw(&key(1), 10), Err(VaultError::CorruptState));
    assert_eq!(v.close(&key(1)), Err(VaultError::CorruptState));
    assert_eq!(v.holding_balance, 60);
    assert_eq!(v.controller_balance, 930);

    v.record = Some(VaultState {
        state_bump: rec.state_bump,
        vault_bump: rec.vault_bump.wrapping_add(1),
    });
    assert_eq!(v.withdraw(&key(1), 10), Err(VaultError::CorruptState));
    assert_eq!(v.holding_balance, 60);
}

#[test]
fn close_refunds_and_allows_recreation() {
    let mut v = fresh_vault();
    assert_eq!(v.initialize(&key(1)), Ok(()));
    assert_eq!(v.deposit(&key(1), 75), Ok(()));
    let rec = v.record.unwrap();
    assert_eq!(v.close(&key(1)), Ok(()));
    // The swept balance plus the storage refund return to the controller.
    assert_eq!(v.controller_balance, 1000);
    assert_eq!(v.holding_balance, 0);
    assert_eq!(v.record_balance, 0);
    assert!(v.record.is_none());
    // The same controller can recreate the vault at the same addresses.
    assert_eq!(v.initialize(&key(1)), Ok(()));
    assert_eq!(v.controller_balance, 990);
    assert_eq!(v.holding_balance, 0);
    assert_eq!(v.record.unwrap(), rec);
}

#[test]
fn payload_round_trips() {
    let rec = VaultState { state_bump: 254, vault_bump: 251 };
    let bytes = rec.to_bytes();
    assert_eq!(bytes, vec![254, 251]);
    assert_eq!(VaultState::from_bytes(&bytes), Some(rec));
    assert_eq!(VaultState::from_bytes(&vec![1]), None);
    assert_eq!(VaultState::from_bytes(&vec![1, 2, 3]), None);
}
