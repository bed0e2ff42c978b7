use token_governance::asset_vault::storage::{
    add_admin, get_admins, get_balance, get_locks, is_admin, update_balance, VaultStorage,
};
use token_governance::asset_vault::transactions::{get_transaction_history, log_transaction};
use token_governance::asset_vault::types::{TransactionType, VaultError};
use token_governance::asset_vault::SecureAssetVault;
use token_governance::principal::Principal;

fn vault() -> (SecureAssetVault, Principal) {
    let admin = Principal::new("admin");
    let mut vault = SecureAssetVault::new();
    assert_eq!(vault.initialize(admin.clone()), Ok(()));
    (vault, admin)
}

#[test]
fn test_initialization() {
    let admin = Principal::new("admin");
    let mut vault = SecureAssetVault::new();
    let result = vault.initialize(admin.clone());
    assert!(result.is_ok(), "Contract initialized successfully");
    assert!(is_admin(&vault.storage, &admin));
    let admins = get_admins(&vault.storage);
    assert_eq!(admins.len(), 1);
    assert_eq!(*admins.get(0), admin);
}

#[test]
fn test_deposit_and_withdraw() {
    let (mut vault, _admin) = vault();
    let user = Principal::new("user");

    assert_eq!(vault.deposit(0, &user, 1000), Ok(()));
    assert_eq!(vault.get_balance(&user), 1000);

    assert_eq!(vault.withdraw(0, &user, &user, 500), Ok(()));
    assert_eq!(vault.get_balance(&user), 500);
}

#[test]
fn test_transaction_logging() {
    let (mut vault, _admin) = vault();
    let user = Principal::new("user");

    assert_eq!(vault.deposit(0, &user, 1000), Ok(()));
    assert_eq!(vault.withdraw(0, &user, &user, 500), Ok(()));
    let current_time = 0;
    assert_eq!(
        vault.lock_assets(
            current_time,
            &user,
            300,
            current_time + 3600,
            String::from("Temporary lock"),
        ),
        Ok(())
    );

    let history = get_transaction_history(&vault.storage);
    assert_eq!(history.len(), 3, "Transactions logged successfully");
    assert_eq!(history[0].transaction_type, TransactionType::Deposit);
    assert_eq!(history[0].amount, 1000);
    assert_eq!(history[1].transaction_type, TransactionType::Withdrawal);
    assert_eq!(history[1].amount, 500);
    assert_eq!(history[2].transaction_type, TransactionType::Lock);
    assert_eq!(history[2].amount, 300);
}

#[test]
fn test_add_admin() {
    let (mut vault, initial_admin) = vault();
    let new_admin = Principal::new("new admin");

    assert_eq!(vault.add_admin(&initial_admin, &new_admin), Ok(()));
    assert_eq!(vault.add_admin(&new_admin, &Principal::new("another")), Ok(()));
    assert_eq!(get_admins(&vault.storage).len(), 3);
}

#[test]
fn test_multiple_deposits() {
    let (mut vault, _admin) = vault();
    let user = Principal::new("user");

    assert_eq!(vault.deposit(0, &user, 1000), Ok(()));
    assert_eq!(vault.deposit(0, &user, 500), Ok(()));

    assert_eq!(vault.get_balance(&user), 1500);
}

#[test]
fn test_multiple_withdrawals() {
    let (mut vault, _admin) = vault();
    let user = Principal::new("user");

    assert_eq!(vault.deposit(0, &user, 1000), Ok(()));
    assert_eq!(vault.withdraw(0, &user, &user, 300), Ok(()));
    assert_eq!(vault.withdraw(0, &user, &user, 200), Ok(()));

    assert_eq!(vault.get_balance(&user), 500);
}

#[test]
fn vault_second_initialization_is_unauthorized() {
    let (mut vault, admin) = vault();
    let other = Principal::new("other");
    assert_eq!(vault.initialize(other.clone()), Err(VaultError::Unauthorized));
    assert!(is_admin(&vault.storage, &admin));
    assert!(!is_admin(&vault.storage, &other));
}

#[test]
fn vault_error_codes() {
    assert_eq!(VaultError::InsufficientFunds.code(), 1);
    assert_eq!(VaultError::Unauthorized.code(), 2);
    assert_eq!(VaultError::InvalidAmount.code(), 3);
    assert_eq!(VaultError::AssetLocked.code(), 4);
}

#[test]
fn vault_errors_become_contract_errors_of_the_ledger() {
    let cases = [
        (VaultError::InsufficientFunds, 1),
        (VaultError::Unauthorized, 2),
        (VaultError::InvalidAmount, 3),
        (VaultError::AssetLocked, 4),
    ];
    for (error, code) in cases {
        let converted: soroban_sdk::Error = error.into();
        assert_eq!(converted, soroban_sdk::Error::from_contract_error(code));
        assert_eq!(converted.get_code(), code);
        assert!(converted.is_type(soroban_sdk::xdr::ScErrorType::Contract));
        assert_eq!(error.to_ledger_error(), converted);
    }
}

#[test]
fn vault_amounts_must_be_positive_and_covered() {
    let (mut vault, _admin) = vault();
    let user = Principal::new("user");
    assert_eq!(vault.deposit(0, &user, 0), Err(VaultError::InvalidAmount));
    assert_eq!(vault.deposit(0, &user, -5), Err(VaultError::InvalidAmount));
    assert_eq!(vault.withdraw(0, &user, &user, 0), Err(VaultError::InvalidAmount));
    assert_eq!(vault.withdraw(0, &user, &user, 1), Err(VaultError::InsufficientFunds));
    assert_eq!(vault.deposit(0, &user, 10), Ok(()));
    assert_eq!(vault.withdraw(0, &user, &user, 11), Err(VaultError::InsufficientFunds));
    assert_eq!(
        vault.lock_assets(0, &user, 0, 5, String::from("l")),
        Err(VaultError::InvalidAmount)
    );
    assert_eq!(
        vault.lock_assets(0, &user, 11, 5, String::from("l")),
        Err(VaultError::InvalidAmount)
    );
    assert_eq!(vault.get_balance(&user), 10);
    assert_eq!(get_transaction_history(&vault.storage).len(), 1);
    assert_eq!(vault.withdraw(0, &user, &user, 10), Ok(()));
    assert_eq!(vault.get_balance(&user), 0);
}

#[test]
fn vault_locks_hold_back_withdrawals_until_release() {
    let (mut vault, _admin) = vault();
    let user = Principal::new("user");
    let friend = Principal::new("friend");
    assert_eq!(vault.deposit(10, &user, 1000), Ok(()));
    assert_eq!(vault.lock_assets(10, &user, 300, 100, String::from("first")), Ok(()));
    assert_eq!(vault.lock_assets(10, &user, 200, 200, String::from("second")), Ok(()));
    let locks = get_locks(&vault.storage, &user);
    assert_eq!(locks.len(), 2);
    assert_eq!(locks.get(1).amount, 200);
    assert_eq!(locks.get(1).release_time, 200);
    assert_eq!(locks.get(1).description, String::from("second"));
    // Locking does not touch the balance.
    assert_eq!(vault.get_balance(&user), 1000);
    // 500 are locked: 500 may go, 501 may not.
    assert_eq!(vault.withdraw(50, &user, &friend, 501), Err(VaultError::AssetLocked));
    assert_eq!(vault.withdraw(50, &user, &friend, 500), Ok(()));
    assert_eq!(vault.get_balance(&user), 500);
    // The destination is logged, not credited.
    assert_eq!(vault.get_balance(&friend), 0);
    assert_eq!(vault.withdraw(99, &user, &friend, 1), Err(VaultError::AssetLocked));
    // At its release time a lock no longer holds.
    assert_eq!(vault.withdraw(100, &user, &friend, 301), Err(VaultError::AssetLocked));
    assert_eq!(vault.withdraw(100, &user, &friend, 300), Ok(()));
    assert_eq!(vault.withdraw(200, &user, &friend, 200), Ok(()));
    assert_eq!(vault.get_balance(&user), 0);
    let history = get_transaction_history(&vault.storage);
    assert_eq!(history.len(), 6);
    assert_eq!(history[3].from, user);
    assert_eq!(history[3].to, friend);
    assert_eq!(history[3].amount, 500);
    assert_eq!(history[3].timestamp, 50);
    assert_eq!(history[3].transaction_type, TransactionType::Withdrawal);
}

#[test]
fn vault_many_large_locks_do_not_overflow() {
    let (mut vault, _admin) = vault();
    let user = Principal::new("user");
    assert_eq!(vault.deposit(0, &user, i128::MAX), Ok(()));
    for _ in 0..3 {
        assert_eq!(
            vault.lock_assets(0, &user, i128::MAX, 10, String::from("all")),
            Ok(())
        );
    }
    assert_eq!(vault.withdraw(5, &user, &user, 1), Err(VaultError::AssetLocked));
    assert_eq!(vault.withdraw(10, &user, &user, i128::MAX), Ok(()));
}

#[test]
fn vault_only_admins_add_admins_and_nobody_twice() {
    let (mut vault, admin) = vault();
    let stranger = Principal::new("stranger");
    let second = Principal::new("second");
    assert_eq!(vault.add_admin(&stranger, &second), Err(VaultError::Unauthorized));
    assert_eq!(vault.add_admin(&admin, &second), Ok(()));
    assert_eq!(vault.add_admin(&second, &admin), Ok(()));
    assert_eq!(vault.add_admin(&admin, &second), Ok(()));
    let admins = get_admins(&vault.storage);
    assert_eq!(admins.len(), 2);
    assert_eq!(*admins.get(0), admin);
    assert_eq!(*admins.get(1), second);
    let mut empty = SecureAssetVault::new();
    assert_eq!(empty.add_admin(&admin, &second), Err(VaultError::Unauthorized));
}

#[test]
fn vault_storage_functions() {
    let mut storage = VaultStorage::new();
    let a = Principal::new("a");
    let b = Principal::new("b");
    assert!(!is_admin(&storage, &a));
    assert_eq!(add_admin(&mut storage, &a, &b), Err(VaultError::Unauthorized));
    assert_eq!(get_admins(&storage).len(), 0);
    assert_eq!(get_balance(&storage, &a), 0);
    update_balance(&mut storage, &a, -7);
    update_balance(&mut storage, &b, 8);
    assert_eq!(get_balance(&storage, &a), -7);
    assert_eq!(get_balance(&storage, &b), 8);
    log_transaction(&mut storage, 3, &a, &b, 9, TransactionType::Transfer);
    log_transaction(&mut storage, 4, &b, &a, 1, TransactionType::Unlock);
    let history = get_transaction_history(&storage);
    assert_eq!(history.len(), 2);
    assert_eq!(history[0].from, a);
    assert_eq!(history[0].to, b);
    assert_eq!(history[0].timestamp, 3);
    assert_eq!(history[0].transaction_type, TransactionType::Transfer);
    assert_eq!(history[1].transaction_type, TransactionType::Unlock);
}
