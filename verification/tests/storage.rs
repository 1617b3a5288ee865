use contract_tools::account::AccountId;
use contract_tools::nep145::error::{
    StorageAccountingError, StorageDepositError, StorageLockError, StorageUnlockError,
    StorageUnregisterError, StorageWithdrawError,
};
use contract_tools::nep145::{Nep145Controller, StorageBalance, StorageBalanceBounds};

fn alice() -> AccountId {
    AccountId::new("alice.near".to_string())
}

fn bob() -> AccountId {
    AccountId::new("bob.near".to_string())
}

const ONE_NEAR: u128 = 1_000_000_000_000_000_000_000_000;
const BYTE_COST: u128 = 10_000_000_000_000_000_000;

#[test]
fn fresh_controller_has_default_bounds_and_no_accounts() {
    let contract = Nep145Controller::new();
    let bounds = contract.get_storage_balance_bounds();
    assert_eq!(bounds.min, 0);
    assert_eq!(bounds.max, None);
    assert!(contract.get_storage_balance(&alice()).is_err());
}

#[test]
fn deposit_creates_record_and_accumulates() {
    let mut contract = Nep145Controller::new();
    let first = contract.deposit_to_storage_account(&alice(), 700).unwrap();
    assert_eq!(first, StorageBalance { total: 700, available: 700 });
    let second = contract.deposit_to_storage_account(&alice(), 300).unwrap();
    assert_eq!(second, StorageBalance { total: 1000, available: 1000 });
    let read = contract.get_storage_balance(&alice()).unwrap();
    assert_eq!(read, second);
}

#[test]
fn scenario_deposit_lock_unlock() {
    let mut contract = Nep145Controller::new();

    let after_deposit = contract.deposit_to_storage_account(&alice(), 1000).unwrap();
    assert_eq!(after_deposit, StorageBalance { total: 1000, available: 1000 });

    let after_lock = contract.lock_storage(&alice(), 300).unwrap();
    assert_eq!(after_lock, StorageBalance { total: 1000, available: 700 });

    let after_unlock = contract.unlock_storage(&alice(), 300).unwrap();
    assert_eq!(after_unlock, StorageBalance { total: 1000, available: 1000 });

    let excessive = contract.unlock_storage(&alice(), 1);
    assert!(matches!(
        excessive,
        Err(StorageUnlockError::ExcessiveUnlock(ref e)) if e.0.as_str() == "alice.near"
    ));
    // the failed unlock changed nothing
    let read = contract.get_storage_balance(&alice()).unwrap();
    assert_eq!(read, StorageBalance { total: 1000, available: 1000 });
}

#[test]
fn scenario_bounds_enforcement() {
    let mut contract = Nep145Controller::new();
    contract.set_storage_balance_bounds(&StorageBalanceBounds { min: 100, max: Some(500) });

    let underrun = contract.deposit_to_storage_account(&alice(), 50);
    assert!(matches!(
        underrun,
        Err(StorageDepositError::MinimumBalanceUnderrun(ref e))
            if e.account_id.as_str() == "alice.near" && e.minimum_balance == 100
    ));

    let ok = contract.deposit_to_storage_account(&alice(), 100).unwrap();
    assert_eq!(ok, StorageBalance { total: 100, available: 100 });

    let overrun = contract.deposit_to_storage_account(&alice(), 450);
    assert!(matches!(
        overrun,
        Err(StorageDepositError::MaximumBalanceOverrun(ref e))
            if e.account_id.as_str() == "alice.near" && e.maximum_balance == 500
    ));

    // a deposit up to the maximum itself is still accepted
    let to_max = contract.deposit_to_storage_account(&alice(), 400).unwrap();
    assert_eq!(to_max, StorageBalance { total: 500, available: 500 });
}

#[test]
fn scenario_unregister_with_locked_balance() {
    let mut contract = Nep145Controller::new();
    contract.deposit_to_storage_account(&alice(), 1000).unwrap();
    contract.lock_storage(&alice(), 10).unwrap();

    let refused = contract.unregister_storage_account(&alice());
    assert!(matches!(
        refused,
        Err(StorageUnregisterError::UnregisterWithLockedBalance(ref e))
            if e.account_id.as_str() == "alice.near" && e.locked_balance == 10
    ));

    // the record is still there
    let read = contract.get_storage_balance(&alice()).unwrap();
    assert_eq!(read, StorageBalance { total: 1000, available: 990 });

    // forced unregistration runs the hook around the removal and refunds
    // the available portion only
    let refund = contract
        .force_unregister_storage_account::<()>(&alice())
        .unwrap();
    assert_eq!(refund, 990);
    assert!(contract.get_storage_balance(&alice()).is_err());
}

#[test]
fn unregister_refunds_whole_total() {
    let mut contract = Nep145Controller::new();
    contract.deposit_to_storage_account(&alice(), 1000).unwrap();
    contract.lock_storage(&alice(), 10).unwrap();
    contract.unlock_storage(&alice(), 10).unwrap();
    let refund = contract.unregister_storage_account(&alice()).unwrap();
    assert_eq!(refund, 1000);
    assert!(contract.get_storage_balance(&alice()).is_err());
}

#[test]
fn zero_lock_and_unlock_are_noops() {
    let mut contract = Nep145Controller::new();
    contract.deposit_to_storage_account(&alice(), 555).unwrap();
    contract.lock_storage(&alice(), 100).unwrap();

    let locked = contract.lock_storage(&alice(), 0).unwrap();
    assert_eq!(locked, StorageBalance { total: 555, available: 455 });
    let unlocked = contract.unlock_storage(&alice(), 0).unwrap();
    assert_eq!(unlocked, StorageBalance { total: 555, available: 455 });
}

#[test]
fn deposit_withdraw_round_trip() {
    let mut contract = Nep145Controller::new();
    contract.set_storage_balance_bounds(&StorageBalanceBounds { min: 10, max: None });
    contract.deposit_to_storage_account(&alice(), 40).unwrap();
    contract.lock_storage(&alice(), 15).unwrap();
    let before = contract.get_storage_balance(&alice()).unwrap();

    contract.deposit_to_storage_account(&alice(), 123).unwrap();
    let after = contract.withdraw_from_storage_account(&alice(), 123).unwrap();
    assert_eq!(after, before);
}

#[test]
fn withdraw_errors() {
    let mut contract = Nep145Controller::new();

    let unregistered = contract.withdraw_from_storage_account(&alice(), 1);
    assert!(matches!(
        unregistered,
        Err(StorageWithdrawError::AccountNotRegistered(ref e)) if e.0.as_str() == "alice.near"
    ));

    contract.set_storage_balance_bounds(&StorageBalanceBounds { min: 100, max: None });
    contract.deposit_to_storage_account(&alice(), 150).unwrap();
    contract.lock_storage(&alice(), 30).unwrap();

    // more than the available portion
    let insufficient = contract.withdraw_from_storage_account(&alice(), 121);
    assert!(matches!(
        insufficient,
        Err(StorageWithdrawError::InsufficientBalance(ref e))
            if e.available == 120 && e.attempted_to_use == 121
    ));

    // covered by the available portion, but the total would fall below min
    let underrun = contract.withdraw_from_storage_account(&alice(), 51);
    assert!(matches!(
        underrun,
        Err(StorageWithdrawError::MinimumBalanceUnderrun(ref e)) if e.minimum_balance == 100
    ));

    let ok = contract.withdraw_from_storage_account(&alice(), 50).unwrap();
    assert_eq!(ok, StorageBalance { total: 100, available: 70 });
}

#[test]
fn lock_errors() {
    let mut contract = Nep145Controller::new();

    let unregistered = contract.lock_storage(&alice(), 1);
    assert!(matches!(
        unregistered,
        Err(StorageLockError::AccountNotRegistered(ref e)) if e.0.as_str() == "alice.near"
    ));

    contract.deposit_to_storage_account(&alice(), 100).unwrap();
    let insufficient = contract.lock_storage(&alice(), 101);
    assert!(matches!(
        insufficient,
        Err(StorageLockError::InsufficientBalance(ref e))
            if e.account_id.as_str() == "alice.near"
                && e.available == 100
                && e.attempted_to_use == 101
    ));
}

#[test]
fn unlock_unregistered_account_fails() {
    let mut contract = Nep145Controller::new();
    let unregistered = contract.unlock_storage(&alice(), 1);
    assert!(matches!(
        unregistered,
        Err(StorageUnlockError::AccountNotRegistered(ref e)) if e.0.as_str() == "alice.near"
    ));
}

#[test]
fn accounts_are_independent() {
    let mut contract = Nep145Controller::new();
    contract.deposit_to_storage_account(&alice(), 100).unwrap();
    contract.deposit_to_storage_account(&bob(), 200).unwrap();
    contract.lock_storage(&bob(), 150).unwrap();

    assert_eq!(
        contract.get_storage_balance(&alice()).unwrap(),
        StorageBalance { total: 100, available: 100 }
    );
    assert_eq!(
        contract.get_storage_balance(&bob()).unwrap(),
        StorageBalance { total: 200, available: 50 }
    );

    contract.unregister_storage_account(&alice()).unwrap();
    assert!(contract.get_storage_balance(&alice()).is_err());
    assert_eq!(
        contract.get_storage_balance(&bob()).unwrap(),
        StorageBalance { total: 200, available: 50 }
    );
}

#[test]
fn storage_accounting_locks_and_unlocks() {
    let mut contract = Nep145Controller::new();
    contract.deposit_to_storage_account(&alice(), 10_000).unwrap();

    // unchanged usage is a no-op, even for an unregistered account
    contract.storage_accounting(&bob(), 77, 77, 3).unwrap();

    // grown usage locks the fee
    contract.storage_accounting(&alice(), 100, 600, 3).unwrap();
    assert_eq!(
        contract.get_storage_balance(&alice()).unwrap(),
        StorageBalance { total: 10_000, available: 8_500 }
    );

    // shrunk usage unlocks the credit
    contract.storage_accounting(&alice(), 600, 400, 3).unwrap();
    assert_eq!(
        contract.get_storage_balance(&alice()).unwrap(),
        StorageBalance { total: 10_000, available: 9_100 }
    );

    // a fee beyond the available balance is refused
    let over = contract.storage_accounting(&alice(), 0, 4_000, 3);
    assert!(matches!(
        over,
        Err(StorageAccountingError::StorageLock(StorageLockError::InsufficientBalance(ref e)))
            if e.attempted_to_use == 12_000 && e.available == 9_100
    ));

    // a credit that would push available above total is refused
    let excessive = contract.storage_accounting(&alice(), 4_000, 0, 3);
    assert!(matches!(
        excessive,
        Err(StorageAccountingError::StorageUnlock(StorageUnlockError::ExcessiveUnlock(_)))
    ));
}

#[test]
fn storage_sanity_check() {
    let mut contract = Nep145Controller::new();

    contract.deposit_to_storage_account(&alice(), ONE_NEAR).unwrap();
    assert_eq!(
        contract.get_storage_balance(&alice()).unwrap(),
        StorageBalance { total: ONE_NEAR, available: ONE_NEAR }
    );

    // the first operation consumes 8 bytes for each of 1000 entries
    contract
        .storage_accounting(&alice(), 0, 8 * 1000, BYTE_COST)
        .unwrap();
    let first = contract.get_storage_balance(&alice()).unwrap();
    assert_eq!(first.total, ONE_NEAR);
    assert_eq!(first.available, ONE_NEAR - 8 * 1000 * BYTE_COST);

    // the second operation grows usage by another 1000 entries
    contract
        .storage_accounting(&alice(), 8 * 1000, 8 * 2000, BYTE_COST)
        .unwrap();
    let second = contract.get_storage_balance(&alice()).unwrap();
    assert_eq!(second.total, ONE_NEAR);
    assert_eq!(second.available, first.available - 8 * 1000 * BYTE_COST);

    let available = second.available;
    let half_available = available / 2;

    contract
        .withdraw_from_storage_account(&alice(), half_available)
        .unwrap();
    let third = contract.get_storage_balance(&alice()).unwrap();
    assert_eq!(third.total, ONE_NEAR - half_available);
    assert_eq!(third.available, available - half_available);

    contract
        .withdraw_from_storage_account(&alice(), third.available)
        .unwrap();
    let fourth = contract.get_storage_balance(&alice()).unwrap();
    assert_eq!(fourth.total, ONE_NEAR - available);
    assert_eq!(fourth.available, 0);
}

#[test]
fn storage_over_lock_fail() {
    let mut contract = Nep145Controller::new();
    contract.deposit_to_storage_account(&alice(), ONE_NEAR).unwrap();

    // one byte more than the deposit can cover
    let bytes = (ONE_NEAR / BYTE_COST) as u64 + 1;
    let result = contract.storage_accounting(&alice(), 0, bytes, BYTE_COST);
    assert!(matches!(
        result,
        Err(StorageAccountingError::StorageLock(StorageLockError::InsufficientBalance(_)))
    ));
}

#[test]
fn storage_over_withdraw_fail() {
    let mut contract = Nep145Controller::new();
    contract.deposit_to_storage_account(&alice(), ONE_NEAR).unwrap();
    let balance = contract.get_storage_balance(&alice()).unwrap();

    let result = contract.withdraw_from_storage_account(&alice(), balance.available + 1);
    assert!(matches!(
        result,
        Err(StorageWithdrawError::InsufficientBalance(_))
    ));
}

#[test]
fn bounds_bound_clamps() {
    let bounds = StorageBalanceBounds { min: 100, max: Some(500) };
    assert_eq!(bounds.bound(700, true), 100);
    assert_eq!(bounds.bound(700, false), 500);
    assert_eq!(bounds.bound(300, false), 300);

    let unbounded = StorageBalanceBounds { min: 100, max: None };
    assert_eq!(unbounded.bound(700, false), 700);
}

#[test]
fn default_records_are_empty() {
    let balance = StorageBalance::default();
    assert_eq!(balance, StorageBalance { total: 0, available: 0 });
    let bounds = StorageBalanceBounds::default();
    assert_eq!(bounds.min, 0);
    assert_eq!(bounds.max, None);
}
