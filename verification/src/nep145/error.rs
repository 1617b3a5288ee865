//! Error types for the storage management standard.

use vstd::prelude::*;

use crate::account::AccountId;

verus! {

/// Occurs when an account has insufficient storage balance to perform an operation.
#[derive(Debug)]
pub struct InsufficientBalanceError {
    /// The account that attempted to perform the operation.
    pub account_id: AccountId,

    /// The amount of storage balance available to the account.
    pub available: u128,

    /// The amount of storage balance the account attempted to use.
    pub attempted_to_use: u128,
}

/// Occurs when an account is not registered.
#[derive(Debug)]
pub struct AccountNotRegisteredError(pub AccountId);

/// Occurs when an account attempts to unlock more tokens than it has deposited.
#[derive(Debug)]
pub struct ExcessiveUnlockError(pub AccountId);

/// Occurs when an account attempts to withdraw more tokens than the contract
/// allows without unregistering.
#[derive(Debug)]
pub struct MinimumBalanceUnderrunError {
    /// The account that attempted to perform the operation.
    pub account_id: AccountId,

    /// The minimum balance required to remain registered.
    pub minimum_balance: u128,
}

/// Occurs when an account attempts to deposit more tokens than the contract
/// allows.
#[derive(Debug)]
pub struct MaximumBalanceOverrunError {
    /// The account that attempted to perform the operation.
    pub account_id: AccountId,

    /// The maximum balance allowed.
    pub maximum_balance: u128,
}

/// Occurs when an account attempts to unregister with a locked balance.
#[derive(Debug)]
pub struct UnregisterWithLockedBalanceError {
    /// The account that attempted to perform the operation.
    pub account_id: AccountId,

    /// The amount of storage balance locked by the account.
    pub locked_balance: u128,
}

/// Errors that can occur when locking storage balance.
#[derive(Debug)]
pub enum StorageLockError {
    /// The account is not registered.
    AccountNotRegistered(AccountNotRegisteredError),
    /// The account has insufficient balance.
    InsufficientBalance(InsufficientBalanceError),
}

/// Errors that can occur when unlocking storage balance.
#[derive(Debug)]
pub enum StorageUnlockError {
    /// The account is not registered.
    AccountNotRegistered(AccountNotRegisteredError),
    /// The account tried to unlock more tokens than it has deposited.
    ExcessiveUnlock(ExcessiveUnlockError),
}

/// Errors that can occur when depositing storage balance.
#[derive(Debug)]
pub enum StorageDepositError {
    /// The deposit does not meet the minimum balance requirement.
    MinimumBalanceUnderrun(MinimumBalanceUnderrunError),
    /// The deposit exceeds the maximum balance limit.
    MaximumBalanceOverrun(MaximumBalanceOverrunError),
}

/// Errors that can occur when withdrawing storage balance.
#[derive(Debug)]
pub enum StorageWithdrawError {
    /// The account is not registered.
    AccountNotRegistered(AccountNotRegisteredError),
    /// The withdrawal does not keep the minimum balance requirement.
    MinimumBalanceUnderrun(MinimumBalanceUnderrunError),
    /// The withdrawal exceeds the available storage balance.
    InsufficientBalance(InsufficientBalanceError),
}

/// Errors that can occur when unregistering storage balance.
#[derive(Debug)]
pub enum StorageUnregisterError {
    /// The account is not registered.
    AccountNotRegistered(AccountNotRegisteredError),
    /// The account has a locked balance (is still using storage somewhere),
    /// and cannot be unregistered.
    UnregisterWithLockedBalance(UnregisterWithLockedBalanceError),
}

/// Errors that can occur when force-unregistering storage balance.
#[derive(Debug)]
pub enum StorageForceUnregisterError {
    /// The account is not registered.
    AccountNotRegistered(AccountNotRegisteredError),
}

/// Errors that can occur when performing storage accounting.
#[derive(Debug)]
pub enum StorageAccountingError {
    /// Storage lock error.
    StorageLock(StorageLockError),

    /// Storage unlock error.
    StorageUnlock(StorageUnlockError),
}

} // verus!
