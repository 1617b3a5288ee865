//! Storage management: per-account storage balance accounting.
//!
//! A [`Nep145Controller`] keeps one balance record per registered account and
//! the contract-wide balance bounds, and offers the accounting operations
//! (deposit, withdraw, lock, unlock, register, unregister) with overflow-checked
//! arithmetic and bound enforcement.

use vstd::prelude::*;

use crate::account::AccountId;
use crate::hook::{Hook, Inner};

pub mod error;

use error::{
    AccountNotRegisteredError, ExcessiveUnlockError, InsufficientBalanceError,
    MaximumBalanceOverrunError, MinimumBalanceUnderrunError, StorageAccountingError,
    StorageDepositError, StorageForceUnregisterError, StorageLockError, StorageUnlockError,
    StorageUnregisterError, StorageWithdrawError, UnregisterWithLockedBalanceError,
};

verus! {

/// An account's storage balance, in indivisible units of the storage currency.
#[derive(Clone, Copy, Debug, PartialEq, Eq, Structural)]
pub struct StorageBalance {
    /// The total amount of storage balance.
    pub total: u128,

    /// The amount of storage balance that is available for use.
    pub available: u128,
}

impl Default for StorageBalance {
    /// A fresh record holds nothing.
    fn default() -> (r: Self)
        ensures
            r == (StorageBalance { total: 0, available: 0 }),
    {
        Self { total: 0, available: 0 }
    }
}

/// Storage balance bounds.
#[derive(Clone, Copy, Debug)]
pub struct StorageBalanceBounds {
    /// The minimum total balance an account must keep to stay registered.
    pub min: u128,

    /// The maximum total balance an account may hold; `None` means unbounded.
    pub max: Option<u128>,
}

impl StorageBalanceBounds {
    /// Restricts a balance to be within the bounds.
    pub fn bound(&self, balance: u128, registration_only: bool) -> (r: u128)
        ensures
            r == (if registration_only {
                self.min
            } else {
                match self.max {
                    Some(max) => if balance < max {
                        balance
                    } else {
                        max
                    },
                    None => balance,
                }
            }),
    {
        if registration_only {
            self.min
        } else if let Some(max) = self.max {
            if balance < max {
                balance
            } else {
                max
            }
        } else {
            balance
        }
    }
}

impl Default for StorageBalanceBounds {
    /// By default a contract requires no minimum and sets no maximum.
    fn default() -> (r: Self)
        ensures
            r.min == 0,
            r.max is None,
    {
        Self { min: 0, max: None }
    }
}

/// Describes a force unregister action: the account being removed together
/// with its balance at the moment of removal.
#[derive(Debug)]
pub struct Nep145ForceUnregister {
    /// The account to be unregistered.
    pub account_id: AccountId,
    /// The account's balance at the time of unregistration.
    pub balance: StorageBalance,
}

impl View for Nep145ForceUnregister {
    type V = (Seq<char>, StorageBalance);

    open spec fn view(&self) -> (Seq<char>, StorageBalance) {
        (self.account_id@, self.balance)
    }
}

/// The abstract state of a [`Nep145Controller`]: the registered accounts'
/// balances and the contract-wide bounds.
#[verifier::ext_equal]
pub struct StorageLedger {
    /// Each registered account's balance, keyed by the account identifier.
    pub balances: Map<Seq<char>, StorageBalance>,
    /// The contract-wide balance bounds.
    pub bounds: StorageBalanceBounds,
}

impl StorageLedger {
    /// Every registered account's available balance is within its total.
    pub open spec fn balances_consistent(self) -> bool {
        forall|id: Seq<char>|
            self.balances.contains_key(id) ==> #[trigger] self.balances[id].available
                <= self.balances[id].total
    }

    /// The balance the ledger holds for `id`, or a fresh empty record.
    pub open spec fn balance_or_default(self, id: Seq<char>) -> StorageBalance {
        if self.balances.contains_key(id) {
            self.balances[id]
        } else {
            StorageBalance { total: 0, available: 0 }
        }
    }
}

/// The ledger after an account's record is dropped; bounds are untouched.
pub open spec fn ledger_remove(l: StorageLedger, id: Seq<char>) -> StorageLedger {
    StorageLedger { balances: l.balances.remove(id), bounds: l.bounds }
}

/// Whether `amount` can be locked: it must fit in the available portion.
pub open spec fn can_lock(b: StorageBalance, amount: u128) -> bool {
    amount <= b.available
}

/// The balance after locking `amount`: available shrinks, total is untouched.
pub open spec fn spec_lock(b: StorageBalance, amount: u128) -> StorageBalance {
    StorageBalance { total: b.total, available: (b.available - amount) as u128 }
}

/// Whether `amount` can be unlocked: available may never exceed total.
pub open spec fn can_unlock(b: StorageBalance, amount: u128) -> bool {
    b.available + amount <= b.total
}

/// The balance after unlocking `amount`: available grows, total is untouched.
pub open spec fn spec_unlock(b: StorageBalance, amount: u128) -> StorageBalance {
    StorageBalance { total: b.total, available: (b.available + amount) as u128 }
}

/// Whether a deposit of `amount` keeps the new total within the bounds.
pub open spec fn deposit_in_bounds(
    bounds: StorageBalanceBounds,
    b: StorageBalance,
    amount: u128,
) -> bool {
    &&& b.total + amount >= bounds.min
    &&& (bounds.max matches Some(max) ==> b.total + amount <= max)
}

/// The balance after depositing `amount`: total and available both grow.
pub open spec fn spec_deposit(b: StorageBalance, amount: u128) -> StorageBalance {
    StorageBalance {
        total: (b.total + amount) as u128,
        available: (b.available + amount) as u128,
    }
}

/// The balance after withdrawing `amount`: total and available both shrink.
pub open spec fn spec_withdraw(b: StorageBalance, amount: u128) -> StorageBalance {
    StorageBalance {
        total: (b.total - amount) as u128,
        available: (b.available - amount) as u128,
    }
}

/// Locking or unlocking a zero amount is always permitted for a consistent
/// balance and leaves it unchanged.
pub proof fn lemma_zero_lock_unlock_noop(b: StorageBalance)
    requires
        b.available <= b.total,
    ensures
        can_lock(b, 0),
        can_unlock(b, 0),
        spec_lock(b, 0) == b,
        spec_unlock(b, 0) == b,
{
}

/// Depositing an amount and then withdrawing it again is always covered and,
/// when the starting total met the contract's minimum, keeps meeting it; the
/// balance returns to where it started.
pub proof fn lemma_deposit_withdraw_round_trip(
    bounds: StorageBalanceBounds,
    b: StorageBalance,
    x: u128,
)
    requires
        b.available <= b.total,
        b.total + x <= u128::MAX,
        b.total >= bounds.min,
    ensures
        can_lock(spec_deposit(b, x), x),
        spec_deposit(b, x).total - x >= bounds.min,
        spec_withdraw(spec_deposit(b, x), x) == b,
{
}

spec fn has_key(s: Seq<(AccountId, StorageBalance)>, id: Seq<char>) -> bool {
    exists|i: int| 0 <= i < s.len() && s[i].0@ == id
}

spec fn key_index(s: Seq<(AccountId, StorageBalance)>, id: Seq<char>) -> int {
    choose|i: int| 0 <= i < s.len() && s[i].0@ == id
}

spec fn entries_wf(s: Seq<(AccountId, StorageBalance)>) -> bool {
    &&& forall|i: int, j: int|
        0 <= i < j < s.len() ==> #[trigger] s[i].0@ != #[trigger] s[j].0@
    &&& forall|i: int| 0 <= i < s.len() ==> (#[trigger] s[i].1).available <= s[i].1.total
}

spec fn as_map(s: Seq<(AccountId, StorageBalance)>) -> Map<Seq<char>, StorageBalance> {
    Map::new(|id: Seq<char>| has_key(s, id), |id: Seq<char>| s[key_index(s, id)].1)
}

proof fn lemma_key_index(s: Seq<(AccountId, StorageBalance)>, id: Seq<char>, i: int)
    requires
        entries_wf(s),
        0 <= i < s.len(),
        s[i].0@ == id,
    ensures
        has_key(s, id),
        key_index(s, id) == i,
        as_map(s).contains_key(id),
        as_map(s)[id] == s[i].1,
{
    assert(has_key(s, id));
    let j = key_index(s, id);
    assert(0 <= j < s.len() && s[j].0@ == id);
    if i != j {
        if i < j {
            assert(s[i].0@ != s[j].0@);
        } else {
            assert(s[j].0@ != s[i].0@);
        }
    }
}

proof fn lemma_map_update(
    s: Seq<(AccountId, StorageBalance)>,
    i: int,
    k: AccountId,
    b: StorageBalance,
)
    requires
        entries_wf(s),
        0 <= i < s.len(),
        k@ == s[i].0@,
        b.available <= b.total,
    ensures
        entries_wf(s.update(i, (k, b))),
        as_map(s.update(i, (k, b))) == as_map(s).insert(k@, b),
{
    let s2 = s.update(i, (k, b));
    assert forall|id: Seq<char>| has_key(s2, id) == has_key(s, id) by {
        if has_key(s2, id) {
            let j = choose|j: int| 0 <= j < s2.len() && s2[j].0@ == id;
            assert(s[j].0@ == id);
        }
        if has_key(s, id) {
            let j = choose|j: int| 0 <= j < s.len() && s[j].0@ == id;
            assert(s2[j].0@ == id);
        }
    }
    assert forall|i2: int, j2: int| 0 <= i2 < j2 < s2.len() implies #[trigger] s2[i2].0@
        != #[trigger] s2[j2].0@ by {
        assert(s2[i2].0@ == s[i2].0@ && s2[j2].0@ == s[j2].0@);
        assert(s[i2].0@ != s[j2].0@);
    }
    assert forall|i2: int| 0 <= i2 < s2.len() implies (#[trigger] s2[i2].1).available
        <= s2[i2].1.total by {
        if i2 != i {
            assert(s2[i2] == s[i2]);
        }
    }
    assert forall|id: Seq<char>| #[trigger] as_map(s2).contains_key(id) implies as_map(s2)[id]
        == as_map(s).insert(k@, b)[id] by {
        let j = key_index(s2, id);
        assert(0 <= j < s2.len() && s2[j].0@ == id);
        if id == k@ {
            lemma_key_index(s2, id, i);
        } else {
            assert(j != i);
            lemma_key_index(s2, id, j);
            lemma_key_index(s, id, j);
        }
    }
    assert(as_map(s2) =~= as_map(s).insert(k@, b)) by {
        lemma_key_index(s, k@, i);
    }
}

proof fn lemma_map_push(s: Seq<(AccountId, StorageBalance)>, k: AccountId, b: StorageBalance)
    requires
        entries_wf(s),
        !has_key(s, k@),
        b.available <= b.total,
    ensures
        entries_wf(s.push((k, b))),
        as_map(s.push((k, b))) == as_map(s).insert(k@, b),
{
    let s2 = s.push((k, b));
    assert forall|i: int, j: int| 0 <= i < j < s2.len() implies #[trigger] s2[i].0@
        != #[trigger] s2[j].0@ by {
        if j < s.len() {
            assert(s[i].0@ != s[j].0@);
        } else {
            assert(s2[j].0@ == k@);
            assert(s[i].0@ != k@);
        }
    }
    assert forall|id: Seq<char>| #[trigger] as_map(s2).contains_key(id) implies as_map(s2)[id]
        == as_map(s).insert(k@, b)[id] by {
        let j = key_index(s2, id);
        assert(0 <= j < s2.len() && s2[j].0@ == id);
        if id == k@ {
            lemma_key_index(s2, id, s.len() as int);
        } else {
            assert(j != s.len());
            lemma_key_index(s2, id, j);
            lemma_key_index(s, id, j);
        }
    }
    assert forall|id: Seq<char>| has_key(s, id) implies #[trigger] as_map(s2).contains_key(id) by {
        let j = choose|j: int| 0 <= j < s.len() && s[j].0@ == id;
        assert(s2[j].0@ == id);
    }
    assert(as_map(s2) =~= as_map(s).insert(k@, b)) by {
        assert(as_map(s2).contains_key(k@)) by {
            assert(s2[s.len() as int].0@ == k@);
        }
    }
}

proof fn lemma_map_remove(s: Seq<(AccountId, StorageBalance)>, i: int)
    requires
        entries_wf(s),
        0 <= i < s.len(),
    ensures
        entries_wf(s.remove(i)),
        as_map(s.remove(i)) == as_map(s).remove(s[i].0@),
{
    let k = s[i].0@;
    let s2 = s.remove(i);
    assert forall|i2: int, j2: int| 0 <= i2 < j2 < s2.len() implies #[trigger] s2[i2].0@
        != #[trigger] s2[j2].0@ by {
        let oi = if i2 < i { i2 } else { i2 + 1 };
        let oj = if j2 < i { j2 } else { j2 + 1 };
        assert(s2[i2] == s[oi] && s2[j2] == s[oj]);
        assert(s[oi].0@ != s[oj].0@);
    }
    assert forall|id: Seq<char>| #[trigger] as_map(s2).contains_key(id) implies as_map(s)
        .remove(k).contains_key(id) && as_map(s2)[id] == as_map(s).remove(k)[id] by {
        let j = key_index(s2, id);
        assert(0 <= j < s2.len() && s2[j].0@ == id);
        let oj = if j < i { j } else { j + 1 };
        assert(s2[j] == s[oj]);
        lemma_key_index(s2, id, j);
        lemma_key_index(s, id, oj);
        assert(id != k);
    }
    assert forall|id: Seq<char>| #[trigger] as_map(s).remove(k).contains_key(id) implies as_map(
        s2,
    ).contains_key(id) by {
        let j = choose|j: int| 0 <= j < s.len() && s[j].0@ == id;
        assert(id != k);
        assert(j != i);
        if j < i {
            assert(s2[j] == s[j]);
        } else {
            assert(s2[j - 1] == s[j]);
        }
    }
    assert(as_map(s2) =~= as_map(s).remove(k));
}

/// The storage accounting engine: one balance record per registered account,
/// plus the contract-wide balance bounds.
#[derive(Debug)]
pub struct Nep145Controller {
    accounts: Vec<(AccountId, StorageBalance)>,
    bounds: StorageBalanceBounds,
}

impl View for Nep145Controller {
    type V = StorageLedger;

    closed spec fn view(&self) -> StorageLedger {
        StorageLedger { balances: as_map(self.accounts@), bounds: self.bounds }
    }
}

impl Nep145Controller {
    #[verifier::type_invariant]
    spec fn type_inv(self) -> bool {
        entries_wf(self.accounts@)
    }

    /// A fresh ledger: no registered accounts, default bounds.
    pub fn new() -> (r: Self)
        ensures
            r@.balances == Map::<Seq<char>, StorageBalance>::empty(),
            r@.balances_consistent(),
            r@.bounds.min == 0,
            r@.bounds.max is None,
    {
        let r = Nep145Controller {
            accounts: Vec::new(),
            bounds: StorageBalanceBounds { min: 0, max: None },
        };
        proof {
            assert(r@.balances =~= Map::<Seq<char>, StorageBalance>::empty());
        }
        r
    }

    fn set_entry(&mut self, i: usize, key: AccountId, b: StorageBalance)
        requires
            entries_wf(old(self).accounts@),
            i < old(self).accounts@.len(),
            key@ == old(self).accounts@[i as int].0@,
            b.available <= b.total,
        ensures
            final(self).accounts@ == old(self).accounts@.update(i as int, (key, b)),
            final(self).bounds == old(self).bounds,
            final(self)@.balances == old(self)@.balances.insert(key@, b),
    {
        proof {
            lemma_map_update(self.accounts@, i as int, key, b);
        }
        let mut accounts: Vec<(AccountId, StorageBalance)> = Vec::new();
        core::mem::swap(&mut self.accounts, &mut accounts);
        accounts[i] = (key, b);
        core::mem::swap(&mut self.accounts, &mut accounts);
    }

    fn find_account(&self, account_id: &AccountId) -> (r: Option<usize>)
        ensures
            match r {
                Some(i) => {
                    &&& i < self.accounts@.len()
                    &&& self.accounts@[i as int].0@ == account_id@
                    &&& self@.balances.contains_key(account_id@)
                    &&& self@.balances[account_id@] == self.accounts@[i as int].1
                },
                None => !self@.balances.contains_key(account_id@),
            },
    {
        proof {
            use_type_invariant(self);
        }
        let n = self.accounts.len();
        let mut i: usize = 0;
        while i < n
            invariant
                n == self.accounts@.len(),
                i <= n,
                forall|j: int| 0 <= j < i ==> self.accounts@[j].0@ != account_id@,
                entries_wf(self.accounts@),
            decreases n - i,
        {
            if self.accounts[i].0 == *account_id {
                proof {
                    lemma_key_index(self.accounts@, account_id@, i as int);
                }
                return Some(i);
            }
            i += 1;
        }
        None
    }

    /// Returns the storage balance of the given account.
    pub fn get_storage_balance(&self, account_id: &AccountId) -> (r: Result<
        StorageBalance,
        AccountNotRegisteredError,
    >)
        ensures
            match r {
                Ok(b) => {
                    &&& self@.balances.contains_key(account_id@)
                    &&& b == self@.balances[account_id@]
                    &&& b.available <= b.total
                },
                Err(e) => {
                    &&& !self@.balances.contains_key(account_id@)
                    &&& e.0@ == account_id@
                },
            },
    {
        proof {
            use_type_invariant(self);
        }
        match self.find_account(account_id) {
            Some(i) => Ok(self.accounts[i].1),
            None => Err(AccountNotRegisteredError(account_id.clone())),
        }
    }

    /// Returns the storage balance bounds for the contract.
    pub fn get_storage_balance_bounds(&self) -> (r: StorageBalanceBounds)
        ensures
            r == self@.bounds,
    {
        self.bounds
    }

    /// Sets the storage balance bounds for the contract.
    pub fn set_storage_balance_bounds(&mut self, bounds: &StorageBalanceBounds)
        ensures
            final(self)@.bounds == *bounds,
            final(self)@.balances == old(self)@.balances,
            final(self)@.balances_consistent(),
    {
        proof {
            use_type_invariant(&*self);
        }
        self.bounds = *bounds;
    }

    /// Locks the given amount of storage balance for the given account:
    /// the amount moves out of the available portion, the total is untouched.
    pub fn lock_storage(&mut self, account_id: &AccountId, amount: u128) -> (r: Result<
        StorageBalance,
        StorageLockError,
    >)
        ensures
            final(self)@.bounds == old(self)@.bounds,
            final(self)@.balances_consistent(),
            ({
                let id = account_id@;
                let l0 = old(self)@;
                match r {
                    Ok(b) => {
                        &&& l0.balances.contains_key(id)
                        &&& can_lock(l0.balances[id], amount)
                        &&& b == spec_lock(l0.balances[id], amount)
                        &&& final(self)@.balances == l0.balances.insert(id, b)
                    },
                    Err(StorageLockError::AccountNotRegistered(e)) => {
                        &&& !l0.balances.contains_key(id)
                        &&& e.0@ == id
                        &&& final(self)@.balances == l0.balances
                    },
                    Err(StorageLockError::InsufficientBalance(e)) => {
                        &&& l0.balances.contains_key(id)
                        &&& !can_lock(l0.balances[id], amount)
                        &&& e.account_id@ == id
                        &&& e.available == l0.balances[id].available
                        &&& e.attempted_to_use == amount
                        &&& final(self)@.balances == l0.balances
                    },
                }
            }),
    {
        proof {
            use_type_invariant(&*self);
        }
        let i = match self.find_account(account_id) {
            Some(i) => i,
            None => {
                return Err(
                    StorageLockError::AccountNotRegistered(
                        AccountNotRegisteredError(account_id.clone()),
                    ),
                );
            },
        };
        let balance = self.accounts[i].1;
        if amount > balance.available {
            return Err(
                StorageLockError::InsufficientBalance(
                    InsufficientBalanceError {
                        account_id: account_id.clone(),
                        available: balance.available,
                        attempted_to_use: amount,
                    },
                ),
            );
        }
        let new_balance = StorageBalance {
            total: balance.total,
            available: balance.available - amount,
        };
        let key = account_id.clone();
        self.set_entry(i, key, new_balance);
        Ok(new_balance)
    }

    /// Unlocks the given amount of storage balance for the given account:
    /// the amount moves back into the available portion, capped by the total.
    pub fn unlock_storage(&mut self, account_id: &AccountId, amount: u128) -> (r: Result<
        StorageBalance,
        StorageUnlockError,
    >)
        ensures
            final(self)@.bounds == old(self)@.bounds,
            final(self)@.balances_consistent(),
            ({
                let id = account_id@;
                let l0 = old(self)@;
                match r {
                    Ok(b) => {
                        &&& l0.balances.contains_key(id)
                        &&& can_unlock(l0.balances[id], amount)
                        &&& b == spec_unlock(l0.balances[id], amount)
                        &&& final(self)@.balances == l0.balances.insert(id, b)
                    },
                    Err(StorageUnlockError::AccountNotRegistered(e)) => {
                        &&& !l0.balances.contains_key(id)
                        &&& e.0@ == id
                        &&& final(self)@.balances == l0.balances
                    },
                    Err(StorageUnlockError::ExcessiveUnlock(e)) => {
                        &&& l0.balances.contains_key(id)
                        &&& !can_unlock(l0.balances[id], amount)
                        &&& e.0@ == id
                        &&& final(self)@.balances == l0.balances
                    },
                }
            }),
    {
        proof {
            use_type_invariant(&*self);
        }
        let i = match self.find_account(account_id) {
            Some(i) => i,
            None => {
                return Err(
                    StorageUnlockError::AccountNotRegistered(
                        AccountNotRegisteredError(account_id.clone()),
                    ),
                );
            },
        };
        let balance = self.accounts[i].1;
        let locked = balance.total - balance.available;
        if amount > locked {
            return Err(
                StorageUnlockError::ExcessiveUnlock(ExcessiveUnlockError(account_id.clone())),
            );
        }
        let new_balance = StorageBalance {
            total: balance.total,
            available: balance.available + amount,
        };
        let key = account_id.clone();
        self.set_entry(i, key, new_balance);
        Ok(new_balance)
    }

    /// Deposits the given amount of storage balance for the given account,
    /// creating the record on a first deposit, subject to the balance bounds.
    pub fn deposit_to_storage_account(&mut self, account_id: &AccountId, amount: u128) -> (r:
        Result<StorageBalance, StorageDepositError>)
        requires
            old(self)@.bounds.max is None ==> old(self)@.balance_or_default(account_id@).total
                + amount <= u128::MAX,
        ensures
            final(self)@.bounds == old(self)@.bounds,
            final(self)@.balances_consistent(),
            ({
                let id = account_id@;
                let l0 = old(self)@;
                let b0 = l0.balance_or_default(id);
                match r {
                    Ok(b) => {
                        &&& deposit_in_bounds(l0.bounds, b0, amount)
                        &&& b == spec_deposit(b0, amount)
                        &&& final(self)@.balances == l0.balances.insert(id, b)
                    },
                    Err(StorageDepositError::MinimumBalanceUnderrun(e)) => {
                        &&& b0.total + amount < l0.bounds.min
                        &&& e.account_id@ == id
                        &&& e.minimum_balance == l0.bounds.min
                        &&& final(self)@.balances == l0.balances
                    },
                    Err(StorageDepositError::MaximumBalanceOverrun(e)) => {
                        &&& b0.total + amount >= l0.bounds.min
                        &&& l0.bounds.max matches Some(max) && b0.total + amount > max
                        &&& e.account_id@ == id
                        &&& e.maximum_balance == l0.bounds.max.unwrap()
                        &&& final(self)@.balances == l0.balances
                    },
                }
            }),
    {
        proof {
            use_type_invariant(&*self);
        }
        let idx = self.find_account(account_id);
        let balance = match idx {
            Some(i) => self.accounts[i].1,
            None => StorageBalance { total: 0, available: 0 },
        };
        let new_total = match balance.total.checked_add(amount) {
            Some(new_total) => {
                if new_total < self.bounds.min {
                    return Err(
                        StorageDepositError::MinimumBalanceUnderrun(
                            MinimumBalanceUnderrunError {
                                account_id: account_id.clone(),
                                minimum_balance: self.bounds.min,
                            },
                        ),
                    );
                }
                if let Some(max) = self.bounds.max {
                    if new_total > max {
                        return Err(
                            StorageDepositError::MaximumBalanceOverrun(
                                MaximumBalanceOverrunError {
                                    account_id: account_id.clone(),
                                    maximum_balance: max,
                                },
                            ),
                        );
                    }
                }
                new_total
            },
            None => {
                // The mathematical total exceeds the amount type, so it exceeds
                // the maximum bound, which is set here by the precondition.
                let max = self.bounds.max.unwrap();
                return Err(
                    StorageDepositError::MaximumBalanceOverrun(
                        MaximumBalanceOverrunError {
                            account_id: account_id.clone(),
                            maximum_balance: max,
                        },
                    ),
                );
            },
        };
        let new_balance = StorageBalance {
            total: new_total,
            available: balance.available + amount,
        };
        let key = account_id.clone();
        match idx {
            Some(i) => {
                self.set_entry(i, key, new_balance);
            },
            None => {
                proof {
                    lemma_map_push(self.accounts@, key, new_balance);
                }
                let mut accounts: Vec<(AccountId, StorageBalance)> = Vec::new();
                core::mem::swap(&mut self.accounts, &mut accounts);
                accounts.push((key, new_balance));
                core::mem::swap(&mut self.accounts, &mut accounts);
            },
        }
        Ok(new_balance)
    }

    /// Withdraws the given amount of storage balance for the given account,
    /// re-checking the remaining total against the contract's minimum.
    pub fn withdraw_from_storage_account(&mut self, account_id: &AccountId, amount: u128) -> (r:
        Result<StorageBalance, StorageWithdrawError>)
        ensures
            final(self)@.bounds == old(self)@.bounds,
            final(self)@.balances_consistent(),
            ({
                let id = account_id@;
                let l0 = old(self)@;
                match r {
                    Ok(b) => {
                        &&& l0.balances.contains_key(id)
                        &&& amount <= l0.balances[id].available
                        &&& l0.balances[id].total - amount >= l0.bounds.min
                        &&& b == spec_withdraw(l0.balances[id], amount)
                        &&& final(self)@.balances == l0.balances.insert(id, b)
                    },
                    Err(StorageWithdrawError::AccountNotRegistered(e)) => {
                        &&& !l0.balances.contains_key(id)
                        &&& e.0@ == id
                        &&& final(self)@.balances == l0.balances
                    },
                    Err(StorageWithdrawError::InsufficientBalance(e)) => {
                        &&& l0.balances.contains_key(id)
                        &&& amount > l0.balances[id].available
                        &&& e.account_id@ == id
                        &&& e.available == l0.balances[id].available
                        &&& e.attempted_to_use == amount
                        &&& final(self)@.balances == l0.balances
                    },
                    Err(StorageWithdrawError::MinimumBalanceUnderrun(e)) => {
                        &&& l0.balances.contains_key(id)
                        &&& amount <= l0.balances[id].available
                        &&& l0.balances[id].total - amount < l0.bounds.min
                        &&& e.account_id@ == id
                        &&& e.minimum_balance == l0.bounds.min
                        &&& final(self)@.balances == l0.balances
                    },
                }
            }),
    {
        proof {
            use_type_invariant(&*self);
        }
        let i = match self.find_account(account_id) {
            Some(i) => i,
            None => {
                return Err(
                    StorageWithdrawError::AccountNotRegistered(
                        AccountNotRegisteredError(account_id.clone()),
                    ),
                );
            },
        };
        let balance = self.accounts[i].1;
        if amount > balance.available {
            return Err(
                StorageWithdrawError::InsufficientBalance(
                    InsufficientBalanceError {
                        account_id: account_id.clone(),
                        available: balance.available,
                        attempted_to_use: amount,
                    },
                ),
            );
        }
        let new_total = balance.total - amount;
        if new_total < self.bounds.min {
            return Err(
                StorageWithdrawError::MinimumBalanceUnderrun(
                    MinimumBalanceUnderrunError {
                        account_id: account_id.clone(),
                        minimum_balance: self.bounds.min,
                    },
                ),
            );
        }
        let new_balance = StorageBalance { total: new_total, available: balance.available - amount };
        let key = account_id.clone();
        self.set_entry(i, key, new_balance);
        Ok(new_balance)
    }

    /// Unregisters the given account, returning the amount of storage balance
    /// that should be refunded. Fails while any part of the balance is locked.
    pub fn unregister_storage_account(&mut self, account_id: &AccountId) -> (r: Result<
        u128,
        StorageUnregisterError,
    >)
        ensures
            final(self)@.bounds == old(self)@.bounds,
            final(self)@.balances_consistent(),
            ({
                let id = account_id@;
                let l0 = old(self)@;
                match r {
                    Ok(refund) => {
                        &&& l0.balances.contains_key(id)
                        &&& l0.balances[id].available == l0.balances[id].total
                        &&& refund == l0.balances[id].total
                        &&& final(self)@.balances == l0.balances.remove(id)
                    },
                    Err(StorageUnregisterError::AccountNotRegistered(e)) => {
                        &&& !l0.balances.contains_key(id)
                        &&& e.0@ == id
                        &&& final(self)@.balances == l0.balances
                    },
                    Err(StorageUnregisterError::UnregisterWithLockedBalance(e)) => {
                        &&& l0.balances.contains_key(id)
                        &&& l0.balances[id].available < l0.balances[id].total
                        &&& e.account_id@ == id
                        &&& e.locked_balance == l0.balances[id].total - l0.balances[id].available
                        &&& final(self)@.balances == l0.balances
                    },
                }
            }),
    {
        proof {
            use_type_invariant(&*self);
        }
        let i = match self.find_account(account_id) {
            Some(i) => i,
            None => {
                return Err(
                    StorageUnregisterError::AccountNotRegistered(
                        AccountNotRegisteredError(account_id.clone()),
                    ),
                );
            },
        };
        let balance = self.accounts[i].1;
        let locked = balance.total - balance.available;
        if locked > 0 {
            return Err(
                StorageUnregisterError::UnregisterWithLockedBalance(
                    UnregisterWithLockedBalanceError {
                        account_id: account_id.clone(),
                        locked_balance: locked,
                    },
                ),
            );
        }
        proof {
            lemma_map_remove(self.accounts@, i as int);
        }
        let mut accounts: Vec<(AccountId, StorageBalance)> = Vec::new();
        core::mem::swap(&mut self.accounts, &mut accounts);
        let _ = accounts.remove(i);
        core::mem::swap(&mut self.accounts, &mut accounts);
        Ok(balance.total)
    }

    /// Drops the given account's record, if present; the balance bounds and
    /// every other account are untouched.
    fn remove_account(&mut self, account_id: &AccountId)
        ensures
            final(self)@ == ledger_remove(old(self)@, account_id@),
    {
        proof {
            use_type_invariant(&*self);
        }
        match self.find_account(account_id) {
            Some(i) => {
                proof {
                    lemma_map_remove(self.accounts@, i as int);
                }
                let mut accounts: Vec<(AccountId, StorageBalance)> = Vec::new();
                core::mem::swap(&mut self.accounts, &mut accounts);
                let _ = accounts.remove(i);
                core::mem::swap(&mut self.accounts, &mut accounts);
            },
            None => {
                proof {
                    assert(self@.balances =~= self@.balances.remove(account_id@));
                }
            },
        }
    }
}

/// The guarded mutation of a forced unregistration: dropping the account's
/// ledger record.
struct RemoveAccount {
    account_id: AccountId,
}

impl Inner<Nep145Controller> for RemoveAccount {
    type Output = ();

    closed spec fn effect(self, l: StorageLedger) -> StorageLedger {
        ledger_remove(l, self.account_id@)
    }

    closed spec fn output(self, l: StorageLedger) -> () {
        ()
    }

    fn run(self, contract: &mut Nep145Controller) -> (r: ()) {
        contract.remove_account(&self.account_id)
    }
}

impl Nep145Controller {
    /// Force unregisters the given account, returning the available portion of
    /// its storage balance as the refund. The hook `H` wraps the removal of the
    /// record and may itself veto it; the refund is owed either way.
    pub fn force_unregister_storage_account<H: Hook<Nep145Controller, Nep145ForceUnregister>>(
        &mut self,
        account_id: &AccountId,
    ) -> (r: Result<u128, StorageForceUnregisterError>)
        ensures
            final(self)@.balances_consistent(),
            ({
                let id = account_id@;
                let l0 = old(self)@;
                match r {
                    Ok(refund) => {
                        &&& l0.balances.contains_key(id)
                        &&& refund == l0.balances[id].available
                        &&& ({
                            let a = (id, l0.balances[id]);
                            if H::calls_inner(l0, a) {
                                final(self)@ == H::exit(
                                    ledger_remove(H::enter(l0, a), id),
                                    a,
                                )
                            } else {
                                final(self)@ == H::veto_exit(l0, a)
                            }
                        })
                    },
                    Err(StorageForceUnregisterError::AccountNotRegistered(e)) => {
                        &&& !l0.balances.contains_key(id)
                        &&& e.0@ == id
                        &&& final(self)@ == l0
                    },
                }
            }),
    {
        proof {
            use_type_invariant(&*self);
        }
        let i = match self.find_account(account_id) {
            Some(i) => i,
            None => {
                return Err(
                    StorageForceUnregisterError::AccountNotRegistered(
                        AccountNotRegisteredError(account_id.clone()),
                    ),
                );
            },
        };
        let balance = self.accounts[i].1;
        let action = Nep145ForceUnregister { account_id: account_id.clone(), balance };
        let remove = RemoveAccount { account_id: account_id.clone() };
        let _ = H::hook(self, &action, remove);
        proof {
            use_type_invariant(&*self);
        }
        Ok(balance.available)
    }

    /// Settles the storage used by one operation against the account's balance:
    /// locks the fee for usage that grew, unlocks the credit for usage that
    /// shrank, and does nothing when usage is unchanged. Usage is measured in
    /// bytes before and after the operation; the price is per byte.
    pub fn storage_accounting(
        &mut self,
        account_id: &AccountId,
        storage_usage_start: u64,
        storage_usage_end: u64,
        price_per_byte: u128,
    ) -> (r: Result<(), StorageAccountingError>)
        requires
            price_per_byte * (if storage_usage_end > storage_usage_start {
                storage_usage_end - storage_usage_start
            } else {
                storage_usage_start - storage_usage_end
            }) <= u128::MAX,
        ensures
            final(self)@.bounds == old(self)@.bounds,
            final(self)@.balances_consistent(),
            ({
                let id = account_id@;
                let l0 = old(self)@;
                if storage_usage_end == storage_usage_start {
                    &&& r is Ok
                    &&& final(self)@ == l0
                } else if storage_usage_end > storage_usage_start {
                    let fee = (price_per_byte * (storage_usage_end - storage_usage_start)) as u128;
                    match r {
                        Ok(_) => {
                            &&& l0.balances.contains_key(id)
                            &&& can_lock(l0.balances[id], fee)
                            &&& final(self)@.balances == l0.balances.insert(
                                id,
                                spec_lock(l0.balances[id], fee),
                            )
                        },
                        Err(StorageAccountingError::StorageLock(e)) => {
                            &&& match e {
                                StorageLockError::AccountNotRegistered(e) => {
                                    &&& !l0.balances.contains_key(id)
                                    &&& e.0@ == id
                                },
                                StorageLockError::InsufficientBalance(e) => {
                                    &&& l0.balances.contains_key(id)
                                    &&& !can_lock(l0.balances[id], fee)
                                    &&& e.account_id@ == id
                                    &&& e.available == l0.balances[id].available
                                    &&& e.attempted_to_use == fee
                                },
                            }
                            &&& final(self)@.balances == l0.balances
                        },
                        Err(StorageAccountingError::StorageUnlock(_)) => false,
                    }
                } else {
                    let credit = (price_per_byte * (storage_usage_start - storage_usage_end)) as u128;
                    match r {
                        Ok(_) => {
                            &&& l0.balances.contains_key(id)
                            &&& can_unlock(l0.balances[id], credit)
                            &&& final(self)@.balances == l0.balances.insert(
                                id,
                                spec_unlock(l0.balances[id], credit),
                            )
                        },
                        Err(StorageAccountingError::StorageUnlock(e)) => {
                            &&& match e {
                                StorageUnlockError::AccountNotRegistered(e) => {
                                    &&& !l0.balances.contains_key(id)
                                    &&& e.0@ == id
                                },
                                StorageUnlockError::ExcessiveUnlock(e) => {
                                    &&& l0.balances.contains_key(id)
                                    &&& !can_unlock(l0.balances[id], credit)
                                    &&& e.0@ == id
                                },
                            }
                            &&& final(self)@.balances == l0.balances
                        },
                        Err(StorageAccountingError::StorageLock(_)) => false,
                    }
                }
            }),
    {
        proof {
            use_type_invariant(&*self);
        }
        if storage_usage_end > storage_usage_start {
            let storage_consumed = storage_usage_end - storage_usage_start;
            let storage_fee = price_per_byte * (storage_consumed as u128);
            match self.lock_storage(account_id, storage_fee) {
                Ok(_) => Ok(()),
                Err(e) => Err(StorageAccountingError::StorageLock(e)),
            }
        } else if storage_usage_end < storage_usage_start {
            let storage_released = storage_usage_start - storage_usage_end;
            let storage_credit = price_per_byte * (storage_released as u128);
            match self.unlock_storage(account_id, storage_credit) {
                Ok(_) => Ok(()),
                Err(e) => Err(StorageAccountingError::StorageUnlock(e)),
            }
        } else {
            Ok(())
        }
    }
}

} // verus!
