use vstd::prelude::*;
use crate::asset_vault::storage::{
    add_admin_step, add_lock, get_balance, get_locks, has_admins, store_admins, update_balance,
    VaultState, VaultStorage,
};
use crate::asset_vault::transactions::{log_transaction, logged};
use crate::asset_vault::types::{
    AssetLock, AssetLockView, LockList, TransactionType, VaultError,
};
use crate::principal::{Principal, PrincipalId, PrincipalList};

pub mod laws;
pub mod storage;
pub mod transactions;
pub mod types;

verus! {

/// The sum of the amounts of those of `locks` that are not yet released at `now`.
pub open spec fn locked_amount(locks: Seq<AssetLockView>, now: u64) -> int
    decreases locks.len(),
{
    if locks.len() == 0 {
        0
    } else {
        locked_amount(locks.drop_last(), now) + if locks.last().release_time > now {
            locks.last().amount as int
        } else {
            0
        }
    }
}

/// Initialization: the first administrator is fixed. It is rejected once a list of
/// administrators exists.
pub open spec fn initialize_step(s: VaultState, initial_admin: PrincipalId) -> (
    VaultState,
    Result<(), VaultError>,
) {
    if s.admins is Some {
        (s, Err(VaultError::Unauthorized))
    } else {
        (VaultState { admins: Some(seq![initial_admin]), ..s }, Ok(()))
    }
}

/// Deposit: a positive amount is added to the depositor's balance and logged.
pub open spec fn deposit_step(s: VaultState, now: u64, from: PrincipalId, amount: i128) -> (
    VaultState,
    Result<(), VaultError>,
) {
    if amount <= 0 {
        (s, Err(VaultError::InvalidAmount))
    } else {
        (
            logged(
                VaultState {
                    balances: s.balances.insert(from, (s.balance_of(from) + amount) as i128),
                    ..s
                },
                now,
                from,
                from,
                amount,
                TransactionType::Deposit,
            ),
            Ok(()),
        )
    }
}

/// Withdrawal: a positive amount that the balance covers, and that leaves at least
/// what is still locked, is taken from the balance and logged with its destination.
pub open spec fn withdraw_step(
    s: VaultState,
    now: u64,
    from: PrincipalId,
    to: PrincipalId,
    amount: i128,
) -> (VaultState, Result<(), VaultError>) {
    if amount <= 0 {
        (s, Err(VaultError::InvalidAmount))
    } else if s.balance_of(from) < amount {
        (s, Err(VaultError::InsufficientFunds))
    } else if s.balance_of(from) - amount < locked_amount(s.locks_of(from), now) {
        (s, Err(VaultError::AssetLocked))
    } else {
        (
            logged(
                VaultState {
                    balances: s.balances.insert(from, (s.balance_of(from) - amount) as i128),
                    ..s
                },
                now,
                from,
                to,
                amount,
                TransactionType::Withdrawal,
            ),
            Ok(()),
        )
    }
}

/// Locking: a positive amount within the balance is recorded as locked until the
/// release time, and logged.
pub open spec fn lock_assets_step(
    s: VaultState,
    now: u64,
    from: PrincipalId,
    amount: i128,
    release_time: u64,
    description: Seq<char>,
) -> (VaultState, Result<(), VaultError>) {
    if amount <= 0 || amount > s.balance_of(from) {
        (s, Err(VaultError::InvalidAmount))
    } else {
        (
            logged(
                VaultState {
                    locks: s.locks.insert(
                        from,
                        s.locks_of(from).push(AssetLockView { amount, release_time, description }),
                    ),
                    ..s
                },
                now,
                from,
                from,
                amount,
                TransactionType::Lock,
            ),
            Ok(()),
        )
    }
}

/// Among locks of non-negative amounts, the first ones hold no more than all of them.
proof fn lemma_locked_amount_grows(locks: Seq<AssetLockView>, now: u64, n: int)
    requires
        0 <= n <= locks.len(),
        forall|i: int| 0 <= i < locks.len() ==> (#[trigger] locks[i]).amount > 0,
    ensures
        locked_amount(locks.take(n), now) <= locked_amount(locks, now),
    decreases locks.len() - n,
{
    if n == locks.len() {
        assert(locks.take(n) =~= locks);
    } else {
        lemma_locked_amount_grows(locks, now, n + 1);
        assert(locks.take(n + 1).drop_last() =~= locks.take(n));
        assert(locks.take(n + 1).last() == locks[n]);
    }
}

/// Whether more than `available` is locked at `now`.
fn exceeds(locks: &LockList, now: u64, available: i128) -> (over: bool)
    requires
        available >= 0,
        forall|i: int| 0 <= i < locks@.len() ==> (#[trigger] locks@[i]).amount > 0,
    ensures
        over == (available < locked_amount(locks@, now)),
{
    let mut locked: i128 = 0;
    let mut i: usize = 0;
    while i < locks.len()
        invariant
            i <= locks@.len(),
            0 <= locked <= available,
            locked == locked_amount(locks@.take(i as int), now),
            forall|j: int| 0 <= j < locks@.len() ==> (#[trigger] locks@[j]).amount > 0,
        decreases locks@.len() - i,
    {
        let lock = locks.get(i);
        proof {
            assert(locks@.take(i + 1).drop_last() =~= locks@.take(i as int));
            assert(locks@.take(i + 1).last() == locks@[i as int]);
            lemma_locked_amount_grows(locks@, now, i + 1);
        }
        if lock.release_time > now {
            if lock.amount > available - locked {
                return true;
            }
            locked = locked + lock.amount;
        }
        i += 1;
    }
    proof {
        assert(locks@.take(locks@.len() as int) =~= locks@);
    }
    false
}

/// A vault that holds balances for its depositors, lets them lock part of a balance
/// until a release time, and keeps a history of what was done.
pub struct SecureAssetVault {
    pub storage: VaultStorage,
}

impl View for SecureAssetVault {
    type V = VaultState;

    open spec fn view(&self) -> VaultState {
        self.storage@
    }
}

impl SecureAssetVault {
    /// The records are well formed.
    pub open spec fn wf(&self) -> bool {
        self.storage.wf()
    }

    /// A vault without records, not yet initialized.
    pub fn new() -> (vault: SecureAssetVault)
        ensures
            vault.wf(),
            vault@ == VaultState::empty(),
    {
        SecureAssetVault { storage: VaultStorage::new() }
    }

    /// Initializes the vault with its first administrator. A second initialization is
    /// rejected as unauthorized and changes nothing.
    pub fn initialize(&mut self, initial_admin: Principal) -> (result: Result<(), VaultError>)
        requires
            old(self).wf(),
        ensures
            final(self).wf(),
            (final(self)@, result) == initialize_step(old(self)@, initial_admin@),
    {
        if has_admins(&self.storage) {
            return Err(VaultError::Unauthorized);
        }
        let mut admins = PrincipalList::new();
        admins.push_back(initial_admin);
        store_admins(&mut self.storage, admins);
        proof {
            assert(self@.admins->0 =~= seq![initial_admin@]);
        }
        Ok(())
    }

    /// Deposits `amount` into the balance of `from`.
    pub fn deposit(&mut self, now: u64, from: &Principal, amount: i128) -> (result: Result<
        (),
        VaultError,
    >)
        requires
            old(self).wf(),
            amount > 0 ==> old(self)@.balance_of(from@) + amount <= i128::MAX,
        ensures
            final(self).wf(),
            (final(self)@, result) == deposit_step(old(self)@, now, from@, amount),
    {
        if amount <= 0 {
            return Err(VaultError::InvalidAmount);
        }
        let current_balance = get_balance(&self.storage, from);
        update_balance(&mut self.storage, from, current_balance + amount);
        log_transaction(&mut self.storage, now, from, from, amount, TransactionType::Deposit);
        Ok(())
    }

    /// Withdraws `amount` from the balance of `from`, bound for `to`.
    pub fn withdraw(&mut self, now: u64, from: &Principal, to: &Principal, amount: i128) -> (result:
        Result<(), VaultError>)
        requires
            old(self).wf(),
        ensures
            final(self).wf(),
            (final(self)@, result) == withdraw_step(old(self)@, now, from@, to@, amount),
    {
        let current_balance = get_balance(&self.storage, from);
        if amount <= 0 {
            return Err(VaultError::InvalidAmount);
        }
        if current_balance < amount {
            return Err(VaultError::InsufficientFunds);
        }
        let locks = get_locks(&self.storage, from);
        proof {
            self.storage.lemma_locks_are_positive(from@);
        }
        if exceeds(&locks, now, current_balance - amount) {
            return Err(VaultError::AssetLocked);
        }
        update_balance(&mut self.storage, from, current_balance - amount);
        log_transaction(&mut self.storage, now, from, to, amount, TransactionType::Withdrawal);
        Ok(())
    }

    /// Adds a new administrator on behalf of an existing one.
    pub fn add_admin(&mut self, caller: &Principal, new_admin: &Principal) -> (result: Result<
        (),
        VaultError,
    >)
        requires
            old(self).wf(),
        ensures
            final(self).wf(),
            (final(self)@, result) == add_admin_step(old(self)@, caller@, new_admin@),
    {
        storage::add_admin(&mut self.storage, caller, new_admin)
    }

    /// Locks `amount` of the balance of `from` until `release_time`.
    pub fn lock_assets(
        &mut self,
        now: u64,
        from: &Principal,
        amount: i128,
        release_time: u64,
        description: String,
    ) -> (result: Result<(), VaultError>)
        requires
            old(self).wf(),
        ensures
            final(self).wf(),
            (final(self)@, result) == lock_assets_step(
                old(self)@,
                now,
                from@,
                amount,
                release_time,
                description@,
            ),
    {
        let current_balance = get_balance(&self.storage, from);
        if amount <= 0 || amount > current_balance {
            return Err(VaultError::InvalidAmount);
        }
        let new_lock = AssetLock { amount, release_time, description };
        add_lock(&mut self.storage, from, new_lock);
        log_transaction(&mut self.storage, now, from, from, amount, TransactionType::Lock);
        Ok(())
    }

    /// The balance of `address`.
    pub fn get_balance(&self, address: &Principal) -> (balance: i128)
        requires
            self.wf(),
        ensures
            balance == self@.balance_of(address@),
    {
        get_balance(&self.storage, address)
    }
}

} // verus!
