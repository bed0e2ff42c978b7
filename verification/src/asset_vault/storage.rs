use vstd::prelude::*;
use crate::asset_vault::types::{
    AssetLock, AssetLockView, LockList, TransactionLog, TransactionLogView, VaultError,
};
use crate::principal::{Principal, PrincipalId, PrincipalList};
use crate::record_map::RecordMap;

verus! {

/// The mathematical value of the vault's durable state.
#[verifier::ext_equal]
pub struct VaultState {
    /// The administrators, once the vault has been initialized.
    pub admins: Option<Seq<PrincipalId>>,
    pub balances: Map<PrincipalId, i128>,
    /// The locks of each owner, oldest first.
    pub locks: Map<PrincipalId, Seq<AssetLockView>>,
    /// The history, oldest entry first.
    pub transactions: Seq<TransactionLogView>,
}

impl VaultState {
    /// The state before anything has been stored.
    pub open spec fn empty() -> VaultState {
        VaultState {
            admins: None,
            balances: Map::empty(),
            locks: Map::empty(),
            transactions: Seq::empty(),
        }
    }

    /// Whether `who` is an administrator. Before initialization nobody is.
    pub open spec fn is_admin(self, who: PrincipalId) -> bool {
        self.admins matches Some(admins) && admins.contains(who)
    }

    /// The balance of `who`; zero where none is stored.
    pub open spec fn balance_of(self, who: PrincipalId) -> i128 {
        if self.balances.contains_key(who) {
            self.balances[who]
        } else {
            0
        }
    }

    /// The locks of `who`, oldest first.
    pub open spec fn locks_of(self, who: PrincipalId) -> Seq<AssetLockView> {
        if self.locks.contains_key(who) {
            self.locks[who]
        } else {
            Seq::empty()
        }
    }
}

/// The durable records of one vault.
pub struct VaultStorage {
    admins: Option<PrincipalList>,
    balances: RecordMap<Principal, i128>,
    locks: RecordMap<Principal, LockList>,
    transactions: Vec<TransactionLog>,
}

impl View for VaultStorage {
    type V = VaultState;

    closed spec fn view(&self) -> VaultState {
        VaultState {
            admins: match self.admins {
                Some(admins) => Some(admins@),
                None => None,
            },
            balances: self.balances@,
            locks: self.locks@,
            transactions: Seq::new(self.transactions@.len(), |i: int| self.transactions@[i]@),
        }
    }
}

impl VaultStorage {
    /// No table holds a key twice, and every lock holds a positive amount. Every
    /// function of this module keeps this.
    pub closed spec fn wf(&self) -> bool {
        &&& self.balances.wf()
        &&& self.locks.wf()
        &&& forall|who: PrincipalId, i: int|
            self.locks@.contains_key(who) && 0 <= i < self.locks@[who].len() ==> (
            #[trigger] self.locks@[who][i]).amount > 0
    }

    /// In well-formed storage every lock holds a positive amount.
    pub proof fn lemma_locks_are_positive(&self, who: PrincipalId)
        requires
            self.wf(),
        ensures
            forall|i: int|
                0 <= i < self@.locks_of(who).len() ==> (#[trigger] self@.locks_of(who)[i]).amount
                    > 0,
    {
    }

    /// Storage that holds no record.
    pub fn new() -> (storage: VaultStorage)
        ensures
            storage.wf(),
            storage@ == VaultState::empty(),
    {
        let storage = VaultStorage {
            admins: None,
            balances: RecordMap::new(),
            locks: RecordMap::new(),
            transactions: Vec::new(),
        };
        assert(storage@.transactions =~= Seq::<TransactionLogView>::empty());
        storage
    }
}

/// Whether a list of administrators has been stored.
pub fn has_admins(storage: &VaultStorage) -> (stored: bool)
    ensures
        stored == storage@.admins is Some,
{
    storage.admins.is_some()
}

/// Replaces the list of administrators.
pub fn store_admins(storage: &mut VaultStorage, admins: PrincipalList)
    requires
        old(storage).wf(),
    ensures
        final(storage).wf(),
        final(storage)@ == (VaultState { admins: Some(admins@), ..old(storage)@ }),
{
    storage.admins = Some(admins);
}

/// The administrators; empty where none are stored.
pub fn get_admins(storage: &VaultStorage) -> (admins: PrincipalList)
    ensures
        admins@ == match storage@.admins {
            Some(stored) => stored,
            None => Seq::empty(),
        },
{
    match &storage.admins {
        Some(admins) => admins.clone(),
        None => PrincipalList::new(),
    }
}

/// Whether `address` has admin privileges.
pub fn is_admin(storage: &VaultStorage, address: &Principal) -> (admin: bool)
    ensures
        admin == storage@.is_admin(address@),
{
    match &storage.admins {
        Some(admins) => admins.contains(address),
        None => false,
    }
}

/// Adding an administrator: only an administrator may, and one who is listed already
/// is not listed again.
pub open spec fn add_admin_step(s: VaultState, admin: PrincipalId, new_admin: PrincipalId) -> (
    VaultState,
    Result<(), VaultError>,
) {
    if !s.is_admin(admin) {
        (s, Err(VaultError::Unauthorized))
    } else if s.admins->0.contains(new_admin) {
        (s, Ok(()))
    } else {
        (VaultState { admins: Some(s.admins->0.push(new_admin)), ..s }, Ok(()))
    }
}

/// Adds `new_admin` to the administrators on behalf of `admin`.
pub fn add_admin(storage: &mut VaultStorage, admin: &Principal, new_admin: &Principal) -> (result:
    Result<(), VaultError>)
    requires
        old(storage).wf(),
    ensures
        final(storage).wf(),
        (final(storage)@, result) == add_admin_step(old(storage)@, admin@, new_admin@),
{
    if !is_admin(storage, admin) {
        return Err(VaultError::Unauthorized);
    }
    let mut admins = get_admins(storage);
    if !admins.contains(new_admin) {
        admins.push_back(new_admin.clone());
        store_admins(storage, admins);
    }
    Ok(())
}

/// The balance of `address`; zero where none is stored.
pub fn get_balance(storage: &VaultStorage, address: &Principal) -> (balance: i128)
    requires
        storage.wf(),
    ensures
        balance == storage@.balance_of(address@),
{
    match storage.balances.get(address) {
        Some(balance) => *balance,
        None => 0,
    }
}

/// Sets the balance of `address`.
pub fn update_balance(storage: &mut VaultStorage, address: &Principal, amount: i128)
    requires
        old(storage).wf(),
    ensures
        final(storage).wf(),
        final(storage)@ == (VaultState {
            balances: old(storage)@.balances.insert(address@, amount),
            ..old(storage)@
        }),
{
    storage.balances.insert(address.clone(), amount);
}

/// The locks of `address`, oldest first.
pub fn get_locks(storage: &VaultStorage, address: &Principal) -> (locks: LockList)
    requires
        storage.wf(),
    ensures
        locks@ == storage@.locks_of(address@),
{
    match storage.locks.get(address) {
        Some(locks) => locks.clone(),
        None => LockList::new(),
    }
}

/// Appends `lock` to the locks of `address`.
pub fn add_lock(storage: &mut VaultStorage, address: &Principal, lock: AssetLock)
    requires
        old(storage).wf(),
        lock.amount > 0,
    ensures
        final(storage).wf(),
        final(storage)@ == (VaultState {
            locks: old(storage)@.locks.insert(
                address@,
                old(storage)@.locks_of(address@).push(lock@),
            ),
            ..old(storage)@
        }),
{
    let mut locks = get_locks(storage, address);
    locks.push_back(lock);
    storage.locks.insert(address.clone(), locks);
    proof {
        let before = old(storage).locks@;
        let after = storage.locks@;
        assert forall|who: PrincipalId, i: int|
            after.contains_key(who) && 0 <= i < after[who].len() implies (#[trigger] after[who][i]).amount
            > 0 by {
            if who == address@ {
                if i < lock_count(before, who) {
                    assert(before[who][i].amount > 0);
                }
            } else {
                assert(before[who][i].amount > 0);
            }
        }
    }
}

/// The number of locks that `locks` holds for `who`.
spec fn lock_count(locks: Map<PrincipalId, Seq<AssetLockView>>, who: PrincipalId) -> int {
    if locks.contains_key(who) {
        locks[who].len() as int
    } else {
        0
    }
}

/// Appends `entry` to the history.
pub fn append_transaction(storage: &mut VaultStorage, entry: TransactionLog)
    requires
        old(storage).wf(),
    ensures
        final(storage).wf(),
        final(storage)@ == (VaultState {
            transactions: old(storage)@.transactions.push(entry@),
            ..old(storage)@
        }),
{
    storage.transactions.push(entry);
    assert(storage@.transactions =~= old(storage)@.transactions.push(entry@));
}

/// The number of entries in the history.
pub fn transaction_count(storage: &VaultStorage) -> (n: usize)
    ensures
        n == storage@.transactions.len(),
{
    storage.transactions.len()
}

/// The entry of the history at index `i`.
pub fn transaction_at(storage: &VaultStorage, i: usize) -> (entry: &TransactionLog)
    requires
        i < storage@.transactions.len(),
    ensures
        entry@ == storage@.transactions[i as int],
{
    &storage.transactions[i]
}

} // verus!
