use vstd::prelude::*;
use vstd::std_specs::convert::FromSpecImpl;
use crate::principal::{Principal, PrincipalId};

verus! {

/// The ledger's own error value.
#[verifier::external_type_specification]
#[verifier::external_body]
pub struct ExLedgerError(soroban_sdk::Error);

/// The ledger error that `soroban_sdk::Error::from_contract_error` makes of a contract's
/// error number.
pub uninterp spec fn contract_error(code: u32) -> soroban_sdk::Error;

/// Calls `soroban_sdk::Error::from_contract_error`, which packs the number into an
/// error value of the contract kind. The result depends on the number alone; nothing
/// more is claimed of it here.
#[verifier::external_body]
fn make_contract_error(code: u32) -> (error: soroban_sdk::Error)
    ensures
        error == contract_error(code),
{
    soroban_sdk::Error::from_contract_error(code)
}

/// Why a vault call did not go through.
#[derive(Clone, Copy, PartialEq, Eq, Structural, Debug)]
pub enum VaultError {
    InsufficientFunds,
    Unauthorized,
    InvalidAmount,
    AssetLocked,
}

impl VaultError {
    /// The number under which the error is reported to the ledger.
    pub open spec fn spec_code(self) -> u32 {
        match self {
            VaultError::InsufficientFunds => 1,
            VaultError::Unauthorized => 2,
            VaultError::InvalidAmount => 3,
            VaultError::AssetLocked => 4,
        }
    }

    /// The number under which the error is reported to the ledger.
    pub fn code(&self) -> (code: u32)
        ensures
            code == self.spec_code(),
    {
        match self {
            VaultError::InsufficientFunds => 1,
            VaultError::Unauthorized => 2,
            VaultError::InvalidAmount => 3,
            VaultError::AssetLocked => 4,
        }
    }

    /// The ledger error that stands for this error: the contract error with this
    /// error's number.
    pub fn to_ledger_error(&self) -> (error: soroban_sdk::Error)
        ensures
            error == contract_error(self.spec_code()),
    {
        make_contract_error(self.code())
    }
}

impl From<VaultError> for soroban_sdk::Error {
    fn from(err: VaultError) -> (error: soroban_sdk::Error) {
        err.to_ledger_error()
    }
}

impl FromSpecImpl<VaultError> for soroban_sdk::Error {
    open spec fn obeys_from_spec() -> bool {
        true
    }

    open spec fn from_spec(err: VaultError) -> soroban_sdk::Error {
        contract_error(err.spec_code())
    }
}

/// What a role may do.
#[derive(Clone, Copy, PartialEq, Eq, Structural, Debug)]
pub enum PermissionLevel {
    /// No permissions.
    NoAccess,
    /// Can view but not modify.
    Viewer,
    /// Can perform limited actions.
    Operator,
    /// Full control.
    Admin,
}

/// What a logged transaction did.
#[derive(Clone, Copy, PartialEq, Eq, Structural, Debug)]
pub enum TransactionType {
    Deposit,
    Withdrawal,
    Lock,
    Unlock,
    Transfer,
}

/// An amount that its owner cannot withdraw before the release time.
#[derive(Debug)]
pub struct AssetLock {
    pub amount: i128,
    /// The time from which the amount is free again.
    pub release_time: u64,
    /// The purpose of the lock.
    pub description: String,
}

/// The mathematical value of an [`AssetLock`].
pub struct AssetLockView {
    pub amount: i128,
    pub release_time: u64,
    pub description: Seq<char>,
}

impl View for AssetLock {
    type V = AssetLockView;

    open spec fn view(&self) -> AssetLockView {
        AssetLockView {
            amount: self.amount,
            release_time: self.release_time,
            description: self.description@,
        }
    }
}

impl Clone for AssetLock {
    fn clone(&self) -> (copy: AssetLock)
        ensures
            copy@ == self@,
    {
        AssetLock {
            amount: self.amount,
            release_time: self.release_time,
            description: self.description.clone(),
        }
    }
}

/// One entry of the vault's history.
#[derive(Debug)]
pub struct TransactionLog {
    pub from: Principal,
    pub to: Principal,
    pub amount: i128,
    pub timestamp: u64,
    pub transaction_type: TransactionType,
}

/// The mathematical value of a [`TransactionLog`].
pub struct TransactionLogView {
    pub from: PrincipalId,
    pub to: PrincipalId,
    pub amount: i128,
    pub timestamp: u64,
    pub transaction_type: TransactionType,
}

impl View for TransactionLog {
    type V = TransactionLogView;

    open spec fn view(&self) -> TransactionLogView {
        TransactionLogView {
            from: self.from@,
            to: self.to@,
            amount: self.amount,
            timestamp: self.timestamp,
            transaction_type: self.transaction_type,
        }
    }
}

impl Clone for TransactionLog {
    fn clone(&self) -> (copy: TransactionLog)
        ensures
            copy@ == self@,
    {
        TransactionLog {
            from: self.from.clone(),
            to: self.to.clone(),
            amount: self.amount,
            timestamp: self.timestamp,
            transaction_type: self.transaction_type,
        }
    }
}

/// The locks of one owner, oldest first. Its mathematical value is the sequence of the
/// locks' values.
#[derive(Debug)]
pub struct LockList {
    pub items: Vec<AssetLock>,
}

impl View for LockList {
    type V = Seq<AssetLockView>;

    open spec fn view(&self) -> Seq<AssetLockView> {
        Seq::new(self.items@.len(), |i: int| self.items@[i]@)
    }
}

impl LockList {
    /// The empty list.
    pub fn new() -> (list: LockList)
        ensures
            list@ == Seq::<AssetLockView>::empty(),
    {
        let list = LockList { items: Vec::new() };
        assert(list@ =~= Seq::<AssetLockView>::empty());
        list
    }

    /// The number of locks.
    pub fn len(&self) -> (n: usize)
        ensures
            n == self@.len(),
    {
        self.items.len()
    }

    /// The lock at index `i`.
    pub fn get(&self, i: usize) -> (lock: &AssetLock)
        requires
            i < self@.len(),
        ensures
            lock@ == self@[i as int],
    {
        &self.items[i]
    }

    /// Appends `lock` at the end.
    pub fn push_back(&mut self, lock: AssetLock)
        ensures
            final(self)@ == old(self)@.push(lock@),
    {
        self.items.push(lock);
        assert(self@ =~= old(self)@.push(lock@));
    }
}

impl Clone for LockList {
    fn clone(&self) -> (copy: LockList)
        ensures
            copy@ == self@,
    {
        let mut copy = LockList::new();
        let mut i: usize = 0;
        while i < self.items.len()
            invariant
                i <= self.items.len(),
                copy@ == self@.take(i as int),
            decreases self.items.len() - i,
        {
            copy.push_back(self.items[i].clone());
            assert(self@.take(i as int).push(self@[i as int]) =~= self@.take(i + 1));
            i += 1;
        }
        assert(self@.take(self@.len() as int) =~= self@);
        copy
    }
}

} // verus!
