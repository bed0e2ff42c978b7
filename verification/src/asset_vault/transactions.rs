use vstd::prelude::*;
use crate::asset_vault::storage::{
    append_transaction, transaction_at, transaction_count, VaultState, VaultStorage,
};
use crate::asset_vault::types::{TransactionLog, TransactionLogView, TransactionType};
use crate::principal::{Principal, PrincipalId};

verus! {

/// The state after one entry has been added to the history.
pub open spec fn logged(
    s: VaultState,
    now: u64,
    from: PrincipalId,
    to: PrincipalId,
    amount: i128,
    transaction_type: TransactionType,
) -> VaultState {
    VaultState {
        transactions: s.transactions.push(
            TransactionLogView { from, to, amount, timestamp: now, transaction_type },
        ),
        ..s
    }
}

/// Logs a transaction at the end of the vault's history, stamped with `now`.
pub fn log_transaction(
    storage: &mut VaultStorage,
    now: u64,
    from: &Principal,
    to: &Principal,
    amount: i128,
    transaction_type: TransactionType,
)
    requires
        old(storage).wf(),
    ensures
        final(storage).wf(),
        final(storage)@ == logged(old(storage)@, now, from@, to@, amount, transaction_type),
{
    let transaction = TransactionLog {
        from: from.clone(),
        to: to.clone(),
        amount,
        timestamp: now,
        transaction_type,
    };
    append_transaction(storage, transaction);
}

/// The vault's history, oldest entry first.
pub fn get_transaction_history(storage: &VaultStorage) -> (history: Vec<TransactionLog>)
    ensures
        history@.len() == storage@.transactions.len(),
        forall|i: int| 0 <= i < history@.len() ==> history@[i]@ == storage@.transactions[i],
{
    let mut history: Vec<TransactionLog> = Vec::new();
    let n = transaction_count(storage);
    let mut i: usize = 0;
    while i < n
        invariant
            n == storage@.transactions.len(),
            i <= n,
            history@.len() == i,
            forall|j: int| 0 <= j < i ==> history@[j]@ == storage@.transactions[j],
        decreases n - i,
    {
        history.push(transaction_at(storage, i).clone());
        i += 1;
    }
    history
}

} // verus!
