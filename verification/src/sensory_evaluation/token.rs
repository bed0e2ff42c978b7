use vstd::prelude::*;
use crate::principal::{Principal, PrincipalId};
use crate::sensory_evaluation::admin::is_admin;
use crate::sensory_evaluation::storage::{
    get_max_supply, load_balance, load_total_supply, store_balance, store_total_supply,
    SensoryState, SensoryStorage,
};
use crate::sensory_evaluation::types::SensoryError;

verus! {

/// Minting by an administrator: the amount is added to the receiver's balance and to
/// the supply, which may not pass its maximum.
pub open spec fn mint_step(s: SensoryState, caller: PrincipalId, to: PrincipalId, amount: u128) -> (
    SensoryState,
    Result<(), SensoryError>,
) {
    if !s.is_admin(caller) {
        (s, Err(SensoryError::NotAdmin))
    } else if s.token is None {
        (s, Err(SensoryError::NotInitialized))
    } else if s.total_supply + amount > s.token->0.max_supply {
        (s, Err(SensoryError::SupplyExceeded))
    } else {
        (
            SensoryState {
                balances: s.balances.insert(to, (s.balance_of(to) + amount) as u128),
                total_supply: (s.total_supply + amount) as u128,
                ..s
            },
            Ok(()),
        )
    }
}

/// Burning by an administrator: the amount leaves the holder's balance and the supply.
pub open spec fn burn_step(s: SensoryState, caller: PrincipalId, from: PrincipalId, amount: u128) -> (
    SensoryState,
    Result<(), SensoryError>,
) {
    if !s.is_admin(caller) {
        (s, Err(SensoryError::NotAdmin))
    } else if s.balance_of(from) < amount {
        (s, Err(SensoryError::InsufficientBalance))
    } else {
        (
            SensoryState {
                balances: s.balances.insert(from, (s.balance_of(from) - amount) as u128),
                total_supply: (s.total_supply - amount) as u128,
                ..s
            },
            Ok(()),
        )
    }
}

/// The balances after `amount` has moved from `from` to `to`. Moving to oneself leaves
/// the balance as it was.
pub open spec fn moved(
    balances: Map<PrincipalId, u128>,
    from: PrincipalId,
    to: PrincipalId,
    amount: u128,
) -> Map<PrincipalId, u128> {
    let held = if balances.contains_key(from) {
        balances[from]
    } else {
        0
    };
    let debited = balances.insert(from, (held - amount) as u128);
    let received = if debited.contains_key(to) {
        debited[to]
    } else {
        0
    };
    debited.insert(to, (received + amount) as u128)
}

/// Transfer: the amount moves from the sender's balance, which must cover it, to the
/// receiver's.
pub open spec fn transfer_step(s: SensoryState, from: PrincipalId, to: PrincipalId, amount: u128) -> (
    SensoryState,
    Result<(), SensoryError>,
) {
    if s.balance_of(from) < amount {
        (s, Err(SensoryError::InsufficientBalance))
    } else {
        (SensoryState { balances: moved(s.balances, from, to, amount), ..s }, Ok(()))
    }
}

/// Whether the receiver's balance has room for the amount of a transfer.
pub open spec fn transfer_has_room(
    s: SensoryState,
    from: PrincipalId,
    to: PrincipalId,
    amount: u128,
) -> bool {
    if from == to {
        true
    } else {
        s.balance_of(to) + amount <= u128::MAX
    }
}

/// Whether the balance of `to` has room for `amount` coming from `from`.
pub fn has_transfer_room(storage: &SensoryStorage, from: &Principal, to: &Principal, amount: u128) -> (room:
    bool)
    requires
        storage.wf(),
    ensures
        room == transfer_has_room(storage@, from@, to@, amount),
{
    *from == *to || load_balance(storage, to) <= u128::MAX - amount
}

/// Mints `amount` tokens to `to` on behalf of the administrator `caller`.
pub fn mint_tokens(storage: &mut SensoryStorage, caller: &Principal, to: &Principal, amount: u128) -> (result:
    Result<(), SensoryError>)
    requires
        old(storage).wf(),
        mint_step(old(storage)@, caller@, to@, amount).1 is Ok ==> old(storage)@.balance_of(to@)
            + amount <= u128::MAX,
    ensures
        final(storage).wf(),
        (final(storage)@, result) == mint_step(old(storage)@, caller@, to@, amount),
{
    if !is_admin(storage, caller) {
        return Err(SensoryError::NotAdmin);
    }
    let max_supply = match get_max_supply(storage) {
        Some(max_supply) => max_supply,
        None => {
            return Err(SensoryError::NotInitialized);
        },
    };
    let total_supply = load_total_supply(storage);
    if total_supply > max_supply || amount > max_supply - total_supply {
        return Err(SensoryError::SupplyExceeded);
    }
    let current_balance = load_balance(storage, to);
    store_balance(storage, to, current_balance + amount);
    store_total_supply(storage, total_supply + amount);
    Ok(())
}

/// Burns `amount` tokens of `from` on behalf of the administrator `caller`.
pub fn burn_tokens(storage: &mut SensoryStorage, caller: &Principal, from: &Principal, amount: u128) -> (result:
    Result<(), SensoryError>)
    requires
        old(storage).wf(),
        burn_step(old(storage)@, caller@, from@, amount).1 is Ok ==> amount <= old(
            storage,
        )@.total_supply,
    ensures
        final(storage).wf(),
        (final(storage)@, result) == burn_step(old(storage)@, caller@, from@, amount),
{
    if !is_admin(storage, caller) {
        return Err(SensoryError::NotAdmin);
    }
    let current_balance = load_balance(storage, from);
    if current_balance < amount {
        return Err(SensoryError::InsufficientBalance);
    }
    store_balance(storage, from, current_balance - amount);
    let total_supply = load_total_supply(storage);
    store_total_supply(storage, total_supply - amount);
    Ok(())
}

/// Transfers `amount` tokens from `from` to `to`.
pub fn transfer_tokens(storage: &mut SensoryStorage, from: &Principal, to: &Principal, amount: u128) -> (result:
    Result<(), SensoryError>)
    requires
        old(storage).wf(),
        transfer_step(old(storage)@, from@, to@, amount).1 is Ok ==> transfer_has_room(
            old(storage)@,
            from@,
            to@,
            amount,
        ),
    ensures
        final(storage).wf(),
        (final(storage)@, result) == transfer_step(old(storage)@, from@, to@, amount),
{
    let current_balance = load_balance(storage, from);
    if current_balance < amount {
        return Err(SensoryError::InsufficientBalance);
    }
    store_balance(storage, from, current_balance - amount);
    let receiver_balance = load_balance(storage, to);
    store_balance(storage, to, receiver_balance + amount);
    Ok(())
}

/// The balance of `user`.
pub fn get_balance(storage: &SensoryStorage, user: &Principal) -> (balance: u128)
    requires
        storage.wf(),
    ensures
        balance == storage@.balance_of(user@),
{
    load_balance(storage, user)
}

/// The total supply.
pub fn get_total_supply(storage: &SensoryStorage) -> (total: u128)
    ensures
        total == storage@.total_supply,
{
    load_total_supply(storage)
}

} // verus!
