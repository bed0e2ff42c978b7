use vstd::prelude::*;
use crate::principal::{Principal, PrincipalId};
use crate::tokenized_incentive::admin::{check_admin, has_majority, require_multi_sig};
use crate::tokenized_incentive::storage::{
    load_balance, load_max_supply, load_total_supply, store_balance, store_total_supply,
    IncentiveState, IncentiveStorage,
};
use crate::tokenized_incentive::types::{AdminAction, AdminActionView, IncentiveError};

verus! {

/// Minting: once a majority has approved minting this amount to this receiver, the
/// amount is added to the receiver's balance and to the supply, which may not pass its
/// maximum.
pub open spec fn mint_step(s: IncentiveState, to: PrincipalId, amount: u64) -> (
    IncentiveState,
    Result<(), IncentiveError>,
) {
    if s.admins is None {
        (s, Err(IncentiveError::NotInitialized))
    } else if !has_majority(s, AdminActionView::Mint(to, amount)) {
        (s, Err(IncentiveError::ApprovalRequired))
    } else if s.total_supply + amount > s.max_supply {
        (s, Err(IncentiveError::SupplyExceeded))
    } else {
        (
            IncentiveState {
                balances: s.balances.insert(to, (s.balance_of(to) + amount) as u64),
                total_supply: (s.total_supply + amount) as u64,
                ..s
            },
            Ok(()),
        )
    }
}

/// Burning: once a majority has approved burning this amount of this holder, the
/// amount leaves the holder's balance, which must cover it, and the supply.
pub open spec fn burn_step(s: IncentiveState, from: PrincipalId, amount: u64) -> (
    IncentiveState,
    Result<(), IncentiveError>,
) {
    if s.admins is None {
        (s, Err(IncentiveError::NotInitialized))
    } else if !has_majority(s, AdminActionView::Burn(from, amount)) {
        (s, Err(IncentiveError::ApprovalRequired))
    } else if s.balance_of(from) < amount {
        (s, Err(IncentiveError::InsufficientBalance))
    } else {
        (
            IncentiveState {
                balances: s.balances.insert(from, (s.balance_of(from) - amount) as u64),
                total_supply: (s.total_supply - amount) as u64,
                ..s
            },
            Ok(()),
        )
    }
}

/// Transfer: the sender's balance, which must cover the amount, goes down by it, and
/// the receiver's goes up by it from where it stood before the call. A transfer to
/// oneself therefore raises the balance by the amount.
pub open spec fn transfer_step(s: IncentiveState, from: PrincipalId, to: PrincipalId, amount: u64) -> (
    IncentiveState,
    Result<(), IncentiveError>,
) {
    if s.balance_of(from) < amount {
        (s, Err(IncentiveError::InsufficientBalance))
    } else {
        (
            IncentiveState {
                balances: s.balances.insert(from, (s.balance_of(from) - amount) as u64).insert(
                    to,
                    (s.balance_of(to) + amount) as u64,
                ),
                ..s
            },
            Ok(()),
        )
    }
}

/// Mints `amount` tokens to `to` after multi-signature approval.
pub fn mint(storage: &mut IncentiveStorage, caller: &Principal, to: &Principal, amount: u64) -> (result:
    Result<(), IncentiveError>)
    requires
        old(storage).wf(),
        mint_step(old(storage)@, to@, amount).1 is Ok ==> old(storage)@.balance_of(to@) + amount
            <= u64::MAX,
    ensures
        final(storage).wf(),
        (final(storage)@, result) == mint_step(old(storage)@, to@, amount),
{
    if check_admin(storage, caller).is_none() {
        return Err(IncentiveError::NotInitialized);
    }
    let action = AdminAction::Mint(to.clone(), amount);
    match require_multi_sig(storage, &action) {
        Some(true) => {},
        _ => {
            return Err(IncentiveError::ApprovalRequired);
        },
    }
    let max_supply = load_max_supply(storage);
    let total_supply = load_total_supply(storage);
    if total_supply > max_supply || amount > max_supply - total_supply {
        return Err(IncentiveError::SupplyExceeded);
    }
    let balance = load_balance(storage, to);
    store_balance(storage, to, balance + amount);
    store_total_supply(storage, total_supply + amount);
    Ok(())
}

/// Burns `amount` tokens of `from` after multi-signature approval.
pub fn burn(storage: &mut IncentiveStorage, caller: &Principal, from: &Principal, amount: u64) -> (result:
    Result<(), IncentiveError>)
    requires
        old(storage).wf(),
        burn_step(old(storage)@, from@, amount).1 is Ok ==> amount <= old(storage)@.total_supply,
    ensures
        final(storage).wf(),
        (final(storage)@, result) == burn_step(old(storage)@, from@, amount),
{
    if check_admin(storage, caller).is_none() {
        return Err(IncentiveError::NotInitialized);
    }
    let action = AdminAction::Burn(from.clone(), amount);
    match require_multi_sig(storage, &action) {
        Some(true) => {},
        _ => {
            return Err(IncentiveError::ApprovalRequired);
        },
    }
    let balance = load_balance(storage, from);
    if balance < amount {
        return Err(IncentiveError::InsufficientBalance);
    }
    store_balance(storage, from, balance - amount);
    let total_supply = load_total_supply(storage);
    store_total_supply(storage, total_supply - amount);
    Ok(())
}

/// Transfers `amount` tokens from `from` to `to`.
pub fn transfer(storage: &mut IncentiveStorage, from: &Principal, to: &Principal, amount: u64) -> (result:
    Result<(), IncentiveError>)
    requires
        old(storage).wf(),
        transfer_step(old(storage)@, from@, to@, amount).1 is Ok ==> old(storage)@.balance_of(to@)
            + amount <= u64::MAX,
    ensures
        final(storage).wf(),
        (final(storage)@, result) == transfer_step(old(storage)@, from@, to@, amount),
{
    let from_balance = load_balance(storage, from);
    if from_balance < amount {
        return Err(IncentiveError::InsufficientBalance);
    }
    let to_balance = load_balance(storage, to);
    store_balance(storage, from, from_balance - amount);
    store_balance(storage, to, to_balance + amount);
    Ok(())
}

/// The balance of `account`.
pub fn get_balance(storage: &IncentiveStorage, account: &Principal) -> (balance: u64)
    requires
        storage.wf(),
    ensures
        balance == storage@.balance_of(account@),
{
    load_balance(storage, account)
}

/// The total supply.
pub fn get_total_supply(storage: &IncentiveStorage) -> (total: u64)
    ensures
        total == storage@.total_supply,
{
    load_total_supply(storage)
}

} // verus!
