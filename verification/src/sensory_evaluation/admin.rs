use vstd::prelude::*;
use crate::principal::{without, Principal, PrincipalId, PrincipalList};
use crate::sensory_evaluation::storage::{
    load_admins, store_admins, store_next_stake_id, store_token_info, store_total_supply,
    SensoryState, SensoryStorage,
};
use crate::sensory_evaluation::types::{SensoryError, TokenInfo, TokenInfoView};

verus! {

/// Initialization: fixes the token's parameters and administrators and resets the
/// supply to zero and the stake counter to 1. Balances and stakes stay.
pub open spec fn initialize_step(
    s: SensoryState,
    admins: Seq<PrincipalId>,
    token_name: Seq<char>,
    token_symbol: Seq<char>,
    max_supply: u128,
    decimals: u32,
) -> (SensoryState, Result<(), SensoryError>) {
    if admins.len() == 0 {
        (s, Err(SensoryError::NoAdmins))
    } else {
        (
            SensoryState {
                token: Some(
                    TokenInfoView { name: token_name, symbol: token_symbol, max_supply, decimals },
                ),
                admins,
                total_supply: 0,
                next_stake_id: 1,
                ..s
            },
            Ok(()),
        )
    }
}

/// Adding an administrator: only an administrator may, and nobody is added twice.
pub open spec fn add_admin_step(s: SensoryState, caller: PrincipalId, new_admin: PrincipalId) -> (
    SensoryState,
    Result<(), SensoryError>,
) {
    if !s.is_admin(caller) {
        (s, Err(SensoryError::NotAdmin))
    } else if s.admins.contains(new_admin) {
        (s, Err(SensoryError::AdminExists))
    } else {
        (SensoryState { admins: s.admins.push(new_admin), ..s }, Ok(()))
    }
}

/// Removing an administrator: only an administrator may, and not while there is but
/// one. Every entry that is `admin` leaves the list.
pub open spec fn remove_admin_step(s: SensoryState, caller: PrincipalId, admin: PrincipalId) -> (
    SensoryState,
    Result<(), SensoryError>,
) {
    if !s.is_admin(caller) {
        (s, Err(SensoryError::NotAdmin))
    } else if s.admins.len() <= 1 {
        (s, Err(SensoryError::LastAdmin))
    } else {
        (SensoryState { admins: without(s.admins, admin), ..s }, Ok(()))
    }
}

/// Initializes the token with its administrators, name, symbol, maximum supply and
/// number of decimals.
pub fn initialize(
    storage: &mut SensoryStorage,
    admins: PrincipalList,
    token_name: String,
    token_symbol: String,
    max_supply: u128,
    decimals: u32,
) -> (result: Result<(), SensoryError>)
    requires
        old(storage).wf(),
    ensures
        final(storage).wf(),
        (final(storage)@, result) == initialize_step(
            old(storage)@,
            admins@,
            token_name@,
            token_symbol@,
            max_supply,
            decimals,
        ),
{
    if admins.is_empty() {
        return Err(SensoryError::NoAdmins);
    }
    store_admins(storage, admins);
    store_token_info(
        storage,
        TokenInfo { name: token_name, symbol: token_symbol, max_supply, decimals },
    );
    store_total_supply(storage, 0);
    store_next_stake_id(storage, 1);
    Ok(())
}

/// Whether `caller` is an administrator.
pub fn is_admin(storage: &SensoryStorage, caller: &Principal) -> (admin: bool)
    ensures
        admin == storage@.is_admin(caller@),
{
    let admins = load_admins(storage);
    admins.contains(caller)
}

/// Adds `new_admin` to the administrators on behalf of `caller`.
pub fn add_admin(storage: &mut SensoryStorage, caller: &Principal, new_admin: Principal) -> (result:
    Result<(), SensoryError>)
    requires
        old(storage).wf(),
    ensures
        final(storage).wf(),
        (final(storage)@, result) == add_admin_step(old(storage)@, caller@, new_admin@),
{
    if !is_admin(storage, caller) {
        return Err(SensoryError::NotAdmin);
    }
    let mut admins = load_admins(storage);
    if admins.contains(&new_admin) {
        return Err(SensoryError::AdminExists);
    }
    admins.push_back(new_admin);
    store_admins(storage, admins);
    Ok(())
}

/// Removes `admin` from the administrators on behalf of `caller`.
pub fn remove_admin(storage: &mut SensoryStorage, caller: &Principal, admin: &Principal) -> (result:
    Result<(), SensoryError>)
    requires
        old(storage).wf(),
    ensures
        final(storage).wf(),
        (final(storage)@, result) == remove_admin_step(old(storage)@, caller@, admin@),
{
    if !is_admin(storage, caller) {
        return Err(SensoryError::NotAdmin);
    }
    let admins = load_admins(storage);
    if admins.len() <= 1 {
        return Err(SensoryError::LastAdmin);
    }
    let new_admins = admins.without(admin);
    store_admins(storage, new_admins);
    Ok(())
}

/// The administrators, in the order in which they were listed.
pub fn get_admins(storage: &SensoryStorage) -> (admins: PrincipalList)
    ensures
        admins@ == storage@.admins,
{
    load_admins(storage)
}

} // verus!
