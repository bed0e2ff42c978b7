use vstd::prelude::*;
use crate::principal::{Principal, PrincipalId};
use crate::sensory_evaluation::storage::{
    load_balance, load_next_stake_id, load_stakes, store_balance, store_next_stake_id,
    store_stakes, SensoryState, SensoryStorage,
};
use crate::sensory_evaluation::types::{SensoryError, Stake, StakeList};

verus! {

/// Staking: the amount leaves the staker's balance, which must cover it, and is
/// recorded as a stake under the next identifier.
pub open spec fn stake_step(
    s: SensoryState,
    now: u64,
    staker: PrincipalId,
    amount: u128,
    duration: u64,
) -> (SensoryState, Result<(), SensoryError>) {
    if s.balance_of(staker) < amount {
        (s, Err(SensoryError::InsufficientBalance))
    } else {
        let stake = Stake {
            id: s.next_stake_id,
            amount,
            start_time: now,
            duration,
            claimed: false,
        };
        (
            SensoryState {
                balances: s.balances.insert(staker, (s.balance_of(staker) - amount) as u128),
                stakes: s.stakes.insert(staker, s.stakes_of(staker).push(stake)),
                next_stake_id: (s.next_stake_id + 1) as u32,
                ..s
            },
            Ok(()),
        )
    }
}

/// Unstaking: the stake at place `stake_id` of the staker's list, counted from zero,
/// is marked as claimed once its duration has passed, and its amount goes back to the
/// staker's balance.
pub open spec fn unstake_step(s: SensoryState, now: u64, staker: PrincipalId, stake_id: u32) -> (
    SensoryState,
    Result<(), SensoryError>,
) {
    let stakes = s.stakes_of(staker);
    if stake_id >= stakes.len() {
        (s, Err(SensoryError::StakeNotFound))
    } else {
        let stake = stakes[stake_id as int];
        if now < stake.start_time + stake.duration {
            (s, Err(SensoryError::StakeLocked))
        } else if stake.claimed {
            (s, Err(SensoryError::StakeClaimed))
        } else {
            (
                SensoryState {
                    stakes: s.stakes.insert(
                        staker,
                        stakes.update(stake_id as int, Stake { claimed: true, ..stake }),
                    ),
                    balances: s.balances.insert(
                        staker,
                        (s.balance_of(staker) + stake.amount) as u128,
                    ),
                    ..s
                },
                Ok(()),
            )
        }
    }
}

/// Whether paying back the stake at place `stake_id` keeps the staker's balance within
/// the range of its type.
pub open spec fn unstake_has_room(s: SensoryState, staker: PrincipalId, stake_id: u32) -> bool {
    stake_id < s.stakes_of(staker).len() ==> s.balance_of(staker) + s.stakes_of(
        staker,
    )[stake_id as int].amount <= u128::MAX
}

/// Whether the balance of `staker` has room for the amount of the stake at place
/// `stake_id`. True where there is no such stake.
pub fn has_unstake_room(storage: &SensoryStorage, staker: &Principal, stake_id: u32) -> (room: bool)
    requires
        storage.wf(),
    ensures
        room == unstake_has_room(storage@, staker@, stake_id),
{
    let stakes = load_stakes(storage, staker);
    match stakes.get(stake_id as usize) {
        Some(stake) => load_balance(storage, staker) <= u128::MAX - stake.amount,
        None => true,
    }
}

/// Stakes `amount` tokens of `staker` for `duration` seconds from `now`.
pub fn stake_tokens(
    storage: &mut SensoryStorage,
    now: u64,
    staker: &Principal,
    amount: u128,
    duration: u64,
) -> (result: Result<(), SensoryError>)
    requires
        old(storage).wf(),
        stake_step(old(storage)@, now, staker@, amount, duration).1 is Ok ==> old(
            storage,
        )@.next_stake_id < u32::MAX,
    ensures
        final(storage).wf(),
        (final(storage)@, result) == stake_step(old(storage)@, now, staker@, amount, duration),
{
    let current_balance = load_balance(storage, staker);
    if current_balance < amount {
        return Err(SensoryError::InsufficientBalance);
    }
    store_balance(storage, staker, current_balance - amount);
    let stake_id = load_next_stake_id(storage);
    let stake = Stake { id: stake_id, amount, start_time: now, duration, claimed: false };
    let mut stakes = load_stakes(storage, staker);
    stakes.push_back(stake);
    store_stakes(storage, staker, stakes);
    store_next_stake_id(storage, stake_id + 1);
    Ok(())
}

/// Pays back the stake at place `stake_id` of the list of `staker`.
pub fn unstake_tokens(storage: &mut SensoryStorage, now: u64, staker: &Principal, stake_id: u32) -> (result:
    Result<(), SensoryError>)
    requires
        old(storage).wf(),
        unstake_step(old(storage)@, now, staker@, stake_id).1 is Ok ==> unstake_has_room(
            old(storage)@,
            staker@,
            stake_id,
        ),
    ensures
        final(storage).wf(),
        (final(storage)@, result) == unstake_step(old(storage)@, now, staker@, stake_id),
{
    let mut stakes = load_stakes(storage, staker);
    let mut stake = match stakes.get(stake_id as usize) {
        Some(stake) => stake,
        None => {
            return Err(SensoryError::StakeNotFound);
        },
    };
    if (now as u128) < stake.start_time as u128 + stake.duration as u128 {
        return Err(SensoryError::StakeLocked);
    }
    if stake.claimed {
        return Err(SensoryError::StakeClaimed);
    }
    stake.claimed = true;
    stakes.set(stake_id as usize, stake);
    store_stakes(storage, staker, stakes);
    let current_balance = load_balance(storage, staker);
    store_balance(storage, staker, current_balance + stake.amount);
    Ok(())
}

/// The stakes of `user`, oldest first.
pub fn get_stakes(storage: &SensoryStorage, user: &Principal) -> (stakes: StakeList)
    requires
        storage.wf(),
    ensures
        stakes@ == storage@.stakes_of(user@),
{
    load_stakes(storage, user)
}

} // verus!
