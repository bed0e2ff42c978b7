use vstd::prelude::*;
use crate::principal::{Principal, PrincipalId};
use crate::tokenized_incentive::admin::check_admin;
use crate::tokenized_incentive::storage::{
    load_balance, load_next_schedule_id, load_schedule, store_balance, store_next_schedule_id,
    store_schedule, IncentiveState, IncentiveStorage,
};
use crate::tokenized_incentive::types::{IncentiveError, VestingSchedule, VestingScheduleView};

verus! {

/// The part of a schedule's amount that has vested at `now`: all of it once the
/// duration has passed, before that the share of the duration that has passed,
/// rounded down.
pub open spec fn vested_amount(schedule: VestingScheduleView, now: u64) -> int {
    let elapsed = now - schedule.start_time;
    if elapsed >= schedule.duration {
        schedule.total_amount as int
    } else {
        schedule.total_amount * elapsed / (schedule.duration as int)
    }
}

/// Creating a vesting schedule under the next identifier. The duration must be above
/// zero and the cliff within it. The caller's own role is not asked for.
pub open spec fn create_vesting_schedule_step(
    s: IncentiveState,
    recipient: PrincipalId,
    total_amount: u64,
    start_time: u64,
    duration: u64,
    cliff: u64,
) -> (IncentiveState, Result<u32, IncentiveError>) {
    if s.admins is None {
        (s, Err(IncentiveError::NotInitialized))
    } else if duration == 0 {
        (s, Err(IncentiveError::InvalidDuration))
    } else if cliff > duration {
        (s, Err(IncentiveError::CliffExceedsDuration))
    } else {
        let id = s.next_schedule_id;
        (
            IncentiveState {
                schedules: s.schedules.insert(
                    (recipient, id),
                    VestingScheduleView {
                        id,
                        recipient,
                        total_amount,
                        released_amount: 0,
                        start_time,
                        duration,
                        cliff,
                    },
                ),
                next_schedule_id: (id + 1) as u32,
                ..s
            },
            Ok(id),
        )
    }
}

/// Releasing vested funds: once the cliff has been reached, what has vested and not
/// been released yet goes to the recipient's balance.
pub open spec fn release_step(
    s: IncentiveState,
    now: u64,
    caller: PrincipalId,
    recipient: PrincipalId,
    schedule_id: u32,
) -> (IncentiveState, Result<(), IncentiveError>) {
    if !s.schedules.contains_key((recipient, schedule_id)) {
        (s, Err(IncentiveError::ScheduleNotFound))
    } else {
        let schedule = s.schedules[(recipient, schedule_id)];
        let releasable = vested_amount(schedule, now) - schedule.released_amount;
        if caller != schedule.recipient {
            (s, Err(IncentiveError::NotRecipient))
        } else if now < schedule.start_time + schedule.cliff {
            (s, Err(IncentiveError::CliffNotReached))
        } else if releasable == 0 {
            (s, Err(IncentiveError::NothingToRelease))
        } else {
            (
                IncentiveState {
                    schedules: s.schedules.insert(
                        (recipient, schedule_id),
                        VestingScheduleView {
                            released_amount: (schedule.released_amount + releasable) as u64,
                            ..schedule
                        },
                    ),
                    balances: s.balances.insert(
                        recipient,
                        (s.balance_of(recipient) + releasable) as u64,
                    ),
                    ..s
                },
                Ok(()),
            )
        }
    }
}

/// Whether a release that gets past the cliff stays within the range of the amounts:
/// no more has been released than has vested, and the recipient's balance has room.
pub open spec fn release_within_limits(
    s: IncentiveState,
    now: u64,
    caller: PrincipalId,
    recipient: PrincipalId,
    schedule_id: u32,
) -> bool {
    let schedule = s.schedules[(recipient, schedule_id)];
    (s.schedules.contains_key((recipient, schedule_id)) && caller == schedule.recipient && now
        >= schedule.start_time + schedule.cliff) ==> {
        &&& schedule.released_amount <= vested_amount(schedule, now)
        &&& s.balance_of(recipient) + vested_amount(schedule, now) - schedule.released_amount
            <= u64::MAX
    }
}

/// A share of an amount is no more than the amount.
proof fn lemma_share_is_bounded(total: int, elapsed: int, duration: int)
    requires
        0 <= total,
        0 <= elapsed < duration,
    ensures
        0 <= total * elapsed / duration <= total,
{
    assert(0 <= total * elapsed <= total * duration) by (nonlinear_arith)
        requires
            0 <= total,
            0 <= elapsed < duration,
    ;
    assert(0 <= total * elapsed / duration <= total) by (nonlinear_arith)
        requires
            0 <= total * elapsed <= total * duration,
            0 < duration,
    ;
}

/// The part of `schedule` that has vested at `now`, which must not lie before the
/// schedule's start.
fn vested(schedule: &VestingSchedule, now: u64) -> (amount: u64)
    requires
        now >= schedule.start_time,
    ensures
        amount == vested_amount(schedule@, now),
{
    let elapsed = now - schedule.start_time;
    if elapsed >= schedule.duration {
        schedule.total_amount
    } else {
        proof {
            lemma_share_is_bounded(
                schedule.total_amount as int,
                elapsed as int,
                schedule.duration as int,
            );
            assert(schedule.total_amount * elapsed <= 0xffff_ffff_ffff_ffff * 0xffff_ffff_ffff_ffff)
                by (nonlinear_arith)
                requires
                    0 <= schedule.total_amount <= 0xffff_ffff_ffff_ffff,
                    0 <= elapsed <= 0xffff_ffff_ffff_ffff,
            ;
        }
        ((schedule.total_amount as u128 * elapsed as u128) / schedule.duration as u128) as u64
    }
}

/// Whether a release asked for by `caller` at `now` stays within the range of the
/// amounts. True where the release would be refused before any amount is computed.
pub fn is_release_within_limits(
    storage: &IncentiveStorage,
    now: u64,
    caller: &Principal,
    recipient: &Principal,
    schedule_id: u32,
) -> (within: bool)
    requires
        storage.wf(),
    ensures
        within == release_within_limits(storage@, now, caller@, recipient@, schedule_id),
{
    let schedule = match load_schedule(storage, recipient, schedule_id) {
        Some(schedule) => schedule,
        None => {
            return true;
        },
    };
    if *caller != schedule.recipient {
        return true;
    }
    if (now as u128) < schedule.start_time as u128 + schedule.cliff as u128 {
        return true;
    }
    let vested_amount = vested(&schedule, now);
    if schedule.released_amount > vested_amount {
        return false;
    }
    let balance = load_balance(storage, recipient);
    balance <= u64::MAX - (vested_amount - schedule.released_amount)
}

/// Creates a vesting schedule for `recipient` and returns its identifier.
pub fn create_vesting_schedule(
    storage: &mut IncentiveStorage,
    caller: &Principal,
    recipient: &Principal,
    total_amount: u64,
    start_time: u64,
    duration: u64,
    cliff: u64,
) -> (result: Result<u32, IncentiveError>)
    requires
        old(storage).wf(),
        create_vesting_schedule_step(
            old(storage)@,
            recipient@,
            total_amount,
            start_time,
            duration,
            cliff,
        ).1 is Ok ==> old(storage)@.next_schedule_id < u32::MAX,
    ensures
        final(storage).wf(),
        (final(storage)@, result) == create_vesting_schedule_step(
            old(storage)@,
            recipient@,
            total_amount,
            start_time,
            duration,
            cliff,
        ),
{
    if check_admin(storage, caller).is_none() {
        return Err(IncentiveError::NotInitialized);
    }
    if duration == 0 {
        return Err(IncentiveError::InvalidDuration);
    }
    if cliff > duration {
        return Err(IncentiveError::CliffExceedsDuration);
    }
    let schedule_id = load_next_schedule_id(storage);
    let schedule = VestingSchedule {
        id: schedule_id,
        recipient: recipient.clone(),
        total_amount,
        released_amount: 0,
        start_time,
        duration,
        cliff,
    };
    store_schedule(storage, recipient, schedule_id, &schedule);
    store_next_schedule_id(storage, schedule_id + 1);
    Ok(schedule_id)
}

/// Releases to `recipient` what has vested of the schedule and has not been released.
pub fn release_vested_funds(
    storage: &mut IncentiveStorage,
    now: u64,
    caller: &Principal,
    recipient: &Principal,
    schedule_id: u32,
) -> (result: Result<(), IncentiveError>)
    requires
        old(storage).wf(),
        release_within_limits(old(storage)@, now, caller@, recipient@, schedule_id),
    ensures
        final(storage).wf(),
        (final(storage)@, result) == release_step(
            old(storage)@,
            now,
            caller@,
            recipient@,
            schedule_id,
        ),
{
    let mut schedule = match load_schedule(storage, recipient, schedule_id) {
        Some(schedule) => schedule,
        None => {
            return Err(IncentiveError::ScheduleNotFound);
        },
    };
    if *caller != schedule.recipient {
        return Err(IncentiveError::NotRecipient);
    }
    if (now as u128) < schedule.start_time as u128 + schedule.cliff as u128 {
        return Err(IncentiveError::CliffNotReached);
    }
    let vested_amount = vested(&schedule, now);
    let releasable = vested_amount - schedule.released_amount;
    if releasable == 0 {
        return Err(IncentiveError::NothingToRelease);
    }
    schedule.released_amount += releasable;
    store_schedule(storage, recipient, schedule_id, &schedule);
    let balance = load_balance(storage, recipient);
    store_balance(storage, recipient, balance + releasable);
    Ok(())
}

/// The vesting schedule of `recipient` with the identifier `schedule_id`.
pub fn get_vesting_schedule(storage: &IncentiveStorage, recipient: &Principal, schedule_id: u32) -> (result:
    Result<VestingSchedule, IncentiveError>)
    requires
        storage.wf(),
    ensures
        match result {
            Ok(schedule) => storage@.schedules.contains_key((recipient@, schedule_id))
                && schedule@ == storage@.schedules[(recipient@, schedule_id)],
            Err(error) => !storage@.schedules.contains_key((recipient@, schedule_id)) && error
                == IncentiveError::ScheduleNotFound,
        },
{
    match load_schedule(storage, recipient, schedule_id) {
        Some(schedule) => Ok(schedule),
        None => Err(IncentiveError::ScheduleNotFound),
    }
}

} // verus!
