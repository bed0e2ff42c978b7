use vstd::prelude::*;
use crate::principal::PrincipalId;
use crate::tokenized_incentive::storage::IncentiveState;
use crate::tokenized_incentive::types::VestingScheduleView;
use crate::tokenized_incentive::vesting::{
    create_vesting_schedule_step, release_step, release_within_limits, vested_amount,
};

verus! {

/// From its start on, what has vested of a schedule lies between nothing and the
/// schedule's whole amount, and it is the whole amount once the duration has passed.
pub proof fn law_vested_amount_is_bounded(schedule: VestingScheduleView, now: u64)
    requires
        now >= schedule.start_time,
    ensures
        0 <= vested_amount(schedule, now) <= schedule.total_amount,
        now - schedule.start_time >= schedule.duration ==> vested_amount(schedule, now)
            == schedule.total_amount,
{
    let elapsed = now - schedule.start_time;
    if elapsed < schedule.duration {
        let total = schedule.total_amount as int;
        let duration = schedule.duration as int;
        assert(0 <= total * elapsed <= total * duration) by (nonlinear_arith)
            requires
                0 <= total,
                0 <= elapsed < duration,
        ;
        assert(0 <= total * elapsed / duration <= total) by (nonlinear_arith)
            requires
                0 <= total * elapsed <= total * duration,
                0 < duration,
        ;
    }
}

/// As time goes on, no less has vested.
pub proof fn law_vesting_never_goes_back(schedule: VestingScheduleView, now: u64, later: u64)
    requires
        schedule.start_time <= now <= later,
    ensures
        vested_amount(schedule, now) <= vested_amount(schedule, later),
{
    law_vested_amount_is_bounded(schedule, now);
    law_vested_amount_is_bounded(schedule, later);
    let total = schedule.total_amount as int;
    let duration = schedule.duration as int;
    let first = now - schedule.start_time;
    let second = later - schedule.start_time;
    if second < duration {
        assert(total * first <= total * second) by (nonlinear_arith)
            requires
                0 <= total,
                0 <= first <= second,
        ;
        assert(total * first / duration <= total * second / duration) by (nonlinear_arith)
            requires
                total * first <= total * second,
                0 < duration,
        ;
    }
}

/// A release that goes through hands the recipient exactly what has vested and had not
/// been released, after which the schedule counts as released what has vested; a
/// second release at the same time finds nothing to release and changes nothing.
pub proof fn law_release_hands_out_what_has_vested(
    s: IncentiveState,
    now: u64,
    caller: PrincipalId,
    recipient: PrincipalId,
    schedule_id: u32,
)
    requires
        release_step(s, now, caller, recipient, schedule_id).1 is Ok,
        release_within_limits(s, now, caller, recipient, schedule_id),
    ensures
        ({
            let schedule = s.schedules[(recipient, schedule_id)];
            let released = release_step(s, now, caller, recipient, schedule_id).0;
            let again = release_step(released, now, caller, recipient, schedule_id);
            &&& released.schedules[(recipient, schedule_id)].released_amount == vested_amount(
                schedule,
                now,
            )
            &&& released.balance_of(recipient) == s.balance_of(recipient) + vested_amount(
                schedule,
                now,
            ) - schedule.released_amount
            &&& released.total_supply == s.total_supply
            &&& again.0 == released
            &&& again.1 is Err
        }),
{
    law_vested_amount_is_bounded(s.schedules[(recipient, schedule_id)], now);
}

/// A schedule that has just been created has released nothing, and nothing can be
/// released from it before its cliff.
pub proof fn law_nothing_is_released_before_the_cliff(
    s: IncentiveState,
    recipient: PrincipalId,
    total_amount: u64,
    start_time: u64,
    duration: u64,
    cliff: u64,
    now: u64,
    caller: PrincipalId,
)
    requires
        create_vesting_schedule_step(s, recipient, total_amount, start_time, duration, cliff).1
            is Ok,
        now < start_time + cliff,
    ensures
        ({
            let (created, id) = create_vesting_schedule_step(
                s,
                recipient,
                total_amount,
                start_time,
                duration,
                cliff,
            );
            let key = (recipient, id->Ok_0);
            &&& created.schedules[key].released_amount == 0
            &&& cliff <= duration
            &&& release_step(created, now, caller, recipient, id->Ok_0).1 is Err
            &&& release_step(created, now, caller, recipient, id->Ok_0).0 == created
        }),
{
}

} // verus!
