use vstd::prelude::*;
use crate::asset_vault::storage::{add_admin_step, VaultState};
use crate::asset_vault::{
    deposit_step, initialize_step, lock_assets_step, locked_amount, withdraw_step,
};
use crate::principal::PrincipalId;

verus! {

/// A withdrawal that goes through leaves at least what is still locked, takes exactly
/// the amount from the balance it was asked to take it from, and leaves every other
/// balance and every lock as it was.
pub proof fn law_withdrawal_respects_locks(
    s: VaultState,
    now: u64,
    from: PrincipalId,
    to: PrincipalId,
    amount: i128,
    other: PrincipalId,
)
    requires
        withdraw_step(s, now, from, to, amount).1 is Ok,
    ensures
        ({
            let after = withdraw_step(s, now, from, to, amount).0;
            &&& after.balance_of(from) == s.balance_of(from) - amount
            &&& after.balance_of(from) >= locked_amount(after.locks_of(from), now)
            &&& other != from ==> after.balance_of(other) == s.balance_of(other)
            &&& after.locks == s.locks
        }),
{
}

/// A deposit, a withdrawal or a lock that is refused changes nothing, and one that goes
/// through adds exactly one entry at the end of the history, stamped with the time of
/// the call, and leaves the entries before it as they were.
pub proof fn law_history_grows_by_one_entry(
    s: VaultState,
    now: u64,
    from: PrincipalId,
    to: PrincipalId,
    amount: i128,
    release_time: u64,
    description: Seq<char>,
)
    ensures
        ({
            let deposited = deposit_step(s, now, from, amount);
            let withdrawn = withdraw_step(s, now, from, to, amount);
            let locked = lock_assets_step(s, now, from, amount, release_time, description);
            &&& deposited.1 is Err ==> deposited.0 == s
            &&& withdrawn.1 is Err ==> withdrawn.0 == s
            &&& locked.1 is Err ==> locked.0 == s
            &&& deposited.1 is Ok ==> deposited.0.transactions.drop_last() == s.transactions
                && deposited.0.transactions.last().timestamp == now
            &&& withdrawn.1 is Ok ==> withdrawn.0.transactions.drop_last() == s.transactions
                && withdrawn.0.transactions.last().timestamp == now
            &&& locked.1 is Ok ==> locked.0.transactions.drop_last() == s.transactions
                && locked.0.transactions.last().timestamp == now
        }),
{
    let deposited = deposit_step(s, now, from, amount);
    let withdrawn = withdraw_step(s, now, from, to, amount);
    let locked = lock_assets_step(s, now, from, amount, release_time, description);
    if deposited.1 is Ok {
        assert(deposited.0.transactions.drop_last() =~= s.transactions);
    }
    if withdrawn.1 is Ok {
        assert(withdrawn.0.transactions.drop_last() =~= s.transactions);
    }
    if locked.1 is Ok {
        assert(locked.0.transactions.drop_last() =~= s.transactions);
    }
}

/// Administrators are never removed: whoever is one stays one through initialization
/// and through the adding of others.
pub proof fn law_administrators_stay(
    s: VaultState,
    caller: PrincipalId,
    new_admin: PrincipalId,
    who: PrincipalId,
)
    requires
        s.is_admin(who),
    ensures
        initialize_step(s, new_admin).0.is_admin(who),
        add_admin_step(s, caller, new_admin).0.is_admin(who),
{
    let added = add_admin_step(s, caller, new_admin).0;
    if added != s {
        let i = choose|i: int| 0 <= i < s.admins->0.len() && s.admins->0[i] == who;
        assert(added.admins->0[i] == who);
    }
}

} // verus!
