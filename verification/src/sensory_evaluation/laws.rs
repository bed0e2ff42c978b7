use vstd::prelude::*;
use crate::principal::PrincipalId;
use crate::sensory_evaluation::staking::{stake_step, unstake_has_room, unstake_step};
use crate::sensory_evaluation::storage::SensoryState;
use crate::sensory_evaluation::token::{
    burn_step, mint_step, transfer_has_room, transfer_step,
};

verus! {

/// A transfer moves weight and makes none: what the sender loses the receiver gains,
/// a transfer to oneself changes no balance, nobody else's balance changes, and the
/// supply stays.
pub proof fn law_transfer_conserves_tokens(
    s: SensoryState,
    from: PrincipalId,
    to: PrincipalId,
    amount: u128,
    other: PrincipalId,
)
    requires
        transfer_step(s, from, to, amount).1 is Ok,
        transfer_has_room(s, from, to, amount),
    ensures
        ({
            let after = transfer_step(s, from, to, amount).0;
            &&& after.total_supply == s.total_supply
            &&& from == to ==> after.balance_of(from) == s.balance_of(from)
            &&& from != to ==> after.balance_of(from) == s.balance_of(from) - amount
            &&& from != to ==> after.balance_of(to) == s.balance_of(to) + amount
            &&& other != from && other != to ==> after.balance_of(other) == s.balance_of(other)
        }),
{
}

/// Minting and burning change the supply by what they change the one balance by, and
/// minting never takes the supply above its maximum.
pub proof fn law_supply_follows_mint_and_burn(
    s: SensoryState,
    caller: PrincipalId,
    holder: PrincipalId,
    amount: u128,
)
    ensures
        ({
            let minted = mint_step(s, caller, holder, amount);
            minted.1 is Ok && s.balance_of(holder) + amount <= u128::MAX ==> {
                &&& minted.0.total_supply == s.total_supply + amount
                &&& minted.0.balance_of(holder) == s.balance_of(holder) + amount
                &&& minted.0.total_supply <= s.token->0.max_supply
            }
        }),
        ({
            let burnt = burn_step(s, caller, holder, amount);
            burnt.1 is Ok && amount <= s.total_supply ==> {
                &&& burnt.0.total_supply == s.total_supply - amount
                &&& burnt.0.balance_of(holder) == s.balance_of(holder) - amount
            }
        }),
{
}

/// A stake that is paid back once its duration has passed leaves the staker with the
/// balance held before staking. The stake is the last of the staker's list, it is
/// marked as claimed, and it cannot be paid back again.
pub proof fn law_unstaking_restores_the_balance(
    s: SensoryState,
    now: u64,
    staker: PrincipalId,
    amount: u128,
    duration: u64,
    later: u64,
)
    requires
        stake_step(s, now, staker, amount, duration).1 is Ok,
        s.stakes_of(staker).len() < u32::MAX,
        later >= now + duration,
    ensures
        ({
            let staked = stake_step(s, now, staker, amount, duration).0;
            let place = s.stakes_of(staker).len() as u32;
            let unstaked = unstake_step(staked, later, staker, place);
            &&& staked.balance_of(staker) == s.balance_of(staker) - amount
            &&& unstake_has_room(staked, staker, place)
            &&& unstaked.1 is Ok
            &&& unstaked.0.balance_of(staker) == s.balance_of(staker)
            &&& unstaked.0.stakes_of(staker)[place as int].claimed
            &&& unstake_step(unstaked.0, later, staker, place).1 is Err
            &&& unstake_step(unstaked.0, later, staker, place).0 == unstaked.0
        }),
{
}

} // verus!
