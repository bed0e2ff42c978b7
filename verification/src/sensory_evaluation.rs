use vstd::prelude::*;
use crate::principal::{Principal, PrincipalList};
use crate::sensory_evaluation::admin::{add_admin_step, initialize_step, remove_admin_step};
use crate::sensory_evaluation::staking::{stake_step, unstake_has_room, unstake_step};
use crate::sensory_evaluation::storage::{SensoryState, SensoryStorage};
use crate::sensory_evaluation::token::{burn_step, mint_step, transfer_has_room, transfer_step};
use crate::sensory_evaluation::types::{SensoryError, StakeList};

pub mod admin;
pub mod laws;
pub mod staking;
pub mod storage;
pub mod token;
pub mod types;

verus! {

/// A capped token with administrators who mint and burn, transfers between holders,
/// and stakes that set part of a balance aside for a duration.
pub struct SensoryEvaluation {
    pub storage: SensoryStorage,
}

impl View for SensoryEvaluation {
    type V = SensoryState;

    open spec fn view(&self) -> SensoryState {
        self.storage@
    }
}

impl SensoryEvaluation {
    /// The records are well formed.
    pub open spec fn wf(&self) -> bool {
        self.storage.wf()
    }

    /// A token without records, not yet initialized.
    pub fn new() -> (token: SensoryEvaluation)
        ensures
            token.wf(),
            token@ == SensoryState::empty(),
    {
        SensoryEvaluation { storage: SensoryStorage::new() }
    }

    /// Initializes the token.
    pub fn initialize(
        &mut self,
        admins: PrincipalList,
        token_name: String,
        token_symbol: String,
        max_supply: u128,
        decimals: u32,
    ) -> (result: Result<(), SensoryError>)
        requires
            old(self).wf(),
        ensures
            final(self).wf(),
            (final(self)@, result) == initialize_step(
                old(self)@,
                admins@,
                token_name@,
                token_symbol@,
                max_supply,
                decimals,
            ),
    {
        admin::initialize(&mut self.storage, admins, token_name, token_symbol, max_supply, decimals)
    }

    /// Adds an administrator.
    pub fn add_admin(&mut self, caller: &Principal, new_admin: Principal) -> (result: Result<
        (),
        SensoryError,
    >)
        requires
            old(self).wf(),
        ensures
            final(self).wf(),
            (final(self)@, result) == add_admin_step(old(self)@, caller@, new_admin@),
    {
        admin::add_admin(&mut self.storage, caller, new_admin)
    }

    /// Removes an administrator.
    pub fn remove_admin(&mut self, caller: &Principal, admin: &Principal) -> (result: Result<
        (),
        SensoryError,
    >)
        requires
            old(self).wf(),
        ensures
            final(self).wf(),
            (final(self)@, result) == remove_admin_step(old(self)@, caller@, admin@),
    {
        admin::remove_admin(&mut self.storage, caller, admin)
    }

    /// Mints tokens.
    pub fn mint_tokens(&mut self, caller: &Principal, to: &Principal, amount: u128) -> (result:
        Result<(), SensoryError>)
        requires
            old(self).wf(),
            mint_step(old(self)@, caller@, to@, amount).1 is Ok ==> old(self)@.balance_of(to@)
                + amount <= u128::MAX,
        ensures
            final(self).wf(),
            (final(self)@, result) == mint_step(old(self)@, caller@, to@, amount),
    {
        token::mint_tokens(&mut self.storage, caller, to, amount)
    }

    /// Burns tokens.
    pub fn burn_tokens(&mut self, caller: &Principal, from: &Principal, amount: u128) -> (result:
        Result<(), SensoryError>)
        requires
            old(self).wf(),
            burn_step(old(self)@, caller@, from@, amount).1 is Ok ==> amount <= old(
                self,
            )@.total_supply,
        ensures
            final(self).wf(),
            (final(self)@, result) == burn_step(old(self)@, caller@, from@, amount),
    {
        token::burn_tokens(&mut self.storage, caller, from, amount)
    }

    /// Transfers tokens.
    pub fn transfer_tokens(&mut self, from: &Principal, to: &Principal, amount: u128) -> (result:
        Result<(), SensoryError>)
        requires
            old(self).wf(),
            transfer_step(old(self)@, from@, to@, amount).1 is Ok ==> transfer_has_room(
                old(self)@,
                from@,
                to@,
                amount,
            ),
        ensures
            final(self).wf(),
            (final(self)@, result) == transfer_step(old(self)@, from@, to@, amount),
    {
        token::transfer_tokens(&mut self.storage, from, to, amount)
    }

    /// Stakes tokens.
    pub fn stake_tokens(&mut self, now: u64, staker: &Principal, amount: u128, duration: u64) -> (result:
        Result<(), SensoryError>)
        requires
            old(self).wf(),
            stake_step(old(self)@, now, staker@, amount, duration).1 is Ok ==> old(
                self,
            )@.next_stake_id < u32::MAX,
        ensures
            final(self).wf(),
            (final(self)@, result) == stake_step(old(self)@, now, staker@, amount, duration),
    {
        staking::stake_tokens(&mut self.storage, now, staker, amount, duration)
    }

    /// Pays a stake back.
    pub fn unstake_tokens(&mut self, now: u64, staker: &Principal, stake_id: u32) -> (result:
        Result<(), SensoryError>)
        requires
            old(self).wf(),
            unstake_step(old(self)@, now, staker@, stake_id).1 is Ok ==> unstake_has_room(
                old(self)@,
                staker@,
                stake_id,
            ),
        ensures
            final(self).wf(),
            (final(self)@, result) == unstake_step(old(self)@, now, staker@, stake_id),
    {
        staking::unstake_tokens(&mut self.storage, now, staker, stake_id)
    }

    /// The balance of `user`.
    pub fn get_balance(&self, user: &Principal) -> (balance: u128)
        requires
            self.wf(),
        ensures
            balance == self@.balance_of(user@),
    {
        token::get_balance(&self.storage, user)
    }

    /// The total supply.
    pub fn get_total_supply(&self) -> (total: u128)
        ensures
            total == self@.total_supply,
    {
        token::get_total_supply(&self.storage)
    }

    /// The stakes of `user`.
    pub fn get_stakes(&self, user: &Principal) -> (stakes: StakeList)
        requires
            self.wf(),
        ensures
            stakes@ == self@.stakes_of(user@),
    {
        staking::get_stakes(&self.storage, user)
    }

    /// The administrators.
    pub fn get_admins(&self) -> (admins: PrincipalList)
        ensures
            admins@ == self@.admins,
    {
        admin::get_admins(&self.storage)
    }
}

} // verus!
