use vstd::prelude::*;
use crate::principal::{Principal, PrincipalList};
use crate::tokenized_incentive::admin::{
    add_admin_step, approval_has_room, approve_action_step, initialize_step,
};
use crate::tokenized_incentive::storage::{IncentiveState, IncentiveStorage};
use crate::tokenized_incentive::token::{burn_step, mint_step, transfer_step};
use crate::tokenized_incentive::types::{AdminAction, IncentiveError, VestingSchedule};
use crate::tokenized_incentive::vesting::{
    create_vesting_schedule_step, release_step, release_within_limits,
};

pub mod admin;
pub mod laws;
pub mod storage;
pub mod token;
pub mod types;
pub mod vesting;

verus! {

/// A capped token whose minting and burning take the approval of a majority of its
/// administrators, with transfers between holders and vesting schedules that release
/// tokens over time.
pub struct TokenizedIncentive {
    pub storage: IncentiveStorage,
}

impl View for TokenizedIncentive {
    type V = IncentiveState;

    open spec fn view(&self) -> IncentiveState {
        self.storage@
    }
}

impl TokenizedIncentive {
    /// The records are well formed.
    pub open spec fn wf(&self) -> bool {
        self.storage.wf()
    }

    /// A token without records, not yet initialized.
    pub fn new() -> (token: TokenizedIncentive)
        ensures
            token.wf(),
            token@ == IncentiveState::empty(),
    {
        TokenizedIncentive { storage: IncentiveStorage::new() }
    }

    /// Initializes the token with admin addresses, max supply, and token decimals.
    pub fn initialize(&mut self, admins: PrincipalList, max_supply: u64, decimals: u32) -> (result:
        Result<(), IncentiveError>)
        requires
            old(self).wf(),
        ensures
            final(self).wf(),
            (final(self)@, result) == initialize_step(old(self)@, admins@, max_supply, decimals),
    {
        admin::initialize(&mut self.storage, admins, max_supply, decimals)
    }

    /// Adds a new admin.
    pub fn add_admin(&mut self, caller: &Principal, new_admin: Principal) -> (result: Result<
        (),
        IncentiveError,
    >)
        requires
            old(self).wf(),
        ensures
            final(self).wf(),
            (final(self)@, result) == add_admin_step(old(self)@, new_admin@),
    {
        admin::add_admin(&mut self.storage, caller, new_admin)
    }

    /// Approves an admin action for multi-signature operations.
    pub fn approve_action(&mut self, caller: &Principal, action: AdminAction) -> (result: Result<
        (),
        IncentiveError,
    >)
        requires
            old(self).wf(),
            approve_action_step(old(self)@, action@).1 is Ok ==> approval_has_room(
                old(self)@,
                action@,
            ),
        ensures
            final(self).wf(),
            (final(self)@, result) == approve_action_step(old(self)@, action@),
    {
        admin::approve_action(&mut self.storage, caller, action)
    }

    /// Mints new tokens to a recipient.
    pub fn mint(&mut self, caller: &Principal, to: &Principal, amount: u64) -> (result: Result<
        (),
        IncentiveError,
    >)
        requires
            old(self).wf(),
            mint_step(old(self)@, to@, amount).1 is Ok ==> old(self)@.balance_of(to@) + amount
                <= u64::MAX,
        ensures
            final(self).wf(),
            (final(self)@, result) == mint_step(old(self)@, to@, amount),
    {
        token::mint(&mut self.storage, caller, to, amount)
    }

    /// Burns tokens from an address.
    pub fn burn(&mut self, caller: &Principal, from: &Principal, amount: u64) -> (result: Result<
        (),
        IncentiveError,
    >)
        requires
            old(self).wf(),
            burn_step(old(self)@, from@, amount).1 is Ok ==> amount <= old(self)@.total_supply,
        ensures
            final(self).wf(),
            (final(self)@, result) == burn_step(old(self)@, from@, amount),
    {
        token::burn(&mut self.storage, caller, from, amount)
    }

    /// Transfers tokens from one address to another.
    pub fn transfer(&mut self, from: &Principal, to: &Principal, amount: u64) -> (result: Result<
        (),
        IncentiveError,
    >)
        requires
            old(self).wf(),
            transfer_step(old(self)@, from@, to@, amount).1 is Ok ==> old(self)@.balance_of(to@)
                + amount <= u64::MAX,
        ensures
            final(self).wf(),
            (final(self)@, result) == transfer_step(old(self)@, from@, to@, amount),
    {
        token::transfer(&mut self.storage, from, to, amount)
    }

    /// Creates a vesting schedule for token distribution.
    pub fn create_vesting_schedule(
        &mut self,
        caller: &Principal,
        recipient: &Principal,
        total_amount: u64,
        start_time: u64,
        duration: u64,
        cliff: u64,
    ) -> (result: Result<u32, IncentiveError>)
        requires
            old(self).wf(),
            create_vesting_schedule_step(
                old(self)@,
                recipient@,
                total_amount,
                start_time,
                duration,
                cliff,
            ).1 is Ok ==> old(self)@.next_schedule_id < u32::MAX,
        ensures
            final(self).wf(),
            (final(self)@, result) == create_vesting_schedule_step(
                old(self)@,
                recipient@,
                total_amount,
                start_time,
                duration,
                cliff,
            ),
    {
        vesting::create_vesting_schedule(
            &mut self.storage,
            caller,
            recipient,
            total_amount,
            start_time,
            duration,
            cliff,
        )
    }

    /// Releases vested funds to the recipient.
    pub fn release_vested_funds(
        &mut self,
        now: u64,
        caller: &Principal,
        recipient: &Principal,
        schedule_id: u32,
    ) -> (result: Result<(), IncentiveError>)
        requires
            old(self).wf(),
            release_within_limits(old(self)@, now, caller@, recipient@, schedule_id),
        ensures
            final(self).wf(),
            (final(self)@, result) == release_step(
                old(self)@,
                now,
                caller@,
                recipient@,
                schedule_id,
            ),
    {
        vesting::release_vested_funds(&mut self.storage, now, caller, recipient, schedule_id)
    }

    /// Queries the balance of a given account.
    pub fn get_balance(&self, account: &Principal) -> (balance: u64)
        requires
            self.wf(),
        ensures
            balance == self@.balance_of(account@),
    {
        token::get_balance(&self.storage, account)
    }

    /// Queries the total token supply.
    pub fn get_total_supply(&self) -> (total: u64)
        ensures
            total == self@.total_supply,
    {
        token::get_total_supply(&self.storage)
    }

    /// Queries a vesting schedule for a recipient and schedule ID.
    pub fn get_vesting_schedule(&self, recipient: &Principal, schedule_id: u32) -> (result: Result<
        VestingSchedule,
        IncentiveError,
    >)
        requires
            self.wf(),
        ensures
            match result {
                Ok(schedule) => self@.schedules.contains_key((recipient@, schedule_id))
                    && schedule@ == self@.schedules[(recipient@, schedule_id)],
                Err(error) => !self@.schedules.contains_key((recipient@, schedule_id)) && error
                    == IncentiveError::ScheduleNotFound,
            },
    {
        vesting::get_vesting_schedule(&self.storage, recipient, schedule_id)
    }
}

} // verus!
