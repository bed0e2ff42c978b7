use vstd::prelude::*;
use crate::principal::{Principal, PrincipalId};
use crate::record_map::RecordKey;

verus! {

/// Why a call on the incentive token did not go through.
#[derive(Clone, Copy, PartialEq, Eq, Structural, Debug)]
pub enum IncentiveError {
    /// Initialization was asked for without any administrator.
    NoAdmins,
    /// No administrators have been fixed yet.
    NotInitialized,
    /// The principal to be added is an administrator already.
    AdminExists,
    /// The action has not been approved by a majority of the administrators.
    ApprovalRequired,
    /// Minting would take the supply above its maximum.
    SupplyExceeded,
    /// The balance does not cover the amount.
    InsufficientBalance,
    /// A vesting schedule needs a duration above zero.
    InvalidDuration,
    /// The cliff of a vesting schedule cannot be longer than its duration.
    CliffExceedsDuration,
    /// The recipient has no vesting schedule with the given identifier.
    ScheduleNotFound,
    /// Only the recipient may release vested funds.
    NotRecipient,
    /// The cliff of the vesting schedule has not been reached.
    CliffNotReached,
    /// Nothing has vested since the last release.
    NothingToRelease,
}

/// Tokens that become their recipient's over time.
#[derive(Debug)]
pub struct VestingSchedule {
    pub id: u32,
    pub recipient: Principal,
    /// The amount that vests in all.
    pub total_amount: u64,
    /// The amount that has been handed to the recipient so far.
    pub released_amount: u64,
    /// The time at which vesting begins.
    pub start_time: u64,
    /// The seconds after which everything has vested.
    pub duration: u64,
    /// The seconds before which nothing can be released.
    pub cliff: u64,
}

/// The mathematical value of a [`VestingSchedule`].
pub struct VestingScheduleView {
    pub id: u32,
    pub recipient: PrincipalId,
    pub total_amount: u64,
    pub released_amount: u64,
    pub start_time: u64,
    pub duration: u64,
    pub cliff: u64,
}

impl View for VestingSchedule {
    type V = VestingScheduleView;

    open spec fn view(&self) -> VestingScheduleView {
        VestingScheduleView {
            id: self.id,
            recipient: self.recipient@,
            total_amount: self.total_amount,
            released_amount: self.released_amount,
            start_time: self.start_time,
            duration: self.duration,
            cliff: self.cliff,
        }
    }
}

impl Clone for VestingSchedule {
    fn clone(&self) -> (copy: VestingSchedule)
        ensures
            copy@ == self@,
    {
        VestingSchedule {
            id: self.id,
            recipient: self.recipient.clone(),
            total_amount: self.total_amount,
            released_amount: self.released_amount,
            start_time: self.start_time,
            duration: self.duration,
            cliff: self.cliff,
        }
    }
}

/// The key of a vesting schedule: its recipient and its identifier.
#[derive(Debug)]
pub struct ScheduleKey {
    pub recipient: Principal,
    pub schedule_id: u32,
}

impl View for ScheduleKey {
    type V = (PrincipalId, u32);

    open spec fn view(&self) -> (PrincipalId, u32) {
        (self.recipient@, self.schedule_id)
    }
}

impl RecordKey for ScheduleKey {
    fn same(&self, other: &ScheduleKey) -> (same: bool) {
        self.schedule_id == other.schedule_id && self.recipient.same(&other.recipient)
    }
}

/// An act of administration that takes the approval of several administrators.
#[derive(Debug)]
pub enum AdminAction {
    /// Minting an amount to a principal.
    Mint(Principal, u64),
    /// Burning an amount of a principal.
    Burn(Principal, u64),
}

/// The mathematical value of an [`AdminAction`].
pub enum AdminActionView {
    Mint(PrincipalId, u64),
    Burn(PrincipalId, u64),
}

impl View for AdminAction {
    type V = AdminActionView;

    open spec fn view(&self) -> AdminActionView {
        match self {
            AdminAction::Mint(to, amount) => AdminActionView::Mint(to@, *amount),
            AdminAction::Burn(from, amount) => AdminActionView::Burn(from@, *amount),
        }
    }
}

impl Clone for AdminAction {
    fn clone(&self) -> (copy: AdminAction)
        ensures
            copy@ == self@,
    {
        match self {
            AdminAction::Mint(to, amount) => AdminAction::Mint(to.clone(), *amount),
            AdminAction::Burn(from, amount) => AdminAction::Burn(from.clone(), *amount),
        }
    }
}

/// How many approvals an action has received.
#[derive(Debug)]
pub struct Approval {
    pub action: AdminAction,
    pub approvals: u32,
}

/// The mathematical value of an [`Approval`].
pub struct ApprovalView {
    pub action: AdminActionView,
    pub approvals: u32,
}

impl View for Approval {
    type V = ApprovalView;

    open spec fn view(&self) -> ApprovalView {
        ApprovalView { action: self.action@, approvals: self.approvals }
    }
}

impl Clone for Approval {
    fn clone(&self) -> (copy: Approval)
        ensures
            copy@ == self@,
    {
        Approval { action: self.action.clone(), approvals: self.approvals }
    }
}

} // verus!
