use vstd::prelude::*;
use crate::principal::{Principal, PrincipalId, PrincipalList};
use crate::record_map::RecordMap;
use crate::tokenized_incentive::types::{
    Approval, ApprovalView, ScheduleKey, VestingSchedule, VestingScheduleView,
};

verus! {

/// The mathematical value of the incentive token's durable state.
#[verifier::ext_equal]
pub struct IncentiveState {
    /// The administrators, once initialization has fixed them.
    pub admins: Option<Seq<PrincipalId>>,
    pub max_supply: u64,
    pub decimals: u32,
    pub total_supply: u64,
    /// The identifier that the next vesting schedule will get.
    pub next_schedule_id: u32,
    /// The approvals that actions have received, in the order in which the actions
    /// were first approved.
    pub approvals: Seq<ApprovalView>,
    pub balances: Map<PrincipalId, u64>,
    /// The vesting schedules, by recipient and identifier.
    pub schedules: Map<(PrincipalId, u32), VestingScheduleView>,
}

impl IncentiveState {
    /// The state before anything has been stored.
    pub open spec fn empty() -> IncentiveState {
        IncentiveState {
            admins: None,
            max_supply: 0,
            decimals: 0,
            total_supply: 0,
            next_schedule_id: 0,
            approvals: Seq::empty(),
            balances: Map::empty(),
            schedules: Map::empty(),
        }
    }

    /// The balance of `who`; zero where none is stored.
    pub open spec fn balance_of(self, who: PrincipalId) -> u64 {
        if self.balances.contains_key(who) {
            self.balances[who]
        } else {
            0
        }
    }
}

/// The durable records of one incentive token.
pub struct IncentiveStorage {
    admins: Option<PrincipalList>,
    max_supply: u64,
    decimals: u32,
    total_supply: u64,
    next_schedule_id: u32,
    approvals: Vec<Approval>,
    balances: RecordMap<Principal, u64>,
    schedules: RecordMap<ScheduleKey, VestingSchedule>,
}

impl View for IncentiveStorage {
    type V = IncentiveState;

    closed spec fn view(&self) -> IncentiveState {
        IncentiveState {
            admins: match self.admins {
                Some(admins) => Some(admins@),
                None => None,
            },
            max_supply: self.max_supply,
            decimals: self.decimals,
            total_supply: self.total_supply,
            next_schedule_id: self.next_schedule_id,
            approvals: Seq::new(self.approvals@.len(), |i: int| self.approvals@[i]@),
            balances: self.balances@,
            schedules: self.schedules@,
        }
    }
}

impl IncentiveStorage {
    /// No table holds a key twice. Every function of this module keeps this.
    pub closed spec fn wf(&self) -> bool {
        &&& self.balances.wf()
        &&& self.schedules.wf()
    }

    /// Storage that holds no record.
    pub fn new() -> (storage: IncentiveStorage)
        ensures
            storage.wf(),
            storage@ == IncentiveState::empty(),
    {
        let storage = IncentiveStorage {
            admins: None,
            max_supply: 0,
            decimals: 0,
            total_supply: 0,
            next_schedule_id: 0,
            approvals: Vec::new(),
            balances: RecordMap::new(),
            schedules: RecordMap::new(),
        };
        assert(storage@.approvals =~= Seq::<ApprovalView>::empty());
        storage
    }
}

/// The administrators, once they have been fixed.
pub fn load_admins(storage: &IncentiveStorage) -> (admins: Option<PrincipalList>)
    ensures
        match admins {
            Some(list) => storage@.admins == Some(list@),
            None => storage@.admins is None,
        },
{
    match &storage.admins {
        Some(admins) => Some(admins.clone()),
        None => None,
    }
}

/// Replaces the list of administrators.
pub fn store_admins(storage: &mut IncentiveStorage, admins: PrincipalList)
    requires
        old(storage).wf(),
    ensures
        final(storage).wf(),
        final(storage)@ == (IncentiveState { admins: Some(admins@), ..old(storage)@ }),
{
    storage.admins = Some(admins);
}

/// The maximum supply.
pub fn load_max_supply(storage: &IncentiveStorage) -> (max_supply: u64)
    ensures
        max_supply == storage@.max_supply,
{
    storage.max_supply
}

/// Sets the maximum supply.
pub fn store_max_supply(storage: &mut IncentiveStorage, max_supply: u64)
    requires
        old(storage).wf(),
    ensures
        final(storage).wf(),
        final(storage)@ == (IncentiveState { max_supply, ..old(storage)@ }),
{
    storage.max_supply = max_supply;
}

/// The number of decimal places of the token.
pub fn load_decimals(storage: &IncentiveStorage) -> (decimals: u32)
    ensures
        decimals == storage@.decimals,
{
    storage.decimals
}

/// Sets the number of decimal places of the token.
pub fn store_decimals(storage: &mut IncentiveStorage, decimals: u32)
    requires
        old(storage).wf(),
    ensures
        final(storage).wf(),
        final(storage)@ == (IncentiveState { decimals, ..old(storage)@ }),
{
    storage.decimals = decimals;
}

/// The total supply.
pub fn load_total_supply(storage: &IncentiveStorage) -> (total: u64)
    ensures
        total == storage@.total_supply,
{
    storage.total_supply
}

/// Sets the total supply.
pub fn store_total_supply(storage: &mut IncentiveStorage, total: u64)
    requires
        old(storage).wf(),
    ensures
        final(storage).wf(),
        final(storage)@ == (IncentiveState { total_supply: total, ..old(storage)@ }),
{
    storage.total_supply = total;
}

/// The identifier that the next vesting schedule will get.
pub fn load_next_schedule_id(storage: &IncentiveStorage) -> (id: u32)
    ensures
        id == storage@.next_schedule_id,
{
    storage.next_schedule_id
}

/// Sets the schedule counter.
pub fn store_next_schedule_id(storage: &mut IncentiveStorage, id: u32)
    requires
        old(storage).wf(),
    ensures
        final(storage).wf(),
        final(storage)@ == (IncentiveState { next_schedule_id: id, ..old(storage)@ }),
{
    storage.next_schedule_id = id;
}

/// The number of actions that have approvals.
pub fn approval_count(storage: &IncentiveStorage) -> (n: usize)
    ensures
        n == storage@.approvals.len(),
{
    storage.approvals.len()
}

/// The approvals at index `i`.
pub fn approval_at(storage: &IncentiveStorage, i: usize) -> (approval: &Approval)
    requires
        i < storage@.approvals.len(),
    ensures
        approval@ == storage@.approvals[i as int],
{
    &storage.approvals[i]
}

/// Replaces the approvals at index `i`.
pub fn store_approval_at(storage: &mut IncentiveStorage, i: usize, approval: Approval)
    requires
        old(storage).wf(),
        i < old(storage)@.approvals.len(),
    ensures
        final(storage).wf(),
        final(storage)@ == (IncentiveState {
            approvals: old(storage)@.approvals.update(i as int, approval@),
            ..old(storage)@
        }),
{
    storage.approvals.set(i, approval);
    assert(storage@.approvals =~= old(storage)@.approvals.update(i as int, approval@));
}

/// Appends the approvals of another action.
pub fn append_approval(storage: &mut IncentiveStorage, approval: Approval)
    requires
        old(storage).wf(),
    ensures
        final(storage).wf(),
        final(storage)@ == (IncentiveState {
            approvals: old(storage)@.approvals.push(approval@),
            ..old(storage)@
        }),
{
    storage.approvals.push(approval);
    assert(storage@.approvals =~= old(storage)@.approvals.push(approval@));
}

/// The balance of `account`; zero where none is stored.
pub fn load_balance(storage: &IncentiveStorage, account: &Principal) -> (balance: u64)
    requires
        storage.wf(),
    ensures
        balance == storage@.balance_of(account@),
{
    match storage.balances.get(account) {
        Some(balance) => *balance,
        None => 0,
    }
}

/// Sets the balance of `account`.
pub fn store_balance(storage: &mut IncentiveStorage, account: &Principal, balance: u64)
    requires
        old(storage).wf(),
    ensures
        final(storage).wf(),
        final(storage)@ == (IncentiveState {
            balances: old(storage)@.balances.insert(account@, balance),
            ..old(storage)@
        }),
{
    storage.balances.insert(account.clone(), balance);
}

/// The vesting schedule of `recipient` with the identifier `schedule_id`, if any.
pub fn load_schedule(storage: &IncentiveStorage, recipient: &Principal, schedule_id: u32) -> (found:
    Option<VestingSchedule>)
    requires
        storage.wf(),
    ensures
        match found {
            Some(schedule) => storage@.schedules.contains_key((recipient@, schedule_id))
                && schedule@ == storage@.schedules[(recipient@, schedule_id)],
            None => !storage@.schedules.contains_key((recipient@, schedule_id)),
        },
{
    let key = ScheduleKey { recipient: recipient.clone(), schedule_id };
    match storage.schedules.get(&key) {
        Some(schedule) => Some(schedule.clone()),
        None => None,
    }
}

/// Stores `schedule` under `recipient` and `schedule_id`, replacing what was there.
pub fn store_schedule(
    storage: &mut IncentiveStorage,
    recipient: &Principal,
    schedule_id: u32,
    schedule: &VestingSchedule,
)
    requires
        old(storage).wf(),
    ensures
        final(storage).wf(),
        final(storage)@ == (IncentiveState {
            schedules: old(storage)@.schedules.insert((recipient@, schedule_id), schedule@),
            ..old(storage)@
        }),
{
    let key = ScheduleKey { recipient: recipient.clone(), schedule_id };
    storage.schedules.insert(key, schedule.clone());
}

} // verus!
