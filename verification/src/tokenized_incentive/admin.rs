use vstd::prelude::*;
use crate::principal::{Principal, PrincipalId, PrincipalList};
use crate::tokenized_incentive::storage::{
    append_approval, approval_at, approval_count, load_admins, store_admins, store_approval_at,
    store_decimals, store_max_supply, store_next_schedule_id, store_total_supply, IncentiveState,
    IncentiveStorage,
};
use crate::tokenized_incentive::types::{
    AdminAction, AdminActionView, Approval, ApprovalView, IncentiveError,
};

verus! {

/// The index of the first entry of `approvals` that is for `action`, if there is one.
pub open spec fn first_approval(approvals: Seq<ApprovalView>, action: AdminActionView) -> Option<
    int,
>
    decreases approvals.len(),
{
    if approvals.len() == 0 {
        None
    } else if approvals.first().action == action {
        Some(0)
    } else {
        match first_approval(approvals.drop_first(), action) {
            Some(i) => Some(i + 1),
            None => None,
        }
    }
}

/// What `first_approval` finds: the entry for the action before which there is none.
pub proof fn lemma_first_approval(approvals: Seq<ApprovalView>, action: AdminActionView)
    ensures
        match first_approval(approvals, action) {
            Some(i) => {
                &&& 0 <= i < approvals.len()
                &&& approvals[i].action == action
                &&& forall|j: int| 0 <= j < i ==> (#[trigger] approvals[j]).action != action
            },
            None => forall|j: int|
                0 <= j < approvals.len() ==> (#[trigger] approvals[j]).action != action,
        },
    decreases approvals.len(),
{
    if approvals.len() > 0 && approvals.first().action != action {
        let rest = approvals.drop_first();
        lemma_first_approval(rest, action);
        assert forall|j: int| 0 < j < approvals.len() implies approvals[j] == rest[j - 1] by {}
        match first_approval(rest, action) {
            Some(i) => {
                assert forall|j: int| 0 <= j < i + 1 implies (#[trigger] approvals[j]).action
                    != action by {
                    if j > 0 {
                        assert(approvals[j] == rest[j - 1]);
                    }
                }
            },
            None => {
                assert forall|j: int| 0 <= j < approvals.len() implies (
                #[trigger] approvals[j]).action != action by {
                    if j > 0 {
                        assert(approvals[j] == rest[j - 1]);
                    }
                }
            },
        }
    }
}

/// The number of approvals that make a majority among `admins` administrators.
pub open spec fn required_approvals(admins: nat) -> nat {
    admins / 2 + 1
}

/// Whether `action` has been approved by a majority of the administrators. Before
/// initialization nothing is.
pub open spec fn has_majority(s: IncentiveState, action: AdminActionView) -> bool {
    &&& s.admins is Some
    &&& first_approval(s.approvals, action) matches Some(i)
    &&& s.approvals[i].approvals >= required_approvals(s.admins->0.len())
}

/// Initialization: fixes the administrators, the maximum supply and the decimals and
/// resets the supply and the schedule counter to zero.
pub open spec fn initialize_step(
    s: IncentiveState,
    admins: Seq<PrincipalId>,
    max_supply: u64,
    decimals: u32,
) -> (IncentiveState, Result<(), IncentiveError>) {
    if admins.len() == 0 {
        (s, Err(IncentiveError::NoAdmins))
    } else {
        (
            IncentiveState {
                admins: Some(admins),
                max_supply,
                decimals,
                total_supply: 0,
                next_schedule_id: 0,
                ..s
            },
            Ok(()),
        )
    }
}

/// Adding an administrator: nobody is added twice. The caller's own role is not asked
/// for.
pub open spec fn add_admin_step(s: IncentiveState, new_admin: PrincipalId) -> (
    IncentiveState,
    Result<(), IncentiveError>,
) {
    if s.admins is None {
        (s, Err(IncentiveError::NotInitialized))
    } else if s.admins->0.contains(new_admin) {
        (s, Err(IncentiveError::AdminExists))
    } else {
        (IncentiveState { admins: Some(s.admins->0.push(new_admin)), ..s }, Ok(()))
    }
}

/// Approving an action: the action's count goes up by one; an action without a count
/// starts at one. The caller's own role is not asked for.
pub open spec fn approve_action_step(s: IncentiveState, action: AdminActionView) -> (
    IncentiveState,
    Result<(), IncentiveError>,
) {
    if s.admins is None {
        (s, Err(IncentiveError::NotInitialized))
    } else {
        match first_approval(s.approvals, action) {
            Some(i) => (
                IncentiveState {
                    approvals: s.approvals.update(
                        i,
                        ApprovalView {
                            approvals: (s.approvals[i].approvals + 1) as u32,
                            ..s.approvals[i]
                        },
                    ),
                    ..s
                },
                Ok(()),
            ),
            None => (
                IncentiveState {
                    approvals: s.approvals.push(ApprovalView { action, approvals: 1 }),
                    ..s
                },
                Ok(()),
            ),
        }
    }
}

/// Whether the count of `action` can go up by one within the range of its type.
pub open spec fn approval_has_room(s: IncentiveState, action: AdminActionView) -> bool {
    first_approval(s.approvals, action) matches Some(i) ==> s.approvals[i].approvals < u32::MAX
}

/// Initializes the token with its administrators, maximum supply and decimals.
pub fn initialize(
    storage: &mut IncentiveStorage,
    admins: PrincipalList,
    max_supply: u64,
    decimals: u32,
) -> (result: Result<(), IncentiveError>)
    requires
        old(storage).wf(),
    ensures
        final(storage).wf(),
        (final(storage)@, result) == initialize_step(old(storage)@, admins@, max_supply, decimals),
{
    if admins.is_empty() {
        return Err(IncentiveError::NoAdmins);
    }
    store_admins(storage, admins);
    store_max_supply(storage, max_supply);
    store_decimals(storage, decimals);
    store_total_supply(storage, 0);
    store_next_schedule_id(storage, 0);
    Ok(())
}

/// Adds `new_admin` to the administrators.
pub fn add_admin(storage: &mut IncentiveStorage, caller: &Principal, new_admin: Principal) -> (result:
    Result<(), IncentiveError>)
    requires
        old(storage).wf(),
    ensures
        final(storage).wf(),
        (final(storage)@, result) == add_admin_step(old(storage)@, new_admin@),
{
    if check_admin(storage, caller).is_none() {
        return Err(IncentiveError::NotInitialized);
    }
    let mut admins = match load_admins(storage) {
        Some(admins) => admins,
        None => {
            return Err(IncentiveError::NotInitialized);
        },
    };
    if admins.contains(&new_admin) {
        return Err(IncentiveError::AdminExists);
    }
    admins.push_back(new_admin);
    store_admins(storage, admins);
    Ok(())
}

/// Whether `caller` is an administrator; `None` before initialization.
pub fn check_admin(storage: &IncentiveStorage, caller: &Principal) -> (admin: Option<bool>)
    ensures
        admin == match storage@.admins {
            Some(admins) => Some(admins.contains(caller@)),
            None => None,
        },
{
    match load_admins(storage) {
        Some(admins) => Some(admins.contains(caller)),
        None => None,
    }
}

/// Whether two actions are the same act on the same principal and amount.
pub fn compare_actions(a: &AdminAction, b: &AdminAction) -> (same: bool)
    ensures
        same == (a@ == b@),
{
    match (a, b) {
        (AdminAction::Mint(addr1, amt1), AdminAction::Mint(addr2, amt2)) => {
            *addr1 == *addr2 && *amt1 == *amt2
        },
        (AdminAction::Burn(addr1, amt1), AdminAction::Burn(addr2, amt2)) => {
            *addr1 == *addr2 && *amt1 == *amt2
        },
        _ => false,
    }
}

/// The index of the first stored approvals that are for `action`, if there are any.
fn find_approval(storage: &IncentiveStorage, action: &AdminAction) -> (found: Option<usize>)
    ensures
        match found {
            Some(i) => first_approval(storage@.approvals, action@) == Some(i as int) && i
                < storage@.approvals.len(),
            None => first_approval(storage@.approvals, action@) is None,
        },
{
    let n = approval_count(storage);
    let mut i: usize = 0;
    proof {
        lemma_first_approval(storage@.approvals, action@);
    }
    while i < n
        invariant
            n == storage@.approvals.len(),
            i <= n,
            forall|j: int| 0 <= j < i ==> (#[trigger] storage@.approvals[j]).action != action@,
            match first_approval(storage@.approvals, action@) {
                Some(i) => {
                    &&& 0 <= i < storage@.approvals.len()
                    &&& storage@.approvals[i].action == action@
                    &&& forall|j: int|
                        0 <= j < i ==> (#[trigger] storage@.approvals[j]).action != action@
                },
                None => forall|j: int|
                    0 <= j < storage@.approvals.len() ==> (#[trigger] storage@.approvals[j]).action
                        != action@,
            },
        decreases n - i,
    {
        let approval = approval_at(storage, i);
        if compare_actions(&approval.action, action) {
            proof {
                let first = first_approval(storage@.approvals, action@);
                assert(storage@.approvals[i as int].action == action@);
                assert(first is Some);
                assert(first->0 == i);
            }
            return Some(i);
        }
        i += 1;
    }
    None
}

/// Whether `action` has been approved by a majority of the administrators; `None`
/// before initialization.
pub fn require_multi_sig(storage: &IncentiveStorage, action: &AdminAction) -> (approved: Option<
    bool,
>)
    ensures
        approved == match storage@.admins {
            Some(_) => Some(has_majority(storage@, action@)),
            None => None,
        },
{
    let admins = match load_admins(storage) {
        Some(admins) => admins,
        None => {
            return None;
        },
    };
    let required_approvals = admins.len() / 2 + 1;
    match find_approval(storage, action) {
        Some(i) => Some(approval_at(storage, i).approvals as usize >= required_approvals),
        None => Some(false),
    }
}

/// Whether the count of `action` can go up by one. True where the action has no count
/// yet.
pub fn has_approval_room(storage: &IncentiveStorage, action: &AdminAction) -> (room: bool)
    ensures
        room == approval_has_room(storage@, action@),
{
    match find_approval(storage, action) {
        Some(i) => approval_at(storage, i).approvals < u32::MAX,
        None => true,
    }
}

/// Records one more approval of `action`.
pub fn approve_action(storage: &mut IncentiveStorage, caller: &Principal, action: AdminAction) -> (result:
    Result<(), IncentiveError>)
    requires
        old(storage).wf(),
        approve_action_step(old(storage)@, action@).1 is Ok ==> approval_has_room(
            old(storage)@,
            action@,
        ),
    ensures
        final(storage).wf(),
        (final(storage)@, result) == approve_action_step(old(storage)@, action@),
{
    if check_admin(storage, caller).is_none() {
        return Err(IncentiveError::NotInitialized);
    }
    match find_approval(storage, &action) {
        Some(i) => {
            let mut approval = approval_at(storage, i).clone();
            approval.approvals += 1;
            store_approval_at(storage, i, approval);
        },
        None => {
            append_approval(storage, Approval { action, approvals: 1 });
        },
    }
    Ok(())
}

} // verus!
