use vstd::prelude::*;
use crate::model_governance::storage::{
    get_min_stake, get_proposal, get_quorum, get_token_balance, get_token_holders, get_vote,
    get_voters, get_voting_period, is_admin, is_initialized, next_proposal_id,
    peek_next_proposal_id, store_config, store_next_proposal_id, store_proposal,
    store_token_holders, store_vote, store_voters, sum_of_weights, update_token_balance,
    GovernanceState, GovernanceStorage,
};
use crate::model_governance::types::{
    Config, ConfigView, GovernanceError, Proposal, ProposalStatus, ProposalView, Vote, VoteView,
    WindowViolation,
};
use crate::principal::{Principal, PrincipalId};

verus! {

/// The last moment at which a vote on `proposal` is accepted.
pub open spec fn voting_deadline(proposal: ProposalView, voting_period: u64) -> int {
    proposal.timestamp + voting_period
}

/// Whether a turnout of `total_votes` out of `denominator` reaches `quorum` basis points.
/// No turnout and no registered weight both mean that it does not.
pub open spec fn quorum_met(total_votes: int, denominator: int, quorum: int) -> bool {
    total_votes != 0 && denominator != 0 && total_votes * 10000 / denominator >= quorum
}

/// The state after the bond of `proposal` has gone back to its proposer.
pub open spec fn refunded(s: GovernanceState, proposal: ProposalView) -> GovernanceState {
    GovernanceState {
        balances: s.balances.insert(
            proposal.proposer,
            (s.weight_of(proposal.proposer) + proposal.stake) as u32,
        ),
        ..s
    }
}

/// The state after `proposal` has been stored under `id` as rejected or cancelled and
/// its bond has gone back to its proposer.
pub open spec fn closed_with_refund(
    s: GovernanceState,
    id: u32,
    proposal: ProposalView,
    status: ProposalStatus,
) -> GovernanceState {
    refunded(
        GovernanceState {
            proposals: s.proposals.insert(id, ProposalView { status, ..proposal }),
            ..s
        },
        proposal,
    )
}

/// Whether the bond of proposal `id` can go back to its proposer without the balance
/// leaving the range of its type.
pub open spec fn refund_has_room(s: GovernanceState, id: u32) -> bool {
    s.proposals.contains_key(id) ==> s.weight_of(s.proposals[id].proposer)
        + s.proposals[id].stake <= u32::MAX
}

/// Whether the weight of `voter` can be added to the tally of proposal `id` on the
/// chosen side without the tally leaving the range of its type.
pub open spec fn tally_has_room(
    s: GovernanceState,
    id: u32,
    voter: PrincipalId,
    in_favor: bool,
) -> bool {
    s.proposals.contains_key(id) ==> (if in_favor {
        s.proposals[id].yes_votes
    } else {
        s.proposals[id].no_votes
    }) + s.weight_of(voter) <= u32::MAX
}

/// Initialization: fixes the parameters and sets the proposal counter to 1.
/// It is rejected once parameters exist.
pub open spec fn initialize_step(
    s: GovernanceState,
    admin: PrincipalId,
    quorum: u32,
    voting_period: u64,
    min_stake: u32,
) -> (GovernanceState, Result<(), GovernanceError>) {
    if s.config is Some {
        (s, Err(GovernanceError::InvalidState))
    } else {
        (
            GovernanceState {
                config: Some(ConfigView { admin, quorum, voting_period, min_stake }),
                next_proposal_id: 1,
                ..s
            },
            Ok(()),
        )
    }
}

/// Submission: takes the bond from the proposer and opens a proposal under the next
/// identifier.
pub open spec fn submit_step(
    s: GovernanceState,
    now: u64,
    proposer: PrincipalId,
    metadata: Seq<char>,
    stake: u32,
) -> (GovernanceState, Result<u32, GovernanceError>) {
    match s.config {
        None => (s, Err(GovernanceError::InvalidState)),
        Some(config) => {
            if s.weight_of(proposer) < stake || stake < config.min_stake {
                (s, Err(GovernanceError::InsufficientStake))
            } else {
                let id = s.next_proposal_id;
                (
                    GovernanceState {
                        next_proposal_id: (id + 1) as u32,
                        proposals: s.proposals.insert(
                            id,
                            ProposalView {
                                id,
                                proposer,
                                metadata,
                                stake,
                                status: ProposalStatus::Active,
                                yes_votes: 0,
                                no_votes: 0,
                                timestamp: now,
                                executed: false,
                            },
                        ),
                        balances: s.balances.insert(
                            proposer,
                            (s.weight_of(proposer) - stake) as u32,
                        ),
                        ..s
                    },
                    Ok(id),
                )
            }
        },
    }
}

/// Voting: records the vote with the voter's present weight, appends the voter to the
/// proposal's voter list and adds the weight to the tally of the chosen side.
pub open spec fn vote_step(
    s: GovernanceState,
    now: u64,
    voter: PrincipalId,
    id: u32,
    in_favor: bool,
) -> (GovernanceState, Result<(), GovernanceError>) {
    if !s.proposals.contains_key(id) {
        (s, Err(GovernanceError::NotFound))
    } else if s.proposals[id].status != ProposalStatus::Active {
        (s, Err(GovernanceError::InvalidState))
    } else if s.config is None {
        (s, Err(GovernanceError::InvalidState))
    } else if now > voting_deadline(s.proposals[id], s.config->0.voting_period) {
        (s, Err(GovernanceError::VotingWindowViolation(WindowViolation::VotingClosed)))
    } else if s.votes.contains_key((id, voter)) {
        (s, Err(GovernanceError::DoubleVote))
    } else if s.weight_of(voter) == 0 {
        (s, Err(GovernanceError::NoVotingPower))
    } else {
        let proposal = s.proposals[id];
        let weight = s.weight_of(voter);
        let tallied = if in_favor {
            ProposalView { yes_votes: (proposal.yes_votes + weight) as u32, ..proposal }
        } else {
            ProposalView { no_votes: (proposal.no_votes + weight) as u32, ..proposal }
        };
        (
            GovernanceState {
                votes: s.votes.insert((id, voter), VoteView { voter, in_favor, weight }),
                voters: s.voters.insert(id, s.voters_of(id).push(voter)),
                proposals: s.proposals.insert(id, tallied),
                ..s
            },
            Ok(()),
        )
    }
}

/// What an evaluation finds once the voting window has closed.
#[derive(Clone, Copy, PartialEq, Eq, Structural, Debug)]
pub enum Verdict {
    /// Quorum is met and more weight is in favor than against.
    Approved,
    /// Quorum is met and no more weight is in favor than against.
    Rejected,
    /// Turnout stayed below the quorum.
    BelowQuorum,
}

/// The verdict on proposal `id` at `now`, or the reason why none can be given: there
/// is no such proposal, it is no longer active, or its window has not closed.
pub open spec fn verdict_of(s: GovernanceState, now: u64, id: u32) -> Result<
    Verdict,
    GovernanceError,
> {
    if !s.proposals.contains_key(id) {
        Err(GovernanceError::NotFound)
    } else if s.proposals[id].status != ProposalStatus::Active {
        Err(GovernanceError::InvalidState)
    } else if s.config is None {
        Err(GovernanceError::InvalidState)
    } else if now <= voting_deadline(s.proposals[id], s.config->0.voting_period) {
        Err(GovernanceError::VotingWindowViolation(WindowViolation::VotingNotEnded))
    } else {
        let proposal = s.proposals[id];
        let total_votes = proposal.yes_votes + proposal.no_votes;
        if !quorum_met(total_votes, s.total_registered_weight() as int, s.config->0.quorum as int) {
            Ok(Verdict::BelowQuorum)
        } else if proposal.yes_votes > proposal.no_votes {
            Ok(Verdict::Approved)
        } else {
            Ok(Verdict::Rejected)
        }
    }
}

/// Evaluation: once the window has closed, resolves the proposal. Below quorum it is
/// rejected, its bond returned, and the call still reports `QuorumNotMet`. With quorum,
/// more weight in favor than against approves it and the bond stays; anything else,
/// a tie included, rejects it and returns the bond.
pub open spec fn evaluate_step(s: GovernanceState, now: u64, id: u32) -> (
    GovernanceState,
    Result<(), GovernanceError>,
) {
    match verdict_of(s, now, id) {
        Err(error) => (s, Err(error)),
        Ok(Verdict::BelowQuorum) => (
            closed_with_refund(s, id, s.proposals[id], ProposalStatus::Rejected),
            Err(GovernanceError::QuorumNotMet),
        ),
        Ok(Verdict::Approved) => (
            GovernanceState {
                proposals: s.proposals.insert(
                    id,
                    ProposalView {
                        status: ProposalStatus::Approved,
                        executed: true,
                        ..s.proposals[id]
                    },
                ),
                ..s
            },
            Ok(()),
        ),
        Ok(Verdict::Rejected) => (
            closed_with_refund(s, id, s.proposals[id], ProposalStatus::Rejected),
            Ok(()),
        ),
    }
}

/// Whether evaluating proposal `id` at `now` returns its bond.
pub open spec fn evaluation_refunds(s: GovernanceState, now: u64, id: u32) -> bool {
    verdict_of(s, now, id) matches Ok(verdict) && verdict != Verdict::Approved
}

/// Cancellation by the proposer or the administrator: closes the proposal and returns
/// its bond.
pub open spec fn cancel_step(s: GovernanceState, caller: PrincipalId, id: u32) -> (
    GovernanceState,
    Result<(), GovernanceError>,
) {
    if !s.proposals.contains_key(id) {
        (s, Err(GovernanceError::NotFound))
    } else if s.proposals[id].status != ProposalStatus::Active {
        (s, Err(GovernanceError::InvalidState))
    } else if caller != s.proposals[id].proposer && !s.is_admin(caller) {
        (s, Err(GovernanceError::Unauthorized))
    } else {
        (closed_with_refund(s, id, s.proposals[id], ProposalStatus::Cancelled), Ok(()))
    }
}

/// Amendment by the proposer: replaces the description and nothing else.
pub open spec fn amend_step(
    s: GovernanceState,
    proposer: PrincipalId,
    id: u32,
    new_metadata: Seq<char>,
) -> (GovernanceState, Result<(), GovernanceError>) {
    if !s.proposals.contains_key(id) {
        (s, Err(GovernanceError::NotFound))
    } else if s.proposals[id].status != ProposalStatus::Active {
        (s, Err(GovernanceError::InvalidState))
    } else if s.proposals[id].proposer != proposer {
        (s, Err(GovernanceError::Unauthorized))
    } else {
        (
            GovernanceState {
                proposals: s.proposals.insert(
                    id,
                    ProposalView { metadata: new_metadata, ..s.proposals[id] },
                ),
                ..s
            },
            Ok(()),
        )
    }
}

/// The registry of holders after `address` has got the balance `balance`: a holder with
/// weight enters it once, one whose weight reaches zero leaves it.
pub open spec fn holders_after(
    holders: Seq<PrincipalId>,
    address: PrincipalId,
    balance: u32,
) -> Seq<PrincipalId> {
    if balance > 0 {
        if holders.contains(address) {
            holders
        } else {
            holders.push(address)
        }
    } else {
        holders.remove_value(address)
    }
}

/// Balance setting by the administrator.
pub open spec fn set_token_balance_step(
    s: GovernanceState,
    admin: PrincipalId,
    address: PrincipalId,
    balance: u32,
) -> (GovernanceState, Result<(), GovernanceError>) {
    if !s.is_admin(admin) {
        (s, Err(GovernanceError::Unauthorized))
    } else {
        (
            GovernanceState {
                balances: s.balances.insert(address, balance),
                token_holders: holders_after(s.token_holders, address, balance),
                ..s
            },
            Ok(()),
        )
    }
}

/// Whether another proposal identifier can be handed out.
pub fn has_proposal_ids_left(storage: &GovernanceStorage) -> (left: bool)
    ensures
        left == (storage@.next_proposal_id < u32::MAX),
{
    peek_next_proposal_id(storage) < u32::MAX
}

/// Whether the present weight of `voter` fits on top of the tally of the chosen side
/// of the proposal. True where there is no such proposal.
pub fn has_tally_room(
    storage: &GovernanceStorage,
    proposal_id: u32,
    voter: &Principal,
    in_favor: bool,
) -> (room: bool)
    requires
        storage.wf(),
    ensures
        room == tally_has_room(storage@, proposal_id, voter@, in_favor),
{
    match get_proposal(storage, proposal_id) {
        Ok(proposal) => {
            let tally = if in_favor {
                proposal.yes_votes
            } else {
                proposal.no_votes
            };
            tally as u64 + get_token_balance(storage, voter) as u64 <= u32::MAX as u64
        },
        Err(_) => true,
    }
}

/// Whether the bond of the proposal fits on top of its proposer's present balance.
/// True where there is no such proposal.
pub fn has_refund_room(storage: &GovernanceStorage, proposal_id: u32) -> (room: bool)
    requires
        storage.wf(),
    ensures
        room == refund_has_room(storage@, proposal_id),
{
    match get_proposal(storage, proposal_id) {
        Ok(proposal) => {
            get_token_balance(storage, &proposal.proposer) as u64 + proposal.stake as u64
                <= u32::MAX as u64
        },
        Err(_) => true,
    }
}

/// Initializes the engine with its administrator, quorum, voting period and minimum
/// bond. A second initialization is rejected and changes nothing.
pub fn initialize(
    storage: &mut GovernanceStorage,
    admin: Principal,
    quorum: u32,
    voting_period: u64,
    min_stake: u32,
) -> (result: Result<(), GovernanceError>)
    requires
        old(storage).wf(),
    ensures
        final(storage).wf(),
        (final(storage)@, result) == initialize_step(
            old(storage)@,
            admin@,
            quorum,
            voting_period,
            min_stake,
        ),
{
    if is_initialized(storage) {
        return Err(GovernanceError::InvalidState);
    }
    store_config(storage, Config { admin, quorum, voting_period, min_stake });
    store_next_proposal_id(storage, 1);
    Ok(())
}

/// Submits a proposal with its description and bond, and returns its identifier.
pub fn submit_proposal(
    storage: &mut GovernanceStorage,
    now: u64,
    proposer: &Principal,
    metadata: String,
    stake: u32,
) -> (result: Result<u32, GovernanceError>)
    requires
        old(storage).wf(),
        submit_step(old(storage)@, now, proposer@, metadata@, stake).1 is Ok ==> old(
            storage,
        )@.next_proposal_id < u32::MAX,
    ensures
        final(storage).wf(),
        (final(storage)@, result) == submit_step(old(storage)@, now, proposer@, metadata@, stake),
{
    let min_stake = match get_min_stake(storage) {
        Some(min_stake) => min_stake,
        None => {
            return Err(GovernanceError::InvalidState);
        },
    };
    let balance = get_token_balance(storage, proposer);
    if balance < stake || stake < min_stake {
        return Err(GovernanceError::InsufficientStake);
    }
    let proposal_id = next_proposal_id(storage);
    let proposal = Proposal {
        id: proposal_id,
        proposer: proposer.clone(),
        metadata,
        stake,
        status: ProposalStatus::Active,
        yes_votes: 0,
        no_votes: 0,
        timestamp: now,
        executed: false,
    };
    store_proposal(storage, &proposal);
    update_token_balance(storage, proposer, balance - stake);
    Ok(proposal_id)
}

/// Casts the vote of `voter` on a proposal, weighted by the voter's present balance.
pub fn vote(
    storage: &mut GovernanceStorage,
    now: u64,
    voter: &Principal,
    proposal_id: u32,
    in_favor: bool,
) -> (result: Result<(), GovernanceError>)
    requires
        old(storage).wf(),
        vote_step(old(storage)@, now, voter@, proposal_id, in_favor).1 is Ok ==> tally_has_room(
            old(storage)@,
            proposal_id,
            voter@,
            in_favor,
        ),
    ensures
        final(storage).wf(),
        (final(storage)@, result) == vote_step(old(storage)@, now, voter@, proposal_id, in_favor),
{
    let mut proposal = match get_proposal(storage, proposal_id) {
        Ok(proposal) => proposal,
        Err(error) => {
            return Err(error);
        },
    };
    if proposal.status != ProposalStatus::Active {
        return Err(GovernanceError::InvalidState);
    }
    let voting_period = match get_voting_period(storage) {
        Some(voting_period) => voting_period,
        None => {
            return Err(GovernanceError::InvalidState);
        },
    };
    if now as u128 > proposal.timestamp as u128 + voting_period as u128 {
        return Err(GovernanceError::VotingWindowViolation(WindowViolation::VotingClosed));
    }
    if get_vote(storage, proposal_id, voter).is_some() {
        return Err(GovernanceError::DoubleVote);
    }
    let weight = get_token_balance(storage, voter);
    if weight == 0 {
        return Err(GovernanceError::NoVotingPower);
    }
    let vote = Vote { voter: voter.clone(), in_favor, weight };
    store_vote(storage, proposal_id, &vote);

    let mut voters = get_voters(storage, proposal_id);
    voters.push_back(voter.clone());
    store_voters(storage, proposal_id, &voters);

    if in_favor {
        proposal.yes_votes += weight;
    } else {
        proposal.no_votes += weight;
    }
    store_proposal(storage, &proposal);
    Ok(())
}

/// The quorum denominator: the present balance of every registered holder, summed.
pub fn total_registered_weight(storage: &GovernanceStorage) -> (total: u128)
    requires
        storage.wf(),
    ensures
        total == storage@.total_registered_weight(),
{
    let holders = get_token_holders(storage);
    let mut total: u128 = 0;
    let mut i: usize = 0;
    while i < holders.len()
        invariant
            storage.wf(),
            holders@ == storage@.token_holders,
            i <= holders@.len(),
            total == sum_of_weights(holders@.take(i as int), storage@.balances),
            total <= i * 0xffff_ffff,
        decreases holders@.len() - i,
    {
        let balance = get_token_balance(storage, holders.get(i));
        proof {
            assert(holders@.take(i + 1).drop_last() =~= holders@.take(i as int));
            assert(holders@.take(i + 1).last() == holders@[i as int]);
        }
        total = total + balance as u128;
        i += 1;
    }
    proof {
        assert(holders@.take(holders@.len() as int) =~= holders@);
    }
    total
}

/// Returns the bond of `proposal` to its proposer.
fn refund(storage: &mut GovernanceStorage, proposal: &Proposal)
    requires
        old(storage).wf(),
        old(storage)@.weight_of(proposal.proposer@) + proposal.stake <= u32::MAX,
    ensures
        final(storage).wf(),
        final(storage)@ == refunded(old(storage)@, proposal@),
{
    let balance = get_token_balance(storage, &proposal.proposer);
    update_token_balance(storage, &proposal.proposer, balance + proposal.stake);
}

/// The verdict that an evaluation of the proposal at `now` would give, or the reason
/// why it would give none. Nothing is changed.
pub fn evaluation_verdict(storage: &GovernanceStorage, now: u64, proposal_id: u32) -> (result:
    Result<Verdict, GovernanceError>)
    requires
        storage.wf(),
    ensures
        result == verdict_of(storage@, now, proposal_id),
{
    let proposal = match get_proposal(storage, proposal_id) {
        Ok(proposal) => proposal,
        Err(error) => {
            return Err(error);
        },
    };
    if proposal.status != ProposalStatus::Active {
        return Err(GovernanceError::InvalidState);
    }
    let voting_period = match get_voting_period(storage) {
        Some(voting_period) => voting_period,
        None => {
            return Err(GovernanceError::InvalidState);
        },
    };
    if now as u128 <= proposal.timestamp as u128 + voting_period as u128 {
        return Err(GovernanceError::VotingWindowViolation(WindowViolation::VotingNotEnded));
    }
    let quorum = match get_quorum(storage) {
        Some(quorum) => quorum,
        None => {
            return Err(GovernanceError::InvalidState);
        },
    };
    let total_votes: u128 = proposal.yes_votes as u128 + proposal.no_votes as u128;
    let total_supply = total_registered_weight(storage);
    let met = total_votes != 0 && total_supply != 0 && total_votes * 10000 / total_supply
        >= quorum as u128;
    if !met {
        Ok(Verdict::BelowQuorum)
    } else if proposal.yes_votes > proposal.no_votes {
        Ok(Verdict::Approved)
    } else {
        Ok(Verdict::Rejected)
    }
}

/// Resolves a proposal whose voting window has closed. Anyone may ask for this.
/// Below quorum the proposal is rejected and its bond returned, and the call reports
/// `QuorumNotMet` although the rejection stands.
pub fn evaluate_proposal(storage: &mut GovernanceStorage, now: u64, proposal_id: u32) -> (result:
    Result<(), GovernanceError>)
    requires
        old(storage).wf(),
        evaluation_refunds(old(storage)@, now, proposal_id) ==> refund_has_room(
            old(storage)@,
            proposal_id,
        ),
    ensures
        final(storage).wf(),
        (final(storage)@, result) == evaluate_step(old(storage)@, now, proposal_id),
{
    let verdict = match evaluation_verdict(storage, now, proposal_id) {
        Ok(verdict) => verdict,
        Err(error) => {
            return Err(error);
        },
    };
    let mut proposal = match get_proposal(storage, proposal_id) {
        Ok(proposal) => proposal,
        Err(error) => {
            return Err(error);
        },
    };
    match verdict {
        Verdict::BelowQuorum => {
            proposal.status = ProposalStatus::Rejected;
            store_proposal(storage, &proposal);
            refund(storage, &proposal);
            Err(GovernanceError::QuorumNotMet)
        },
        Verdict::Approved => {
            proposal.status = ProposalStatus::Approved;
            proposal.executed = true;
            store_proposal(storage, &proposal);
            Ok(())
        },
        Verdict::Rejected => {
            proposal.status = ProposalStatus::Rejected;
            store_proposal(storage, &proposal);
            refund(storage, &proposal);
            Ok(())
        },
    }
}

/// Cancels an active proposal on behalf of its proposer or the administrator and
/// returns its bond.
pub fn cancel_proposal(storage: &mut GovernanceStorage, caller: &Principal, proposal_id: u32) -> (result:
    Result<(), GovernanceError>)
    requires
        old(storage).wf(),
        cancel_step(old(storage)@, caller@, proposal_id).1 is Ok ==> refund_has_room(
            old(storage)@,
            proposal_id,
        ),
    ensures
        final(storage).wf(),
        (final(storage)@, result) == cancel_step(old(storage)@, caller@, proposal_id),
{
    let mut proposal = match get_proposal(storage, proposal_id) {
        Ok(proposal) => proposal,
        Err(error) => {
            return Err(error);
        },
    };
    if proposal.status != ProposalStatus::Active {
        return Err(GovernanceError::InvalidState);
    }
    if *caller != proposal.proposer && !is_admin(storage, caller) {
        return Err(GovernanceError::Unauthorized);
    }
    proposal.status = ProposalStatus::Cancelled;
    store_proposal(storage, &proposal);
    refund(storage, &proposal);
    Ok(())
}

/// Replaces the description of an active proposal on behalf of its proposer.
pub fn amend_proposal(
    storage: &mut GovernanceStorage,
    proposer: &Principal,
    proposal_id: u32,
    new_metadata: String,
) -> (result: Result<(), GovernanceError>)
    requires
        old(storage).wf(),
    ensures
        final(storage).wf(),
        (final(storage)@, result) == amend_step(
            old(storage)@,
            proposer@,
            proposal_id,
            new_metadata@,
        ),
{
    let mut proposal = match get_proposal(storage, proposal_id) {
        Ok(proposal) => proposal,
        Err(error) => {
            return Err(error);
        },
    };
    if proposal.status != ProposalStatus::Active {
        return Err(GovernanceError::InvalidState);
    }
    if proposal.proposer != *proposer {
        return Err(GovernanceError::Unauthorized);
    }
    proposal.metadata = new_metadata;
    store_proposal(storage, &proposal);
    Ok(())
}

/// The proposal with the given identifier.
pub fn get_proposal_info(storage: &GovernanceStorage, proposal_id: u32) -> (result: Result<
    Proposal,
    GovernanceError,
>)
    requires
        storage.wf(),
    ensures
        match result {
            Ok(proposal) => storage@.proposals.contains_key(proposal_id) && proposal@
                == storage@.proposals[proposal_id],
            Err(error) => !storage@.proposals.contains_key(proposal_id) && error
                == GovernanceError::NotFound,
        },
{
    get_proposal(storage, proposal_id)
}

/// Sets the balance of `address` on behalf of the administrator and keeps the registry
/// of holders in step: a holder with weight is listed once, one without is not.
pub fn set_token_balance(
    storage: &mut GovernanceStorage,
    admin: &Principal,
    address: &Principal,
    balance: u32,
) -> (result: Result<(), GovernanceError>)
    requires
        old(storage).wf(),
    ensures
        final(storage).wf(),
        (final(storage)@, result) == set_token_balance_step(
            old(storage)@,
            admin@,
            address@,
            balance,
        ),
{
    if !is_admin(storage, admin) {
        return Err(GovernanceError::Unauthorized);
    }
    update_token_balance(storage, address, balance);
    let mut token_holders = get_token_holders(storage);
    if balance > 0 && !token_holders.contains(address) {
        token_holders.push_back(address.clone());
    } else if balance == 0 {
        token_holders.remove_first(address);
    }
    store_token_holders(storage, token_holders);
    Ok(())
}

} // verus!
