use vstd::prelude::*;
use crate::model_governance::governance::{
    amend_step, cancel_step, evaluate_step, evaluation_refunds, initialize_step, refund_has_room,
    set_token_balance_step, submit_step, tally_has_room, vote_step, voting_deadline,
};
use crate::model_governance::storage::{sum_of_weights, GovernanceState};
use crate::model_governance::types::{GovernanceError, ProposalStatus, ProposalView, VoteView};
use crate::principal::PrincipalId;

verus! {

/// One call on the engine, with its arguments.
pub enum Call {
    Initialize { admin: PrincipalId, quorum: u32, voting_period: u64, min_stake: u32 },
    Submit { now: u64, proposer: PrincipalId, metadata: Seq<char>, stake: u32 },
    Vote { now: u64, voter: PrincipalId, id: u32, in_favor: bool },
    Evaluate { now: u64, id: u32 },
    Cancel { caller: PrincipalId, id: u32 },
    Amend { proposer: PrincipalId, id: u32, new_metadata: Seq<char> },
    SetTokenBalance { admin: PrincipalId, address: PrincipalId, balance: u32 },
}

/// The state that `call` leaves behind when it is made in state `s`.
pub open spec fn state_after(s: GovernanceState, call: Call) -> GovernanceState {
    match call {
        Call::Initialize { admin, quorum, voting_period, min_stake } => initialize_step(
            s,
            admin,
            quorum,
            voting_period,
            min_stake,
        ).0,
        Call::Submit { now, proposer, metadata, stake } => submit_step(
            s,
            now,
            proposer,
            metadata,
            stake,
        ).0,
        Call::Vote { now, voter, id, in_favor } => vote_step(s, now, voter, id, in_favor).0,
        Call::Evaluate { now, id } => evaluate_step(s, now, id).0,
        Call::Cancel { caller, id } => cancel_step(s, caller, id).0,
        Call::Amend { proposer, id, new_metadata } => amend_step(s, proposer, id, new_metadata).0,
        Call::SetTokenBalance { admin, address, balance } => set_token_balance_step(
            s,
            admin,
            address,
            balance,
        ).0,
    }
}

/// Whether `call` keeps every counter, tally and balance within the range of its type
/// when it is made in state `s`. The engine's functions ask this of their callers.
pub open spec fn within_limits(s: GovernanceState, call: Call) -> bool {
    match call {
        Call::Submit { now, proposer, metadata, stake } => submit_step(
            s,
            now,
            proposer,
            metadata,
            stake,
        ).1 is Ok ==> s.next_proposal_id < u32::MAX,
        Call::Vote { now, voter, id, in_favor } => vote_step(s, now, voter, id, in_favor).1 is Ok
            ==> tally_has_room(s, id, voter, in_favor),
        Call::Evaluate { now, id } => evaluation_refunds(s, now, id) ==> refund_has_room(s, id),
        Call::Cancel { caller, id } => cancel_step(s, caller, id).1 is Ok ==> refund_has_room(
            s,
            id,
        ),
        _ => true,
    }
}

/// The weight that the first `voters` cast on proposal `id` on the side `in_favor`.
pub open spec fn tally_of(
    voters: Seq<PrincipalId>,
    votes: Map<(u32, PrincipalId), VoteView>,
    id: u32,
    in_favor: bool,
) -> nat
    decreases voters.len(),
{
    if voters.len() == 0 {
        0
    } else {
        let last = voters.last();
        let weight: nat = if votes.contains_key((id, last)) && votes[(id, last)].in_favor
            == in_favor {
            votes[(id, last)].weight as nat
        } else {
            0
        };
        tally_of(voters.drop_last(), votes, id, in_favor) + weight
    }
}

/// What holds of the records in every state that calls within limits can reach from
/// the empty state.
pub open spec fn records_agree(s: GovernanceState) -> bool {
    &&& s.next_proposal_id >= 1
    &&& s.config is None ==> s.proposals == Map::<u32, ProposalView>::empty()
    &&& forall|id: u32| #[trigger]
        s.proposals.contains_key(id) ==> {
            &&& s.proposals[id].id == id
            &&& 1 <= id < s.next_proposal_id
            &&& s.proposals[id].executed == (s.proposals[id].status == ProposalStatus::Approved)
            &&& s.proposals[id].yes_votes == tally_of(s.voters_of(id), s.votes, id, true)
            &&& s.proposals[id].no_votes == tally_of(s.voters_of(id), s.votes, id, false)
        }
    &&& forall|id: u32, voter: PrincipalId| #[trigger]
        s.votes.contains_key((id, voter)) ==> {
            &&& s.proposals.contains_key(id)
            &&& s.votes[(id, voter)].voter == voter
            &&& s.votes[(id, voter)].weight > 0
            &&& s.voters_of(id).contains(voter)
        }
    &&& forall|id: u32| #[trigger] s.voters.contains_key(id) ==> s.proposals.contains_key(id)
    &&& forall|id: u32| #[trigger] s.voters_of(id).no_duplicates()
    &&& forall|id: u32, i: int|
        0 <= i < s.voters_of(id).len() ==> s.votes.contains_key(
            (id, #[trigger] s.voters_of(id)[i]),
        )
    &&& s.token_holders.no_duplicates()
}

/// The empty state is one in which the records agree.
pub proof fn law_empty_state_agrees()
    ensures
        records_agree(GovernanceState::empty()),
{
    let s = GovernanceState::empty();
    assert forall|id: u32| #[trigger] s.voters_of(id).no_duplicates() by {}
}

/// What `call` reports when it is made in state `s`: its error, or `None` on success.
pub open spec fn error_of(s: GovernanceState, call: Call) -> Option<GovernanceError> {
    match call {
        Call::Initialize { admin, quorum, voting_period, min_stake } => initialize_step(
            s,
            admin,
            quorum,
            voting_period,
            min_stake,
        ).1.err(),
        Call::Submit { now, proposer, metadata, stake } => submit_step(
            s,
            now,
            proposer,
            metadata,
            stake,
        ).1.err(),
        Call::Vote { now, voter, id, in_favor } => vote_step(s, now, voter, id, in_favor).1.err(),
        Call::Evaluate { now, id } => evaluate_step(s, now, id).1.err(),
        Call::Cancel { caller, id } => cancel_step(s, caller, id).1.err(),
        Call::Amend { proposer, id, new_metadata } => amend_step(
            s,
            proposer,
            id,
            new_metadata,
        ).1.err(),
        Call::SetTokenBalance { admin, address, balance } => set_token_balance_step(
            s,
            admin,
            address,
            balance,
        ).1.err(),
    }
}

/// A call that fails leaves the state as it was. The one exception is an evaluation
/// that reports `QuorumNotMet`: there the rejection has been committed.
pub proof fn law_failed_calls_change_nothing(s: GovernanceState, call: Call)
    requires
        error_of(s, call) is Some,
        error_of(s, call) != Some(GovernanceError::QuorumNotMet),
    ensures
        state_after(s, call) == s,
{
}

/// A principal who has not voted on a proposal can vote on it once. After a vote that
/// went through, the principal had no vote record before and every further vote by
/// the same principal on the same proposal fails and leaves the whole state, tallies
/// included, as it was. While the voting window is open the failure is `DoubleVote`.
pub proof fn law_one_vote_per_principal(
    s: GovernanceState,
    now: u64,
    voter: PrincipalId,
    id: u32,
    in_favor: bool,
    later: u64,
    again: bool,
)
    requires
        vote_step(s, now, voter, id, in_favor).1 is Ok,
    ensures
        !s.votes.contains_key((id, voter)),
        ({
            let voted = vote_step(s, now, voter, id, in_favor).0;
            let second = vote_step(voted, later, voter, id, again);
            &&& voted.votes.contains_key((id, voter))
            &&& second.1 is Err
            &&& second.0 == voted
            &&& later <= voting_deadline(s.proposals[id], s.config->0.voting_period)
                ==> second.1 == Err::<(), GovernanceError>(GovernanceError::DoubleVote)
        }),
{
}

/// Whoever has a vote record on a proposal cannot vote on it again, in whatever state:
/// the call fails and changes nothing. It fails with `DoubleVote` exactly when the
/// proposal is active and its window still open.
pub proof fn law_vote_record_bars_voting(
    s: GovernanceState,
    now: u64,
    voter: PrincipalId,
    id: u32,
    in_favor: bool,
)
    requires
        s.votes.contains_key((id, voter)),
    ensures
        vote_step(s, now, voter, id, in_favor).1 is Err,
        vote_step(s, now, voter, id, in_favor).0 == s,
        vote_step(s, now, voter, id, in_favor).1 == Err::<(), GovernanceError>(
            GovernanceError::DoubleVote,
        ) <==> {
            &&& s.proposals.contains_key(id)
            &&& s.proposals[id].status == ProposalStatus::Active
            &&& s.config is Some
            &&& now <= voting_deadline(s.proposals[id], s.config->0.voting_period)
        },
{
}

/// No call removes or alters a vote record.
pub proof fn law_vote_records_are_kept(
    s: GovernanceState,
    call: Call,
    id: u32,
    voter: PrincipalId,
)
    requires
        s.votes.contains_key((id, voter)),
    ensures
        state_after(s, call).votes.contains_key((id, voter)),
        state_after(s, call).votes[(id, voter)] == s.votes[(id, voter)],
{
}

/// A submission whose bond is above the proposer's balance, or below the minimum that
/// initialization fixed, fails; no proposal record is made, the counter stays and so
/// does everything else. Once the engine is initialized the failure is
/// `InsufficientStake`.
pub proof fn law_underfunded_submission_changes_nothing(
    s: GovernanceState,
    now: u64,
    proposer: PrincipalId,
    metadata: Seq<char>,
    stake: u32,
)
    requires
        stake > s.weight_of(proposer) || (s.config is Some && stake < s.config->0.min_stake),
    ensures
        submit_step(s, now, proposer, metadata, stake).1 is Err,
        submit_step(s, now, proposer, metadata, stake).0 == s,
        s.config is Some ==> submit_step(s, now, proposer, metadata, stake).1 == Err::<
            u32,
            GovernanceError,
        >(GovernanceError::InsufficientStake),
{
}

/// A proposal that its proposer cancels right after submitting it leaves every
/// principal with the weight held before the submission.
pub proof fn law_cancel_after_submit_restores_weight(
    s: GovernanceState,
    now: u64,
    proposer: PrincipalId,
    metadata: Seq<char>,
    stake: u32,
    who: PrincipalId,
)
    requires
        submit_step(s, now, proposer, metadata, stake).1 is Ok,
    ensures
        ({
            let submitted = submit_step(s, now, proposer, metadata, stake);
            let id = submitted.1->Ok_0;
            let cancelled = cancel_step(submitted.0, proposer, id);
            &&& refund_has_room(submitted.0, id)
            &&& cancelled.1 is Ok
            &&& cancelled.0.proposals[id].status == ProposalStatus::Cancelled
            &&& cancelled.0.weight_of(who) == s.weight_of(who)
        }),
{
}

/// A call that addresses a proposal which is no longer active fails with
/// `InvalidState` and changes nothing: no vote, amendment, cancellation or evaluation
/// goes through, and the bond is not returned a second time.
pub proof fn law_resolved_proposals_refuse_calls(s: GovernanceState, call: Call, id: u32)
    requires
        s.proposals.contains_key(id),
        s.proposals[id].status != ProposalStatus::Active,
        match call {
            Call::Vote { id: target, .. } => target == id,
            Call::Evaluate { id: target, .. } => target == id,
            Call::Cancel { id: target, .. } => target == id,
            Call::Amend { id: target, .. } => target == id,
            _ => false,
        },
    ensures
        error_of(s, call) == Some(GovernanceError::InvalidState),
        state_after(s, call) == s,
{
}

/// Whatever is called, a proposal that is no longer active stays exactly as it is.
pub proof fn law_resolved_proposals_are_final(s: GovernanceState, call: Call, id: u32)
    requires
        records_agree(s),
        s.proposals.contains_key(id),
        s.proposals[id].status != ProposalStatus::Active,
    ensures
        state_after(s, call).proposals.contains_key(id),
        state_after(s, call).proposals[id] == s.proposals[id],
{
}

/// Once fixed, the parameters never change.
pub proof fn law_parameters_are_fixed(s: GovernanceState, call: Call)
    requires
        s.config is Some,
    ensures
        state_after(s, call).config == s.config,
{
}

/// A submission that goes through opens its proposal under the identifier at which
/// the counter stood, which no proposal had before, and moves the counter on by one.
/// Every other proposal stays as it was.
pub proof fn law_identifiers_are_fresh(
    s: GovernanceState,
    now: u64,
    proposer: PrincipalId,
    metadata: Seq<char>,
    stake: u32,
    other: u32,
)
    requires
        records_agree(s),
        submit_step(s, now, proposer, metadata, stake).1 is Ok,
        s.next_proposal_id < u32::MAX,
        s.proposals.contains_key(other),
    ensures
        ({
            let (after, result) = submit_step(s, now, proposer, metadata, stake);
            let id = result->Ok_0;
            &&& id == s.next_proposal_id
            &&& !s.proposals.contains_key(id)
            &&& after.next_proposal_id == id + 1
            &&& after.proposals[id].status == ProposalStatus::Active
            &&& after.proposals.contains_key(other)
            &&& after.proposals[other] == s.proposals[other]
        }),
{
}

/// No call within limits lowers a tally.
pub proof fn law_tallies_never_decrease(s: GovernanceState, call: Call, id: u32)
    requires
        records_agree(s),
        within_limits(s, call),
        s.proposals.contains_key(id),
    ensures
        state_after(s, call).proposals.contains_key(id),
        state_after(s, call).proposals[id].yes_votes >= s.proposals[id].yes_votes,
        state_after(s, call).proposals[id].no_votes >= s.proposals[id].no_votes,
{
}

/// The bond follows the resolution. A call within limits that takes a proposal out of
/// the active status returns the bond to the proposer unless the proposal is approved,
/// and moves no other weight: on rejection, a tie included, and on cancellation the
/// proposer holds the bond again; on approval the bond stays where it is.
pub proof fn law_bond_follows_resolution(s: GovernanceState, call: Call, id: u32, who: PrincipalId)
    requires
        records_agree(s),
        within_limits(s, call),
        s.proposals.contains_key(id),
        s.proposals[id].status == ProposalStatus::Active,
        state_after(s, call).proposals[id].status != ProposalStatus::Active,
    ensures
        ({
            let proposal = s.proposals[id];
            let after = state_after(s, call);
            let returned = after.proposals[id].status != ProposalStatus::Approved && who
                == proposal.proposer;
            &&& after.proposals[id].executed == (after.proposals[id].status
                == ProposalStatus::Approved)
            &&& after.weight_of(who) == if returned {
                s.weight_of(who) + proposal.stake
            } else {
                s.weight_of(who) as int
            }
        }),
{
}

/// Whether two tables of vote records hold the same under the key of proposal `id` and
/// each of `voters`.
pub open spec fn same_votes_of(
    voters: Seq<PrincipalId>,
    votes: Map<(u32, PrincipalId), VoteView>,
    other: Map<(u32, PrincipalId), VoteView>,
    id: u32,
) -> bool {
    forall|i: int|
        0 <= i < voters.len() ==> {
            &&& votes.contains_key((id, #[trigger] voters[i])) == other.contains_key(
                (id, voters[i]),
            )
            &&& votes.contains_key((id, voters[i])) ==> votes[(id, voters[i])] == other[(
                id,
                voters[i],
            )]
        }
}

/// A tally depends on the records of the listed voters alone.
proof fn lemma_tally_reads_listed_voters(
    voters: Seq<PrincipalId>,
    votes: Map<(u32, PrincipalId), VoteView>,
    other: Map<(u32, PrincipalId), VoteView>,
    id: u32,
    in_favor: bool,
)
    requires
        same_votes_of(voters, votes, other, id),
    ensures
        tally_of(voters, votes, id, in_favor) == tally_of(voters, other, id, in_favor),
    decreases voters.len(),
{
    if voters.len() > 0 {
        let rest = voters.drop_last();
        assert forall|i: int| 0 <= i < rest.len() implies {
            &&& votes.contains_key((id, #[trigger] rest[i])) == other.contains_key((id, rest[i]))
            &&& votes.contains_key((id, rest[i])) ==> votes[(id, rest[i])] == other[(
                id,
                rest[i],
            )]
        } by {
            assert(rest[i] == voters[i]);
        }
        lemma_tally_reads_listed_voters(rest, votes, other, id, in_favor);
        assert(voters.last() == voters[voters.len() - 1]);
    }
}

proof fn lemma_initialize_keeps_agreement(
    s: GovernanceState,
    admin: PrincipalId,
    quorum: u32,
    voting_period: u64,
    min_stake: u32,
)
    requires
        records_agree(s),
    ensures
        records_agree(initialize_step(s, admin, quorum, voting_period, min_stake).0),
{
    let after = initialize_step(s, admin, quorum, voting_period, min_stake).0;
    if s.config is None {
        assert forall|id: u32| !s.proposals.contains_key(id) by {}
        assert forall|id: u32| after.voters_of(id) == s.voters_of(id) by {}
    }
}

proof fn lemma_submit_keeps_agreement(
    s: GovernanceState,
    now: u64,
    proposer: PrincipalId,
    metadata: Seq<char>,
    stake: u32,
)
    requires
        records_agree(s),
        submit_step(s, now, proposer, metadata, stake).1 is Ok ==> s.next_proposal_id < u32::MAX,
    ensures
        records_agree(submit_step(s, now, proposer, metadata, stake).0),
{
    let after = submit_step(s, now, proposer, metadata, stake).0;
    if submit_step(s, now, proposer, metadata, stake).1 is Ok {
        let new_id = s.next_proposal_id;
        assert(!s.proposals.contains_key(new_id));
        assert(!s.voters.contains_key(new_id));
        assert forall|id: u32| after.voters_of(id) == s.voters_of(id) by {}
        assert(s.voters_of(new_id) =~= Seq::<PrincipalId>::empty());
        assert forall|id: u32| #[trigger] after.proposals.contains_key(id) implies {
            &&& after.proposals[id].id == id
            &&& 1 <= id < after.next_proposal_id
            &&& after.proposals[id].executed == (after.proposals[id].status
                == ProposalStatus::Approved)
            &&& after.proposals[id].yes_votes == tally_of(
                after.voters_of(id),
                after.votes,
                id,
                true,
            )
            &&& after.proposals[id].no_votes == tally_of(
                after.voters_of(id),
                after.votes,
                id,
                false,
            )
        } by {
            if id != new_id {
                assert(s.proposals.contains_key(id));
            }
        }
    }
}

proof fn lemma_vote_keeps_agreement(
    s: GovernanceState,
    now: u64,
    voter: PrincipalId,
    id: u32,
    in_favor: bool,
)
    requires
        records_agree(s),
        vote_step(s, now, voter, id, in_favor).1 is Ok ==> tally_has_room(s, id, voter, in_favor),
    ensures
        records_agree(vote_step(s, now, voter, id, in_favor).0),
{
    let after = vote_step(s, now, voter, id, in_favor).0;
    if vote_step(s, now, voter, id, in_favor).1 is Ok {
        let old_voters = s.voters_of(id);
        let weight = s.weight_of(voter);
        assert(after.voters_of(id) == old_voters.push(voter));
        assert forall|other: u32| other != id implies after.voters_of(other) == s.voters_of(
            other,
        ) by {}
        assert(!old_voters.contains(voter)) by {
            if old_voters.contains(voter) {
                let i = choose|i: int| 0 <= i < old_voters.len() && old_voters[i] == voter;
                assert(s.votes.contains_key((id, s.voters_of(id)[i])));
            }
        }
        assert forall|other: u32| #[trigger] after.voters_of(other).no_duplicates() by {
            assert(s.voters_of(other).no_duplicates());
            if other == id {
                assert forall|i: int, j: int|
                    0 <= i < old_voters.push(voter).len() && 0 <= j < old_voters.push(voter).len()
                        && i != j implies old_voters.push(voter)[i] != old_voters.push(voter)[j] by {
                    if i < old_voters.len() {
                        assert(old_voters.contains(old_voters[i]));
                    }
                    if j < old_voters.len() {
                        assert(old_voters.contains(old_voters[j]));
                    }
                }
            }
        }
        assert forall|other: u32, i: int|
            0 <= i < after.voters_of(other).len() implies after.votes.contains_key(
            (other, #[trigger] after.voters_of(other)[i]),
        ) by {
            if other == id {
                if i < old_voters.len() {
                    assert(s.votes.contains_key((id, s.voters_of(id)[i])));
                }
            } else {
                assert(s.votes.contains_key((other, s.voters_of(other)[i])));
            }
        }
        assert forall|other: u32, who: PrincipalId| #[trigger]
            after.votes.contains_key((other, who)) implies {
            &&& after.proposals.contains_key(other)
            &&& after.votes[(other, who)].voter == who
            &&& after.votes[(other, who)].weight > 0
            &&& after.voters_of(other).contains(who)
        } by {
            if other == id && who == voter {
                assert(old_voters.push(voter)[old_voters.len() as int] == voter);
            } else {
                assert(s.votes.contains_key((other, who)));
                if other == id {
                    let i = choose|i: int| 0 <= i < old_voters.len() && old_voters[i] == who;
                    assert(old_voters.push(voter)[i] == who);
                }
            }
        }
        assert forall|other: u32| #[trigger] after.proposals.contains_key(other) implies {
            &&& after.proposals[other].id == other
            &&& 1 <= other < after.next_proposal_id
            &&& after.proposals[other].executed == (after.proposals[other].status
                == ProposalStatus::Approved)
            &&& after.proposals[other].yes_votes == tally_of(
                after.voters_of(other),
                after.votes,
                other,
                true,
            )
            &&& after.proposals[other].no_votes == tally_of(
                after.voters_of(other),
                after.votes,
                other,
                false,
            )
        } by {
            assert(s.proposals.contains_key(other));
            let listed = s.voters_of(other);
            assert(same_votes_of(listed, s.votes, after.votes, other)) by {
                assert forall|i: int| 0 <= i < listed.len() implies {
                    &&& s.votes.contains_key((other, #[trigger] listed[i]))
                        == after.votes.contains_key((other, listed[i]))
                    &&& s.votes.contains_key((other, listed[i])) ==> s.votes[(other, listed[i])]
                        == after.votes[(other, listed[i])]
                } by {
                    if other == id {
                        assert(old_voters.contains(listed[i]));
                    }
                }
            }
            lemma_tally_reads_listed_voters(listed, s.votes, after.votes, other, true);
            lemma_tally_reads_listed_voters(listed, s.votes, after.votes, other, false);
            if other == id {
                let pushed = old_voters.push(voter);
                assert(pushed.drop_last() =~= old_voters);
                assert(pushed.last() == voter);
            }
        }
    }
}

/// Storing an altered copy of proposal `id` that keeps its identifier and tallies, and
/// changing balances, keeps the records in agreement.
proof fn lemma_restatement_keeps_agreement(
    s: GovernanceState,
    after: GovernanceState,
    id: u32,
    restated: ProposalView,
)
    requires
        records_agree(s),
        s.proposals.contains_key(id),
        restated.id == id,
        restated.yes_votes == s.proposals[id].yes_votes,
        restated.no_votes == s.proposals[id].no_votes,
        restated.executed == (restated.status == ProposalStatus::Approved),
        after.config == s.config,
        after.next_proposal_id == s.next_proposal_id,
        after.proposals == s.proposals.insert(id, restated),
        after.votes == s.votes,
        after.voters == s.voters,
        after.token_holders == s.token_holders,
    ensures
        records_agree(after),
{
    assert forall|other: u32| after.voters_of(other) == s.voters_of(other) by {}
    assert forall|other: u32| #[trigger] after.proposals.contains_key(other) implies {
        &&& after.proposals[other].id == other
        &&& 1 <= other < after.next_proposal_id
        &&& after.proposals[other].executed == (after.proposals[other].status
            == ProposalStatus::Approved)
        &&& after.proposals[other].yes_votes == tally_of(
            after.voters_of(other),
            after.votes,
            other,
            true,
        )
        &&& after.proposals[other].no_votes == tally_of(
            after.voters_of(other),
            after.votes,
            other,
            false,
        )
    } by {
        assert(s.proposals.contains_key(other));
    }
    assert forall|other: u32, who: PrincipalId| #[trigger]
        after.votes.contains_key((other, who)) implies {
        &&& after.proposals.contains_key(other)
        &&& after.votes[(other, who)].voter == who
        &&& after.votes[(other, who)].weight > 0
        &&& after.voters_of(other).contains(who)
    } by {
        assert(s.votes.contains_key((other, who)));
    }
    assert forall|other: u32, i: int|
        0 <= i < after.voters_of(other).len() implies after.votes.contains_key(
        (other, #[trigger] after.voters_of(other)[i]),
    ) by {
        assert(s.votes.contains_key((other, s.voters_of(other)[i])));
    }
    assert forall|other: u32| #[trigger] after.voters_of(other).no_duplicates() by {
        assert(s.voters_of(other).no_duplicates());
    }
}

proof fn lemma_evaluate_keeps_agreement(s: GovernanceState, now: u64, id: u32)
    requires
        records_agree(s),
    ensures
        records_agree(evaluate_step(s, now, id).0),
{
    let after = evaluate_step(s, now, id).0;
    if after != s {
        lemma_restatement_keeps_agreement(s, after, id, after.proposals[id]);
    }
}

proof fn lemma_cancel_keeps_agreement(s: GovernanceState, caller: PrincipalId, id: u32)
    requires
        records_agree(s),
    ensures
        records_agree(cancel_step(s, caller, id).0),
{
    let after = cancel_step(s, caller, id).0;
    if after != s {
        lemma_restatement_keeps_agreement(s, after, id, after.proposals[id]);
    }
}

proof fn lemma_amend_keeps_agreement(
    s: GovernanceState,
    proposer: PrincipalId,
    id: u32,
    new_metadata: Seq<char>,
)
    requires
        records_agree(s),
    ensures
        records_agree(amend_step(s, proposer, id, new_metadata).0),
{
    let after = amend_step(s, proposer, id, new_metadata).0;
    if after != s {
        lemma_restatement_keeps_agreement(s, after, id, after.proposals[id]);
    }
}

/// A list without duplicates has none after its first entry equal to `value` is removed.
proof fn lemma_remove_value_keeps_distinct(list: Seq<PrincipalId>, value: PrincipalId)
    requires
        list.no_duplicates(),
    ensures
        list.remove_value(value).no_duplicates(),
{
    list.index_of_first_ensures(value);
    match list.index_of_first(value) {
        Some(at) => {
            list.remove_ensures(at);
            let shorter = list.remove(at);
            assert forall|i: int, j: int|
                0 <= i < shorter.len() && 0 <= j < shorter.len() && i != j implies shorter[i]
                != shorter[j] by {
                let from_i = if i < at {
                    i
                } else {
                    i + 1
                };
                let from_j = if j < at {
                    j
                } else {
                    j + 1
                };
                assert(shorter[i] == list[from_i]);
                assert(shorter[j] == list[from_j]);
            }
        },
        None => {},
    }
}

proof fn lemma_set_token_balance_keeps_agreement(
    s: GovernanceState,
    admin: PrincipalId,
    address: PrincipalId,
    balance: u32,
)
    requires
        records_agree(s),
    ensures
        records_agree(set_token_balance_step(s, admin, address, balance).0),
{
    let after = set_token_balance_step(s, admin, address, balance).0;
    if s.is_admin(admin) {
        assert forall|other: u32| after.voters_of(other) == s.voters_of(other) by {}
        lemma_remove_value_keeps_distinct(s.token_holders, address);
        if balance > 0 && !s.token_holders.contains(address) {
            let pushed = s.token_holders.push(address);
            assert forall|i: int, j: int|
                0 <= i < pushed.len() && 0 <= j < pushed.len() && i != j implies pushed[i]
                != pushed[j] by {
                if i < s.token_holders.len() {
                    assert(s.token_holders.contains(pushed[i]));
                }
                if j < s.token_holders.len() {
                    assert(s.token_holders.contains(pushed[j]));
                }
            }
        }
    }
}

/// The records agree in every reachable state: they do in the empty state, and a call
/// within limits that finds them in agreement leaves them so. In particular every
/// proposal is stored under its own identifier, which lies below the counter and is
/// never handed out again; a proposal is executed exactly when it is approved; its
/// tallies are the summed weights of the votes recorded for it; and nobody is listed
/// twice among a proposal's voters or in the registry of holders.
pub proof fn law_records_agree_is_kept(s: GovernanceState, call: Call)
    requires
        records_agree(s),
        within_limits(s, call),
    ensures
        records_agree(state_after(s, call)),
{
    match call {
        Call::Initialize { admin, quorum, voting_period, min_stake } => {
            lemma_initialize_keeps_agreement(s, admin, quorum, voting_period, min_stake);
        },
        Call::Submit { now, proposer, metadata, stake } => {
            lemma_submit_keeps_agreement(s, now, proposer, metadata, stake);
        },
        Call::Vote { now, voter, id, in_favor } => {
            lemma_vote_keeps_agreement(s, now, voter, id, in_favor);
        },
        Call::Evaluate { now, id } => {
            lemma_evaluate_keeps_agreement(s, now, id);
        },
        Call::Cancel { caller, id } => {
            lemma_cancel_keeps_agreement(s, caller, id);
        },
        Call::Amend { proposer, id, new_metadata } => {
            lemma_amend_keeps_agreement(s, proposer, id, new_metadata);
        },
        Call::SetTokenBalance { admin, address, balance } => {
            lemma_set_token_balance_keeps_agreement(s, admin, address, balance);
        },
    }
}

/// The weight that `balances` gives to `who`.
pub open spec fn weight_in(balances: Map<PrincipalId, u32>, who: PrincipalId) -> nat {
    if balances.contains_key(who) {
        balances[who] as nat
    } else {
        0
    }
}

/// The total over a list is the weight of any one entry plus the total over the rest.
proof fn lemma_sum_splits_at(holders: Seq<PrincipalId>, balances: Map<PrincipalId, u32>, at: int)
    requires
        0 <= at < holders.len(),
    ensures
        sum_of_weights(holders, balances) == sum_of_weights(holders.remove(at), balances)
            + weight_in(balances, holders[at]),
    decreases holders.len(),
{
    if at == holders.len() - 1 {
        assert(holders.remove(at) =~= holders.drop_last());
    } else {
        lemma_sum_splits_at(holders.drop_last(), balances, at);
        assert(holders.remove(at).drop_last() =~= holders.drop_last().remove(at));
        assert(holders.remove(at).last() == holders.last());
        assert(holders.drop_last()[at] == holders[at]);
    }
}

/// Voters that are all different, each of them a listed holder whose recorded vote
/// weighs no more than the holder's present balance, cannot have cast more weight
/// than the listed holders have together.
proof fn lemma_tallies_bounded(
    voters: Seq<PrincipalId>,
    votes: Map<(u32, PrincipalId), VoteView>,
    id: u32,
    holders: Seq<PrincipalId>,
    balances: Map<PrincipalId, u32>,
)
    requires
        voters.no_duplicates(),
        forall|i: int|
            0 <= i < voters.len() ==> {
                &&& holders.contains(#[trigger] voters[i])
                &&& votes.contains_key((id, voters[i])) ==> votes[(id, voters[i])].weight
                    <= weight_in(balances, voters[i])
            },
    ensures
        tally_of(voters, votes, id, true) + tally_of(voters, votes, id, false) <= sum_of_weights(
            holders,
            balances,
        ),
    decreases voters.len(),
{
    if voters.len() > 0 {
        let last = voters.last();
        let rest = voters.drop_last();
        assert(last == voters[voters.len() - 1]);
        let at = choose|at: int| 0 <= at < holders.len() && holders[at] == last;
        let others = holders.remove(at);
        holders.remove_ensures(at);
        lemma_sum_splits_at(holders, balances, at);
        assert forall|i: int| 0 <= i < rest.len() implies {
            &&& others.contains(#[trigger] rest[i])
            &&& votes.contains_key((id, rest[i])) ==> votes[(id, rest[i])].weight <= weight_in(
                balances,
                rest[i],
            )
        } by {
            assert(rest[i] == voters[i]);
            assert(voters[i] != last);
            let from = choose|from: int| 0 <= from < holders.len() && holders[from] == voters[i];
            if from < at {
                assert(others[from] == holders[from]);
            } else {
                assert(others[from - 1] == holders[from]);
            }
        }
        assert(rest.no_duplicates()) by {
            assert forall|i: int, j: int|
                0 <= i < rest.len() && 0 <= j < rest.len() && i != j implies rest[i] != rest[j] by {
                assert(rest[i] == voters[i] && rest[j] == voters[j]);
            }
        }
        lemma_tallies_bounded(rest, votes, id, others, balances);
    }
}

/// The weight cast on a proposal does not exceed the registered weight at the time
/// of evaluation, which leaves the tallies as they are, provided that every voter is
/// still a registered holder with at least the balance that the vote was cast with.
pub proof fn law_tallies_within_registered_weight(s: GovernanceState, now: u64, id: u32)
    requires
        records_agree(s),
        s.proposals.contains_key(id),
        forall|i: int|
            0 <= i < s.voters_of(id).len() ==> {
                &&& s.token_holders.contains(#[trigger] s.voters_of(id)[i])
                &&& s.votes[(id, s.voters_of(id)[i])].weight <= s.weight_of(s.voters_of(id)[i])
            },
    ensures
        s.proposals[id].yes_votes + s.proposals[id].no_votes <= s.total_registered_weight(),
        ({
            let after = evaluate_step(s, now, id).0;
            after.proposals[id].yes_votes + after.proposals[id].no_votes
                <= s.total_registered_weight()
        }),
{
    assert(s.voters_of(id).no_duplicates());
    lemma_tallies_bounded(s.voters_of(id), s.votes, id, s.token_holders, s.balances);
}

} // verus!
