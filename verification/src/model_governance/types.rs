use vstd::prelude::*;
use crate::principal::{Principal, PrincipalId};
use crate::record_map::RecordKey;

verus! {

/// Where a proposal stands. `Active` is the only status that another one can follow.
#[derive(Clone, Copy, PartialEq, Eq, Structural, Debug)]
pub enum ProposalStatus {
    Active,
    Approved,
    Rejected,
    Cancelled,
}

/// The two ways of acting at the wrong time with respect to a proposal's voting window.
#[derive(Clone, Copy, PartialEq, Eq, Structural, Debug)]
pub enum WindowViolation {
    /// A vote arrived after the window closed.
    VotingClosed,
    /// An evaluation was asked for before the window closed.
    VotingNotEnded,
}

/// Why a governance call did not go through.
#[derive(Clone, Copy, PartialEq, Eq, Structural, Debug)]
pub enum GovernanceError {
    /// The caller lacks the role that the action asks for.
    Unauthorized,
    /// The bond is below the minimum or above what the proposer holds.
    InsufficientStake,
    /// The proposal, or the engine itself, is not in the state that the action asks for.
    InvalidState,
    /// The action came on the wrong side of the voting deadline.
    VotingWindowViolation(WindowViolation),
    /// The principal has already voted on the proposal.
    DoubleVote,
    /// The voter holds no weight.
    NoVotingPower,
    /// No proposal has the given identifier.
    NotFound,
    /// Turnout stayed below the quorum. The proposal has been rejected and its bond
    /// returned all the same.
    QuorumNotMet,
}

/// The parameters that initialization fixes.
#[derive(Debug)]
pub struct Config {
    pub admin: Principal,
    /// Quorum in basis points of the registered weight.
    pub quorum: u32,
    /// Length of the voting window in seconds.
    pub voting_period: u64,
    /// Smallest bond that a proposal may carry.
    pub min_stake: u32,
}

/// The mathematical value of a [`Config`].
pub struct ConfigView {
    pub admin: PrincipalId,
    pub quorum: u32,
    pub voting_period: u64,
    pub min_stake: u32,
}

impl View for Config {
    type V = ConfigView;

    open spec fn view(&self) -> ConfigView {
        ConfigView {
            admin: self.admin@,
            quorum: self.quorum,
            voting_period: self.voting_period,
            min_stake: self.min_stake,
        }
    }
}

impl Clone for Config {
    fn clone(&self) -> (copy: Config)
        ensures
            copy@ == self@,
    {
        Config {
            admin: self.admin.clone(),
            quorum: self.quorum,
            voting_period: self.voting_period,
            min_stake: self.min_stake,
        }
    }
}

/// A governance item that is put to a token-weighted vote.
#[derive(Debug)]
pub struct Proposal {
    pub id: u32,
    pub proposer: Principal,
    /// Free text that describes the proposed change.
    pub metadata: String,
    /// The bond taken from the proposer at submission.
    pub stake: u32,
    pub status: ProposalStatus,
    /// Weight cast in favor.
    pub yes_votes: u32,
    /// Weight cast against.
    pub no_votes: u32,
    /// Time of submission; the voting window starts here.
    pub timestamp: u64,
    pub executed: bool,
}

/// The mathematical value of a [`Proposal`].
pub struct ProposalView {
    pub id: u32,
    pub proposer: PrincipalId,
    pub metadata: Seq<char>,
    pub stake: u32,
    pub status: ProposalStatus,
    pub yes_votes: u32,
    pub no_votes: u32,
    pub timestamp: u64,
    pub executed: bool,
}

impl View for Proposal {
    type V = ProposalView;

    open spec fn view(&self) -> ProposalView {
        ProposalView {
            id: self.id,
            proposer: self.proposer@,
            metadata: self.metadata@,
            stake: self.stake,
            status: self.status,
            yes_votes: self.yes_votes,
            no_votes: self.no_votes,
            timestamp: self.timestamp,
            executed: self.executed,
        }
    }
}

impl Clone for Proposal {
    fn clone(&self) -> (copy: Proposal)
        ensures
            copy@ == self@,
    {
        Proposal {
            id: self.id,
            proposer: self.proposer.clone(),
            metadata: self.metadata.clone(),
            stake: self.stake,
            status: self.status,
            yes_votes: self.yes_votes,
            no_votes: self.no_votes,
            timestamp: self.timestamp,
            executed: self.executed,
        }
    }
}

/// One cast vote. Its weight is the voter's balance at the moment of voting.
#[derive(Debug)]
pub struct Vote {
    pub voter: Principal,
    pub in_favor: bool,
    pub weight: u32,
}

/// The mathematical value of a [`Vote`].
pub struct VoteView {
    pub voter: PrincipalId,
    pub in_favor: bool,
    pub weight: u32,
}

impl View for Vote {
    type V = VoteView;

    open spec fn view(&self) -> VoteView {
        VoteView { voter: self.voter@, in_favor: self.in_favor, weight: self.weight }
    }
}

impl Clone for Vote {
    fn clone(&self) -> (copy: Vote)
        ensures
            copy@ == self@,
    {
        Vote { voter: self.voter.clone(), in_favor: self.in_favor, weight: self.weight }
    }
}

/// The key of a vote record: the proposal and the voter.
#[derive(Debug)]
pub struct VoteKey {
    pub proposal_id: u32,
    pub voter: Principal,
}

impl View for VoteKey {
    type V = (u32, PrincipalId);

    open spec fn view(&self) -> (u32, PrincipalId) {
        (self.proposal_id, self.voter@)
    }
}

impl RecordKey for VoteKey {
    fn same(&self, other: &VoteKey) -> (same: bool) {
        self.proposal_id == other.proposal_id && self.voter.same(&other.voter)
    }
}

} // verus!
