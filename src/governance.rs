//! Community governance: proposals that members vote on until a deadline,
//! then finalized as passed or rejected. Times are ledger timestamps in
//! seconds, handed in by the caller.
use crate::auth::{authorized, Principal};
use vstd::prelude::*;

verus! {

/// Where a proposal stands.
#[derive(Clone, Copy, Debug, PartialEq, Eq, Structural)]
pub enum ProposalStatus {
    Active,
    Passed,
    Rejected,
    Executed,
}

/// One proposal, with its running tally.
#[derive(Debug)]
pub struct Proposal {
    pub id: u64,
    pub title: String,
    pub description: String,
    pub proposer: Principal,
    pub votes_yes: i128,
    pub votes_no: i128,
    pub status: ProposalStatus,
    /// The last timestamp at which a vote is accepted.
    pub deadline: u64,
}

/// Why a governance operation was refused.
#[derive(Clone, Copy, Debug, PartialEq, Eq, Structural)]
pub enum GovernanceError {
    /// The caller is not the principal the operation requires.
    Unauthorized,
    /// No proposal has the given id.
    ProposalNotFound,
    /// The deadline has passed.
    VotingEnded,
    /// The proposal is no longer active.
    ProposalNotActive,
    /// The deadline has not passed yet.
    VotingNotEnded,
    /// An id, a deadline or a tally would not fit its integer type.
    Overflow,
}

/// The proposals of one community, numbered from 1 in order of creation.
pub struct Governance {
    admin: Principal,
    proposals: Vec<Proposal>,
}

/// The proposal with id `id` in a list laid out by id.
pub open spec fn proposal_at(proposals: Seq<Proposal>, id: u64) -> Option<Proposal> {
    if 1 <= id && id <= proposals.len() {
        Some(proposals[id - 1])
    } else {
        None
    }
}

/// What `create_proposal` returns on a list of `count` proposals.
pub open spec fn create_proposal_result(count: int, caller: Principal, proposer: Principal, duration: int, now: int) -> Result<u64, GovernanceError> {
    if caller != proposer {
        Err(GovernanceError::Unauthorized)
    } else if count >= u64::MAX || now + duration > u64::MAX {
        Err(GovernanceError::Overflow)
    } else {
        Ok((count + 1) as u64)
    }
}

/// What `vote` returns.
pub open spec fn vote_result(proposals: Seq<Proposal>, caller: Principal, voter: Principal, proposal_id: u64, support: bool, now: int) -> Result<(), GovernanceError> {
    if caller != voter {
        Err(GovernanceError::Unauthorized)
    } else {
        match proposal_at(proposals, proposal_id) {
            None => Err(GovernanceError::ProposalNotFound),
            Some(p) => if now > p.deadline {
                Err(GovernanceError::VotingEnded)
            } else if p.status != ProposalStatus::Active {
                Err(GovernanceError::ProposalNotActive)
            } else if (support && p.votes_yes == i128::MAX) || (!support && p.votes_no == i128::MAX) {
                Err(GovernanceError::Overflow)
            } else {
                Ok(())
            },
        }
    }
}

/// `p` with one more vote for or against.
pub open spec fn with_vote(p: Proposal, support: bool) -> Proposal {
    if support {
        Proposal { votes_yes: (p.votes_yes + 1) as i128, ..p }
    } else {
        Proposal { votes_no: (p.votes_no + 1) as i128, ..p }
    }
}

/// What `finalize_proposal` returns.
pub open spec fn finalize_result(proposals: Seq<Proposal>, proposal_id: u64, now: int) -> Result<ProposalStatus, GovernanceError> {
    match proposal_at(proposals, proposal_id) {
        None => Err(GovernanceError::ProposalNotFound),
        Some(p) => if now <= p.deadline {
            Err(GovernanceError::VotingNotEnded)
        } else if p.votes_yes > p.votes_no {
            Ok(ProposalStatus::Passed)
        } else {
            Ok(ProposalStatus::Rejected)
        },
    }
}

/// A copy of `p`.
fn copy_proposal(p: &Proposal) -> (r: Proposal)
    ensures
        r == *p,
{
    Proposal {
        id: p.id,
        title: p.title.clone(),
        description: p.description.clone(),
        proposer: p.proposer,
        votes_yes: p.votes_yes,
        votes_no: p.votes_no,
        status: p.status,
        deadline: p.deadline,
    }
}

impl Governance {
    /// The community's administrator.
    pub closed spec fn spec_admin(&self) -> Principal {
        self.admin
    }

    /// The proposals, the one with id `n` at position `n - 1`.
    pub closed spec fn spec_proposals(&self) -> Seq<Proposal> {
        self.proposals@
    }

    /// Ids follow positions and the count of proposals fits an id.
    pub open spec fn wf(&self) -> bool {
        &&& self.spec_proposals().len() <= u64::MAX
        &&& forall|i: int|
            0 <= i < self.spec_proposals().len() ==> (#[trigger] self.spec_proposals()[i]).id == i + 1
    }

    /// No proposals yet; `admin` administers the community.
    pub fn initialize(admin: Principal) -> (r: Governance)
        ensures
            r.wf(),
            r.spec_admin() == admin,
            r.spec_proposals().len() == 0,
    {
        Governance { admin, proposals: Vec::new() }
    }

    /// Opens a proposal by `proposer` for voting until `now + duration`,
    /// and returns its id, the next in sequence.
    pub fn create_proposal(
        &mut self,
        caller: Principal,
        proposer: Principal,
        title: String,
        description: String,
        duration: u64,
        now: u64,
    ) -> (r: Result<u64, GovernanceError>)
        requires
            old(self).wf(),
        ensures
            final(self).wf(),
            final(self).spec_admin() == old(self).spec_admin(),
            r == create_proposal_result(old(self).spec_proposals().len() as int, caller, proposer, duration as int, now as int),
            r is Ok ==> final(self).spec_proposals() == old(self).spec_proposals().push(
                Proposal {
                    id: r->Ok_0,
                    title,
                    description,
                    proposer,
                    votes_yes: 0,
                    votes_no: 0,
                    status: ProposalStatus::Active,
                    deadline: (now + duration) as u64,
                },
            ),
            r is Err ==> final(self).spec_proposals() == old(self).spec_proposals(),
    {
        if !authorized(caller, proposer) {
            return Err(GovernanceError::Unauthorized);
        }
        let count = self.proposals.len() as u64;
        if count == u64::MAX {
            return Err(GovernanceError::Overflow);
        }
        let deadline = match now.checked_add(duration) {
            Some(d) => d,
            None => return Err(GovernanceError::Overflow),
        };
        let id = count + 1;
        self.proposals.push(
            Proposal {
                id,
                title,
                description,
                proposer,
                votes_yes: 0,
                votes_no: 0,
                status: ProposalStatus::Active,
                deadline,
            },
        );
        Ok(id)
    }

    /// Records `voter`'s vote for (`support`) or against a proposal that is
    /// active and whose deadline has not passed at `now`.
    pub fn vote(&mut self, caller: Principal, voter: Principal, proposal_id: u64, support: bool, now: u64) -> (r: Result<(), GovernanceError>)
        requires
            old(self).wf(),
        ensures
            final(self).wf(),
            final(self).spec_admin() == old(self).spec_admin(),
            r == vote_result(old(self).spec_proposals(), caller, voter, proposal_id, support, now as int),
            r is Ok ==> final(self).spec_proposals() == old(self).spec_proposals().update(
                proposal_id - 1,
                with_vote(old(self).spec_proposals()[proposal_id - 1], support),
            ),
            r is Err ==> final(self).spec_proposals() == old(self).spec_proposals(),
    {
        if !authorized(caller, voter) {
            return Err(GovernanceError::Unauthorized);
        }
        if proposal_id < 1 || proposal_id > self.proposals.len() as u64 {
            return Err(GovernanceError::ProposalNotFound);
        }
        let i = (proposal_id - 1) as usize;
        if now > self.proposals[i].deadline {
            return Err(GovernanceError::VotingEnded);
        }
        if self.proposals[i].status != ProposalStatus::Active {
            return Err(GovernanceError::ProposalNotActive);
        }
        let ghost before = self.proposals@;
        if support {
            if self.proposals[i].votes_yes == i128::MAX {
                return Err(GovernanceError::Overflow);
            }
            self.proposals[i].votes_yes = self.proposals[i].votes_yes + 1;
        } else {
            if self.proposals[i].votes_no == i128::MAX {
                return Err(GovernanceError::Overflow);
            }
            self.proposals[i].votes_no = self.proposals[i].votes_no + 1;
        }
        assert(self.proposals@ =~= before.update(i as int, with_vote(before[i as int], support)));
        Ok(())
    }

    /// Closes the vote on a proposal whose deadline has passed at `now`: it
    /// passes with more votes for than against, else it is rejected.
    /// Returns the new status.
    pub fn finalize_proposal(&mut self, proposal_id: u64, now: u64) -> (r: Result<ProposalStatus, GovernanceError>)
        requires
            old(self).wf(),
        ensures
            final(self).wf(),
            final(self).spec_admin() == old(self).spec_admin(),
            r == finalize_result(old(self).spec_proposals(), proposal_id, now as int),
            r is Ok ==> final(self).spec_proposals() == old(self).spec_proposals().update(
                proposal_id - 1,
                Proposal { status: r->Ok_0, ..old(self).spec_proposals()[proposal_id - 1] },
            ),
            r is Err ==> final(self).spec_proposals() == old(self).spec_proposals(),
    {
        if proposal_id < 1 || proposal_id > self.proposals.len() as u64 {
            return Err(GovernanceError::ProposalNotFound);
        }
        let i = (proposal_id - 1) as usize;
        if now <= self.proposals[i].deadline {
            return Err(GovernanceError::VotingNotEnded);
        }
        let status = if self.proposals[i].votes_yes > self.proposals[i].votes_no {
            ProposalStatus::Passed
        } else {
            ProposalStatus::Rejected
        };
        let ghost before = self.proposals@;
        self.proposals[i].status = status;
        assert(self.proposals@ =~= before.update(i as int, Proposal { status, ..before[i as int] }));
        Ok(status)
    }

    /// The proposal with id `proposal_id`, or `None` where there is none.
    pub fn get_proposal(&self, proposal_id: u64) -> (r: Option<Proposal>)
        requires
            self.wf(),
        ensures
            r == proposal_at(self.spec_proposals(), proposal_id),
    {
        if 1 <= proposal_id && proposal_id <= self.proposals.len() as u64 {
            Some(copy_proposal(&self.proposals[(proposal_id - 1) as usize]))
        } else {
            None
        }
    }
}

} // verus!
