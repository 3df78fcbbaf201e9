use energy_grid::auth::Principal;
use energy_grid::governance::{Governance, GovernanceError, ProposalStatus};

#[test]
fn test_governance_flow() {
    let admin = Principal::new(1);
    let proposer = Principal::new(2);
    let voter = Principal::new(3);
    let mut g = Governance::initialize(admin);

    let prop_id = g
        .create_proposal(proposer, proposer, "Upgrade Grid".to_string(), "Install more batteries".to_string(), 3600, 0)
        .unwrap();
    assert_eq!(prop_id, 1);

    g.vote(voter, voter, 1, true, 0).unwrap();
    let prop = g.get_proposal(1).unwrap();
    assert_eq!(prop.votes_yes, 1);

    g.finalize_proposal(1, 3601).unwrap();
    let final_prop = g.get_proposal(1).unwrap();
    assert_eq!(final_prop.status, ProposalStatus::Passed);
}

#[test]
fn governance_errors() {
    let admin = Principal::new(1);
    let p = Principal::new(2);
    let mut g = Governance::initialize(admin);
    assert_eq!(
        g.create_proposal(admin, p, "t".to_string(), "d".to_string(), 10, 0),
        Err(GovernanceError::Unauthorized)
    );
    assert_eq!(
        g.create_proposal(p, p, "t".to_string(), "d".to_string(), u64::MAX, 1),
        Err(GovernanceError::Overflow)
    );
    let id = g.create_proposal(p, p, "t".to_string(), "d".to_string(), 10, 100).unwrap();
    assert_eq!(g.vote(p, p, 9, true, 100), Err(GovernanceError::ProposalNotFound));
    assert_eq!(g.vote(p, p, id, true, 111), Err(GovernanceError::VotingEnded));
    assert_eq!(g.finalize_proposal(id, 110), Err(GovernanceError::VotingNotEnded));
    g.vote(p, p, id, false, 110).unwrap();
    assert_eq!(g.finalize_proposal(id, 111), Ok(ProposalStatus::Rejected));
    assert_eq!(g.vote(p, p, id, true, 100), Err(GovernanceError::ProposalNotActive));
    assert_eq!(g.get_proposal(id).unwrap().votes_no, 1);
    assert!(g.get_proposal(2).is_none());
}
