use venear::context::CallContext;
use venear::error::ContractError;
use venear::fraction::Fraction;
use venear::lockup_update::{LockupUpdateV1, VLockupUpdate};
use venear::token::NearToken;
use venear::venear::VenearGrowthConfigFixedRate;
use venear::venear_contract::{Config as VenearConfig, Contract as Venear};
use venear::voting::{Config, Contract, ProposalMetadata, ProposalStatus, VoteStats};
use venear::account_id::internal_map_owner_account_id;

const VENEAR: &str = "venear.near";
const VOTING: &str = "voting.near";
const REVIEWER: &str = "approver.near";
const OWNER: &str = "owner.near";
const GUARDIAN: &str = "guardian.near";
const BYTE_COST: u128 = 10_000_000_000_000_000_000;

fn ctx(current: &str, pred: &str, deposit: u128, ts: u64, height: u64) -> CallContext {
    CallContext {
        predecessor_account_id: pred.to_string(),
        current_account_id: current.to_string(),
        attached_deposit: NearToken::from_yoctonear(deposit),
        block_timestamp: ts,
        block_height: height,
        storage_byte_cost: NearToken::from_yoctonear(BYTE_COST),
    }
}

fn venear_with(accounts: &[&str]) -> Venear {
    let locked: Vec<(&str, u128)> = accounts.iter().enumerate().map(|(i, name)| (*name, 10 * (i as u128 + 1))).collect();
    venear_locking(&locked)
}

/// A veNEAR contract whose accounts have locked the given NEAR.
fn venear_locking(accounts: &[(&str, u128)]) -> Venear {
    let config = VenearConfig {
        lockup_contract_config: None,
        lockup_duration_ns: 90_000_000_000,
        staking_pool_whitelist_account_id: "whitelist.near".to_string(),
        lockup_code_deployers: vec!["deployer.near".to_string()],
        local_deposit: NearToken::from_millinear(100),
        min_extra_lockup_deposit: NearToken::from_near(2),
        owner_account_id: OWNER.to_string(),
        guardians: vec!["guardian.near".to_string()],
    };
    let rate = VenearGrowthConfigFixedRate {
        annual_growth_rate_ns: Fraction { numerator: 15854895991882, denominator: 10u128.pow(30) },
    };
    let mut v = Venear::new(config, rate, &ctx(VENEAR, OWNER, 0, 1_000_000_000, 10));
    v.prepare_lockup_code(&ctx(VENEAR, "deployer.near", 105 * BYTE_COST, 1_000_000_000, 10), vec![1, 2, 3, 4, 5]).unwrap();
    let hash = v.lockup_codes[0].hash;
    v.set_lockup_contract(&ctx(VENEAR, OWNER, 1, 1_000_000_000, 10), hash, NearToken::from_near(2)).unwrap();
    let cost = v.get_registration_cost(&ctx(VENEAR, OWNER, 0, 1_000_000_000, 10)).unwrap().as_yoctonear();
    for (name, near) in accounts.iter() {
        let name: &str = name;
        v.register_account(&ctx(VENEAR, name, cost, 2_000_000_000, 11), None).unwrap();
        v.on_lockup_deployed(&ctx(VENEAR, VENEAR, 0, 2_000_000_000, 11), 1, name.to_string(), 11_000_000, NearToken::from_near(2), true)
            .unwrap();
        let lockup = internal_map_owner_account_id(name, VENEAR).unwrap();
        let update = LockupUpdateV1 {
            locked_near_balance: NearToken::from_near(*near),
            timestamp: 2_000_000_000,
            lockup_update_nonce: 11_000_001,
        };
        v.on_lockup_update(&ctx(VENEAR, &lockup, 0, 2_000_000_000, 11), 1, name.to_string(), VLockupUpdate::V1(update)).unwrap();
    }
    v
}

fn voting() -> Contract {
    Contract::new(Config {
        venear_account_id: VENEAR.to_string(),
        approver_id: REVIEWER.to_string(),
        owner_account_id: OWNER.to_string(),
        voting_duration_ns: 1_000_000_000_000,
        max_number_of_voting_options: 5,
        proposal_fee: NearToken::from_millinear(10),
        default_quorum_percentage: 30,
        vote_storage_fee: NearToken::from_millinear(5),
        guardians: vec![GUARDIAN.to_string()],
    })
}

fn metadata(options: usize) -> ProposalMetadata {
    ProposalMetadata {
        title: Some("Test Proposal".to_string()),
        description: Some("This is a test proposal".to_string()),
        link: None,
        voting_options: (1..=options).map(|i| format!("Option {}", i)).collect(),
        quorum_percentage: None,
    }
}

/// A voting contract with one proposal, approved at 3 seconds against a
/// snapshot of `v` taken at block 12.
fn approved(v: &Venear) -> Contract {
    let mut c = voting();
    let (id, _) = c.create_proposal(&ctx(VOTING, "alice.near", NearToken::from_near(1).as_yoctonear(), 2_000_000_000, 11), metadata(3), 100).unwrap();
    let request = c.approve_proposal(&ctx(VOTING, REVIEWER, 1, 3_000_000_000, 12), id, None).unwrap();
    assert_eq!(request.venear_account_id, VENEAR);
    assert_eq!(request.callback_gas, 30_000_000_000_000);
    let (snapshot, state) = v.get_snapshot(&ctx(VENEAR, VOTING, 0, 3_000_000_000, 12)).unwrap();
    c.on_get_snapshot(&ctx(VOTING, VOTING, 0, 3_000_000_000, 12), snapshot, state, id, request.voting_start_time_sec, request.reviewer_id)
        .unwrap();
    c
}

#[test]
fn vote_stats_add_and_remove() {
    let mut s = VoteStats::default();
    s.add_vote(NearToken::from_near(3));
    s.add_vote(NearToken::from_near(4));
    assert_eq!(s.total_votes, 2);
    assert_eq!(s.total_venear.as_near(), 7);
    s.remove_vote(NearToken::from_near(3));
    assert_eq!(s.total_votes, 1);
    assert_eq!(s.total_venear.as_near(), 4);
    s.remove_vote(NearToken::from_near(4));
    assert_eq!(s, VoteStats::default());
}

#[test]
fn creating_a_proposal() {
    let mut c = voting();
    assert_eq!(c.get_num_proposals(), 0);
    let deposit = NearToken::from_millinear(10).as_yoctonear() + 100 * BYTE_COST;
    let (id, refund) = c.create_proposal(&ctx(VOTING, "alice.near", deposit + 5, 2_000_000_000, 11), metadata(3), 100).unwrap();
    assert_eq!(id, 0);
    let refund = refund.unwrap();
    assert_eq!(refund.receiver_id, "alice.near");
    assert_eq!(refund.amount.as_yoctonear(), 5);
    assert_eq!(c.get_num_proposals(), 1);
    assert_eq!(c.get_num_approved_proposals(), 0);
    let info = c.get_proposal(0, 2_000_000_000).unwrap();
    assert_eq!(info.proposal.status, ProposalStatus::Created);
    assert_eq!(info.proposal.total_votes.total_votes, 0);
    assert_eq!(info.proposal.votes.len(), 3);
    assert_eq!(info.proposal.proposer_id, "alice.near");
    assert_eq!(info.metadata.voting_options[2], "Option 3");
    let (_, none) = c.create_proposal(&ctx(VOTING, "alice.near", deposit, 2_000_000_000, 11), metadata(2), 100).unwrap();
    assert!(none.is_none());
    assert_eq!(c.get_proposals(0, None, 0).len(), 2);
    assert_eq!(c.get_proposals(1, Some(5), 0).len(), 1);
    assert_eq!(c.get_proposals(2, None, 0).len(), 0);
}

#[test]
fn proposal_creation_errors() {
    let mut c = voting();
    let big = NearToken::from_near(1).as_yoctonear();
    assert_eq!(c.create_proposal(&ctx(VOTING, "a.near", big, 0, 1), metadata(1), 10).unwrap_err(), ContractError::TooFewOptions);
    assert_eq!(c.create_proposal(&ctx(VOTING, "a.near", big, 0, 1), metadata(6), 10).unwrap_err(), ContractError::TooManyOptions);
    let mut bad_quorum = metadata(2);
    bad_quorum.quorum_percentage = Some(101);
    assert_eq!(c.create_proposal(&ctx(VOTING, "a.near", big, 0, 1), bad_quorum, 10).unwrap_err(), ContractError::InvalidQuorumPercentage);
    let mut quorum = metadata(2);
    quorum.quorum_percentage = Some(50);
    c.create_proposal(&ctx(VOTING, "a.near", big, 0, 1), quorum, 10).unwrap();
    assert_eq!(c.get_proposal(0, 0).unwrap().metadata.quorum_percentage, Some(50));
    let mut c = voting();
    let need = NearToken::from_millinear(10).as_yoctonear() + 10 * BYTE_COST;
    assert_eq!(c.create_proposal(&ctx(VOTING, "a.near", need - 1, 0, 1), metadata(2), 10).unwrap_err(), ContractError::InsufficientDeposit);
    assert_eq!(c.get_num_proposals(), 0);
}

#[test]
fn approval_and_status() {
    let v = venear_with(&["alice.near", "bob.near"]);
    let mut c = voting();
    let (id, _) = c.create_proposal(&ctx(VOTING, "alice.near", NearToken::from_near(1).as_yoctonear(), 2_000_000_000, 11), metadata(3), 100).unwrap();
    assert_eq!(c.approve_proposal(&ctx(VOTING, "alice.near", 1, 3_000_000_000, 12), id, None).unwrap_err(), ContractError::NotApprover);
    assert_eq!(c.approve_proposal(&ctx(VOTING, REVIEWER, 0, 3_000_000_000, 12), id, None).unwrap_err(), ContractError::RequiresOneYocto);
    assert_eq!(c.approve_proposal(&ctx(VOTING, REVIEWER, 1, 3_000_000_000, 12), 7, None).unwrap_err(), ContractError::ProposalNotFound);
    let request = c.approve_proposal(&ctx(VOTING, REVIEWER, 1, 3_000_000_000, 12), id, Some(10)).unwrap();
    let (snapshot, state) = v.get_snapshot(&ctx(VENEAR, VOTING, 0, 3_000_000_000, 12)).unwrap();
    assert_eq!(
        c.on_get_snapshot(&ctx(VOTING, REVIEWER, 0, 3_000_000_000, 12), snapshot, state.duplicate(), id, Some(10), REVIEWER.to_string())
            .unwrap_err(),
        ContractError::PermissionDenied
    );
    assert_eq!(
        c.on_get_snapshot(&ctx(VOTING, VOTING, 0, 30_000_000_000, 12), snapshot, state.duplicate(), id, Some(10), REVIEWER.to_string())
            .unwrap_err(),
        ContractError::VotingStartInPast
    );
    let p = c
        .on_get_snapshot(&ctx(VOTING, VOTING, 0, 3_000_000_000, 12), snapshot, state, id, request.voting_start_time_sec, request.reviewer_id)
        .unwrap();
    assert_eq!(p.status, ProposalStatus::Approved);
    assert_eq!(p.reviewer_id.as_deref(), Some(REVIEWER));
    assert_eq!(p.voting_start_time_ns, Some(10_000_000_000));
    let s = p.snapshot_and_state.unwrap();
    assert_eq!(s.total_venear.as_millinear() / 100, 302);
    assert_eq!(c.get_num_approved_proposals(), 1);
    assert_eq!(c.get_approved_proposals(0, None, 0).len(), 1);
    assert_eq!(c.get_proposal(id, 5_000_000_000).unwrap().proposal.status, ProposalStatus::Approved);
    assert_eq!(c.get_proposal(id, 10_000_000_000).unwrap().proposal.status, ProposalStatus::Voting);
    // Nobody voted, so the quorum was not met.
    assert_eq!(c.get_proposal(id, 1_010_000_000_000).unwrap().proposal.status, ProposalStatus::QuorumNotMet);
    assert_eq!(c.approve_proposal(&ctx(VOTING, REVIEWER, 1, 3_000_000_000, 12), id, None).unwrap_err(), ContractError::NotInCreatedStatus);
}

#[test]
fn voting_with_proofs() {
    let mut v = venear_with(&["alice.near", "bob.near"]);
    let mut c = approved(&v);
    let (alice_proof, alice_account) = v.get_proof("alice.near".to_string()).unwrap();
    let (bob_proof, bob_account) = v.get_proof("bob.near".to_string()).unwrap();
    let deposit = NearToken::from_millinear(15).as_yoctonear();

    let refund = c.vote(&ctx(VOTING, "alice.near", deposit, 4_000_000_000, 13), 0, 1, alice_proof.clone(), alice_account.duplicate()).unwrap();
    assert_eq!(refund.unwrap().amount.as_millinear(), 10);
    assert_eq!(c.get_vote("alice.near".to_string(), 0), Some(1));
    let p = c.get_proposal(0, 4_000_000_000).unwrap().proposal;
    assert_eq!(p.votes[0].total_votes, 0);
    assert_eq!(p.votes[1].total_votes, 1);
    assert_eq!(p.votes[2].total_votes, 0);
    assert_eq!(p.total_votes.total_votes, 1);
    assert_eq!(p.votes[1].total_venear.as_millinear() / 100, 101);

    // Bob with Alice's proof.
    assert_eq!(
        c.vote(&ctx(VOTING, "bob.near", deposit, 4_000_000_000, 13), 0, 2, alice_proof.clone(), bob_account.duplicate()).unwrap_err(),
        ContractError::InvalidMerkleProof
    );
    // Carol with Bob's record.
    assert_eq!(
        c.vote(&ctx(VOTING, "carol.near", deposit, 4_000_000_000, 13), 0, 2, bob_proof.clone(), bob_account.duplicate()).unwrap_err(),
        ContractError::AccountMismatch
    );
    c.vote(&ctx(VOTING, "bob.near", deposit, 4_000_000_000, 13), 0, 2, bob_proof.clone(), bob_account.duplicate()).unwrap();
    assert_eq!(
        c.vote(&ctx(VOTING, "bob.near", deposit, 4_000_000_000, 13), 0, 2, bob_proof.clone(), bob_account.duplicate()).unwrap_err(),
        ContractError::SameVote
    );

    // An account registered after the snapshot cannot prove its record.
    let cost = v.get_registration_cost(&ctx(VENEAR, OWNER, 0, 0, 14)).unwrap().as_yoctonear();
    v.register_account(&ctx(VENEAR, "carol.near", cost, 5_000_000_000, 14), None).unwrap();
    let (carol_proof, carol_account) = v.get_proof("carol.near".to_string()).unwrap();
    assert_eq!(
        c.vote(&ctx(VOTING, "carol.near", deposit, 5_000_000_000, 14), 0, 1, carol_proof, carol_account).unwrap_err(),
        ContractError::InvalidMerkleProof
    );

    // Alice changes her vote; changing pays no storage fee.
    let refund = c.vote(&ctx(VOTING, "alice.near", 1, 5_000_000_000, 14), 0, 0, alice_proof.clone(), alice_account.duplicate()).unwrap();
    assert!(refund.is_none());
    let p = c.get_proposal(0, 5_000_000_000).unwrap().proposal;
    assert_eq!(p.votes[0].total_votes, 1);
    assert_eq!(p.votes[1].total_votes, 0);
    assert_eq!(p.votes[2].total_votes, 1);
    assert_eq!(p.total_votes.total_votes, 2);
    assert_eq!(p.votes[1].total_venear.as_yoctonear(), 0);
    assert_eq!(
        p.votes.iter().map(|s| s.total_venear.as_yoctonear()).sum::<u128>(),
        p.total_votes.total_venear.as_yoctonear()
    );
    assert_eq!(c.get_vote("alice.near".to_string(), 0), Some(0));
    assert_eq!(c.get_vote("bob.near".to_string(), 0), Some(2));
    assert_eq!(c.get_vote("carol.near".to_string(), 0), None);

    assert_eq!(
        c.vote(&ctx(VOTING, "alice.near", deposit, 5_000_000_000, 14), 0, 7, alice_proof.clone(), alice_account.duplicate()).unwrap_err(),
        ContractError::VoteOutOfBounds
    );
    assert_eq!(
        c.vote(&ctx(VOTING, "alice.near", 0, 5_000_000_000, 14), 0, 1, alice_proof.clone(), alice_account.duplicate()).unwrap_err(),
        ContractError::RequiresDeposit
    );
    assert_eq!(
        c.vote(&ctx(VOTING, "alice.near", deposit, 2_000_000_000_000, 15), 0, 1, alice_proof, alice_account).unwrap_err(),
        ContractError::VotingFinished
    );
}

#[test]
fn first_vote_pays_the_storage_fee() {
    let v = venear_with(&["alice.near"]);
    let mut c = approved(&v);
    let (proof, account) = v.get_proof("alice.near".to_string()).unwrap();
    assert_eq!(
        c.vote(&ctx(VOTING, "alice.near", 1, 4_000_000_000, 13), 0, 1, proof.clone(), account.duplicate()).unwrap_err(),
        ContractError::InsufficientDeposit
    );
    let refund = c.vote(&ctx(VOTING, "alice.near", NearToken::from_millinear(5).as_yoctonear(), 4_000_000_000, 13), 0, 1, proof, account).unwrap();
    assert!(refund.is_none());
}

#[test]
fn votes_before_the_start_are_refused() {
    let v = venear_with(&["alice.near"]);
    let mut c = voting();
    c.create_proposal(&ctx(VOTING, "alice.near", NearToken::from_near(1).as_yoctonear(), 2_000_000_000, 11), metadata(2), 1).unwrap();
    let (proof, account) = v.get_proof("alice.near".to_string()).unwrap();
    assert_eq!(
        c.vote(&ctx(VOTING, "alice.near", 1, 4_000_000_000, 13), 0, 1, proof.clone(), account.duplicate()).unwrap_err(),
        ContractError::VotingNotStarted
    );
    c.reject_proposal(&ctx(VOTING, REVIEWER, 1, 4_000_000_000, 13), 0).unwrap();
    assert_eq!(
        c.vote(&ctx(VOTING, "alice.near", 1, 4_000_000_000, 13), 0, 1, proof, account).unwrap_err(),
        ContractError::ProposalRejected
    );
}

#[test]
fn rejecting_a_proposal() {
    let mut c = voting();
    c.create_proposal(&ctx(VOTING, "alice.near", NearToken::from_near(1).as_yoctonear(), 2_000_000_000, 11), metadata(2), 1).unwrap();
    assert_eq!(c.reject_proposal(&ctx(VOTING, "alice.near", 1, 3_000_000_000, 12), 0), Err(ContractError::NotApprover));
    c.reject_proposal(&ctx(VOTING, REVIEWER, 1, 3_000_000_000, 12), 0).unwrap();
    assert_eq!(c.get_num_approved_proposals(), 0);
    let p = c.get_proposal(0, 3_000_000_000).unwrap().proposal;
    assert_eq!(p.status, ProposalStatus::Rejected);
    assert!(p.rejected);
    assert_eq!(c.reject_proposal(&ctx(VOTING, REVIEWER, 1, 3_000_000_000, 12), 0), Err(ContractError::NotInCreatedStatus));
}

#[test]
fn voting_governance() {
    let mut c = voting();
    assert_eq!(c.set_venear_account_id(&ctx(VOTING, "alice.near", 1, 0, 1), "new_venear.near".to_string()), Err(ContractError::NotOwner));
    c.set_venear_account_id(&ctx(VOTING, OWNER, 1, 0, 1), "new_venear.near".to_string()).unwrap();
    assert_eq!(c.config.venear_account_id, "new_venear.near");
    c.set_approver_id(&ctx(VOTING, OWNER, 1, 0, 1), "new_approver.near".to_string()).unwrap();
    assert_eq!(c.config.approver_id, "new_approver.near");
    c.set_voting_duration(&ctx(VOTING, OWNER, 1, 0, 1), 1000).unwrap();
    assert_eq!(c.config.voting_duration_ns, 1_000_000_000_000);
    c.set_base_proposal_fee(&ctx(VOTING, OWNER, 1, 0, 1), NearToken::from_near(10)).unwrap();
    assert_eq!(c.config.proposal_fee.as_near(), 10);
    c.set_max_number_of_voting_options(&ctx(VOTING, OWNER, 1, 0, 1), 100).unwrap();
    assert_eq!(c.config.max_number_of_voting_options, 100);
    assert_eq!(c.set_vote_storage_fee(NearToken::from_near(1)), Err(ContractError::FeeFixed));
    assert_eq!(c.set_approver_id(&ctx(VOTING, OWNER, 0, 0, 1), "x.near".to_string()), Err(ContractError::RequiresOneYocto));
    c.set_owner_account_id(&ctx(VOTING, OWNER, 1, 0, 1), "new_owner.near".to_string()).unwrap();
    assert_eq!(c.set_approver_id(&ctx(VOTING, OWNER, 1, 0, 1), "x.near".to_string()), Err(ContractError::NotOwner));
    c.set_approver_id(&ctx(VOTING, "new_owner.near", 1, 0, 1), "x.near".to_string()).unwrap();
}

#[test]
fn accounts_without_venear_cannot_vote() {
    let v = venear_with(&["alice.near"]);
    let mut c = approved(&v);
    let (proof, account) = v.get_proof("alice.near".to_string()).unwrap();
    c.num_voters = u32::MAX;
    assert_eq!(
        c.vote(&ctx(VOTING, "alice.near", NearToken::from_near(1).as_yoctonear(), 4_000_000_000, 13), 0, 1, proof, account).unwrap_err(),
        ContractError::CapacityExceeded
    );

    // An account whose record holds no NEAR.
    let config = VenearConfig {
        lockup_contract_config: None,
        lockup_duration_ns: 1,
        staking_pool_whitelist_account_id: "whitelist.near".to_string(),
        lockup_code_deployers: vec!["deployer.near".to_string()],
        local_deposit: NearToken::from_yoctonear(0),
        min_extra_lockup_deposit: NearToken::from_yoctonear(0),
        owner_account_id: OWNER.to_string(),
        guardians: vec![],
    };
    let rate = VenearGrowthConfigFixedRate { annual_growth_rate_ns: Fraction { numerator: 1, denominator: 1 } };
    let mut empty = Venear::new(config, rate, &ctx(VENEAR, OWNER, 0, 1_000_000_000, 10));
    empty.prepare_lockup_code(&ctx(VENEAR, "deployer.near", 105 * BYTE_COST, 1_000_000_000, 10), vec![9]).unwrap();
    let hash = empty.lockup_codes[0].hash;
    empty.set_lockup_contract(&ctx(VENEAR, OWNER, 1, 1_000_000_000, 10), hash, NearToken::from_yoctonear(0)).unwrap();
    empty.register_account(&ctx(VENEAR, "zero.near", BYTE_COST, 2_000_000_000, 11), None).unwrap();
    let mut c = approved(&empty);
    let (proof, account) = empty.get_proof("zero.near".to_string()).unwrap();
    assert_eq!(
        c.vote(&ctx(VOTING, "zero.near", NearToken::from_near(1).as_yoctonear(), 4_000_000_000, 13), 0, 1, proof, account).unwrap_err(),
        ContractError::NoVenearBalance
    );
}

/// Approves proposal `id` at 3 seconds, voting from then on, against a
/// snapshot of `v`.
fn approve_now(c: &mut Contract, v: &Venear, id: u32) {
    let request = c.approve_proposal(&ctx(VOTING, REVIEWER, 1, 3_000_000_000, 12), id, None).unwrap();
    let (snapshot, state) = v.get_snapshot(&ctx(VENEAR, VOTING, 0, 3_000_000_000, 12)).unwrap();
    c.on_get_snapshot(&ctx(VOTING, VOTING, 0, 3_000_000_000, 12), snapshot, state, id, request.voting_start_time_sec, request.reviewer_id)
        .unwrap();
}

#[test]
fn test_voting_quorum() {
    let v = venear_locking(&[("user_a.near", 1000), ("user_b.near", 500), ("user_c.near", 200), ("user_d.near", 100)]);
    let mut c = voting();
    let big = NearToken::from_near(1).as_yoctonear();
    // The default quorum.
    let (id_default, _) = c.create_proposal(&ctx(VOTING, "user_a.near", big, 2_000_000_000, 11), metadata(2), 100).unwrap();
    // A quorum of its own.
    let mut custom = metadata(2);
    custom.quorum_percentage = Some(50);
    let (id_custom, _) = c.create_proposal(&ctx(VOTING, "user_b.near", big, 2_000_000_000, 11), custom, 100).unwrap();
    // More than 100 percent.
    let mut invalid = metadata(2);
    invalid.quorum_percentage = Some(101);
    assert_eq!(
        c.create_proposal(&ctx(VOTING, "user_c.near", big, 2_000_000_000, 11), invalid, 100).unwrap_err(),
        ContractError::InvalidQuorumPercentage
    );
    approve_now(&mut c, &v, id_default);
    approve_now(&mut c, &v, id_custom);
    let p_default = c.get_proposal(id_default, 4_000_000_000).unwrap().proposal;
    assert_eq!(p_default.quorum_percentage, 30);
    assert_eq!(p_default.status, ProposalStatus::Voting);
    let p_custom = c.get_proposal(id_custom, 4_000_000_000).unwrap().proposal;
    assert_eq!(p_custom.quorum_percentage, 50);
    let total_venear = p_default.snapshot_and_state.unwrap().total_venear.as_yoctonear();

    let deposit = NearToken::from_millinear(15).as_yoctonear();
    // About a ninth of the veNEAR votes on the default proposal.
    let (proof_c, account_c) = v.get_proof("user_c.near".to_string()).unwrap();
    c.vote(&ctx(VOTING, "user_c.near", deposit, 4_000_000_000, 13), id_default, 0, proof_c, account_c).unwrap();
    // Most of it votes on the other.
    for name in ["user_a.near", "user_b.near"] {
        let (proof, account) = v.get_proof(name.to_string()).unwrap();
        c.vote(&ctx(VOTING, name, deposit, 4_000_000_000, 13), id_custom, 0, proof, account).unwrap();
    }
    let p_custom = c.get_proposal(id_custom, 4_000_000_000).unwrap().proposal;
    assert!(p_custom.total_votes.total_venear.as_yoctonear() >= total_venear * 50 / 100);

    // After the voting period.
    let end = 3_000_000_000 + 1_000_000_000_000 + 1_000_000_000;
    assert_eq!(c.get_proposal(id_default, end).unwrap().proposal.status, ProposalStatus::QuorumNotMet);
    assert_eq!(c.get_proposal(id_custom, end).unwrap().proposal.status, ProposalStatus::Finished);
    let (proof_d, account_d) = v.get_proof("user_d.near".to_string()).unwrap();
    assert_eq!(
        c.vote(&ctx(VOTING, "user_d.near", deposit, end, 20), id_default, 0, proof_d, account_d).unwrap_err(),
        ContractError::QuorumNotMet
    );

    // The owner changes the default; others cannot.
    c.set_default_quorum_percentage(&ctx(VOTING, OWNER, 1, 0, 1), 40).unwrap();
    assert_eq!(c.config.default_quorum_percentage, 40);
    assert_eq!(c.set_default_quorum_percentage(&ctx(VOTING, "user_a.near", 1, 0, 1), 20), Err(ContractError::NotOwner));
    assert_eq!(c.set_default_quorum_percentage(&ctx(VOTING, OWNER, 1, 0, 1), 101), Err(ContractError::InvalidQuorumPercentage));
    // Proposals created from now on take the new default.
    let (id_new, _) = c.create_proposal(&ctx(VOTING, "user_a.near", big, 5_000_000_000, 14), metadata(2), 100).unwrap();
    assert_eq!(c.get_proposal(id_new, 5_000_000_000).unwrap().proposal.quorum_percentage, 40);
    assert_eq!(c.get_proposal(id_default, end).unwrap().proposal.quorum_percentage, 30);
}

#[test]
fn a_zero_quorum_needs_no_votes() {
    let v = venear_with(&["alice.near"]);
    let mut c = voting();
    let mut none_needed = metadata(2);
    none_needed.quorum_percentage = Some(0);
    let (id, _) = c.create_proposal(&ctx(VOTING, "alice.near", NearToken::from_near(1).as_yoctonear(), 2_000_000_000, 11), none_needed, 100)
        .unwrap();
    approve_now(&mut c, &v, id);
    let end = 3_000_000_000 + 1_000_000_000_000;
    assert_eq!(c.get_proposal(id, end - 1).unwrap().proposal.status, ProposalStatus::Voting);
    assert_eq!(c.get_proposal(id, end).unwrap().proposal.status, ProposalStatus::Finished);
}

#[test]
fn a_proposal_counts_each_voter_once() {
    let v = venear_with(&["alice.near", "bob.near", "carol.near"]);
    let mut c = approved(&v);
    let deposit = NearToken::from_millinear(15).as_yoctonear();
    let mut ts = 4_000_000_000;
    for (name, option) in [("alice.near", 0), ("bob.near", 1), ("alice.near", 2), ("alice.near", 1)] {
        let (proof, account) = v.get_proof(name.to_string()).unwrap();
        c.vote(&ctx(VOTING, name, deposit, ts, 13), 0, option, proof, account).unwrap();
        ts += 1_000_000_000;
    }
    let voted = ["alice.near", "bob.near", "carol.near"]
        .iter()
        .filter(|name| c.get_vote(name.to_string(), 0).is_some())
        .count();
    assert_eq!(voted, 2);
    assert_eq!(c.get_proposal(0, ts).unwrap().proposal.total_votes.total_votes, 2);
}

#[test]
fn test_voting_pause() {
    let v = venear_with(&["user_a.near", "user_b.near"]);
    let mut c = voting();
    // Only a guardian or the owner can pause.
    assert_eq!(c.pause(&ctx(VOTING, "user_a.near", 1, 0, 1)), Err(ContractError::NotGuardian));
    assert!(!c.is_paused());
    c.pause(&ctx(VOTING, GUARDIAN, 1, 0, 1)).unwrap();
    assert!(c.is_paused());
    // Only the owner can unpause.
    assert_eq!(c.unpause(&ctx(VOTING, GUARDIAN, 1, 0, 1)), Err(ContractError::NotOwner));
    assert!(c.is_paused());
    c.unpause(&ctx(VOTING, OWNER, 1, 0, 1)).unwrap();
    assert!(!c.is_paused());

    let big = NearToken::from_near(1).as_yoctonear();
    let (id, _) = c.create_proposal(&ctx(VOTING, "user_a.near", big, 2_000_000_000, 11), metadata(3), 100).unwrap();
    approve_now(&mut c, &v, id);
    let (id_2, _) = c.create_proposal(&ctx(VOTING, "user_a.near", big, 2_000_000_000, 11), metadata(3), 100).unwrap();
    assert_ne!(id, id_2);
    let deposit = NearToken::from_millinear(15).as_yoctonear();
    let (proof_a, account_a) = v.get_proof("user_a.near".to_string()).unwrap();
    let (proof_b, account_b) = v.get_proof("user_b.near".to_string()).unwrap();
    c.vote(&ctx(VOTING, "user_a.near", deposit, 4_000_000_000, 13), id, 1, proof_a.clone(), account_a.duplicate()).unwrap();

    c.pause(&ctx(VOTING, OWNER, 1, 0, 1)).unwrap();
    assert!(c.is_paused());
    assert_eq!(
        c.vote(&ctx(VOTING, "user_a.near", deposit, 4_000_000_000, 13), id, 0, proof_a, account_a).unwrap_err(),
        ContractError::Paused
    );
    assert_eq!(
        c.vote(&ctx(VOTING, "user_b.near", deposit, 4_000_000_000, 13), id, 1, proof_b, account_b).unwrap_err(),
        ContractError::Paused
    );
    assert_eq!(
        c.create_proposal(&ctx(VOTING, "user_b.near", big, 4_000_000_000, 13), metadata(3), 100).unwrap_err(),
        ContractError::Paused
    );
    assert_eq!(c.approve_proposal(&ctx(VOTING, REVIEWER, 1, 4_000_000_000, 13), id_2, None).unwrap_err(), ContractError::Paused);
    assert_eq!(c.reject_proposal(&ctx(VOTING, REVIEWER, 1, 4_000_000_000, 13), id_2), Err(ContractError::Paused));
    assert_eq!(c.get_vote("user_a.near".to_string(), id), Some(1));
}

#[test]
fn only_the_owner_sets_the_guardians() {
    let mut c = voting();
    let guardians = vec!["new_guardian_1.near".to_string(), "new_guardian_2.near".to_string()];
    assert_eq!(c.set_guardians(&ctx(VOTING, "user.near", 1, 0, 1), guardians.clone()), Err(ContractError::NotOwner));
    assert_eq!(c.config.guardians, vec![GUARDIAN.to_string()]);
    c.set_guardians(&ctx(VOTING, OWNER, 1, 0, 1), guardians.clone()).unwrap();
    assert_eq!(c.config.guardians, guardians);
    assert_eq!(c.pause(&ctx(VOTING, GUARDIAN, 1, 0, 1)), Err(ContractError::NotGuardian));
    c.pause(&ctx(VOTING, "new_guardian_2.near", 1, 0, 1)).unwrap();
    assert!(c.is_paused());
}
