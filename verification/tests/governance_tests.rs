use real_estate_platform::governance::{create_proposal, execute_proposal, vote_on_proposal};
use real_estate_platform::platform::initialize_platform;
use real_estate_platform::types::{
    AccountId, ErrorCode, InvestorRecord, LifecycleState, PlatformState, Property, PropertyType,
    ProposalType, VoteRecord,
};

const AUTHORITY: AccountId = 1;
const OWNER: AccountId = 2;
const PROPOSER: AccountId = 10;
const VOTER_A: AccountId = 10;
const VOTER_B: AccountId = 11;
const PROPERTY_KEY: AccountId = 100;
const PROPOSAL_KEY: AccountId = 200;

fn platform_with_threshold(governance_threshold: u64) -> PlatformState {
    let (platform_state, _) = initialize_platform(AUTHORITY, 500, governance_threshold, 1_000);
    platform_state
}

fn property_with_issued(tokens_sold: u64) -> Property {
    Property {
        property_id: String::from("PROP-1"),
        owner: OWNER,
        total_tokens: 1_000,
        tokens_sold,
        token_price: 10,
        property_address: String::from("1 Main Street"),
        property_type: PropertyType::Mixed,
        legal_document_hash: String::from("hash"),
        total_rental_income: 0,
        last_income_distribution: 0,
        lifecycle_state: LifecycleState::Active,
        token_mint: 500,
        property_valuation: 1_000_000,
        last_valuation_update: 0,
        kyc_required: true,
        expected_rental_yield: 0,
        property_vault: OWNER,
        asking_price: 0,
        market_valuation: 0,
        sale_initiated_at: 0,
        final_sale_price: 0,
        sale_completed_at: 0,
    }
}

fn position(investor: AccountId, tokens_owned: u64) -> InvestorRecord {
    InvestorRecord {
        investor,
        property: PROPERTY_KEY,
        tokens_owned,
        total_invested: 0,
        total_claimed: 0,
        last_claim_time: 0,
    }
}

fn fresh_vote_record() -> VoteRecord {
    VoteRecord {
        voter: 0,
        proposal: 0,
        vote_for: false,
        voting_power: 0,
        has_voted: false,
        voted_at: 0,
    }
}

#[test]
fn majority_and_quorum_pass_a_proposal() {
    // Threshold 100, proposer holds 400; voters with 400 for and 300
    // against out of 1000 issued: 400 > 300 and 700 > 500, so it passes.
    let platform_state = platform_with_threshold(100);
    let property = property_with_issued(1_000);
    let (mut proposal, created) = create_proposal(
        &property,
        PROPERTY_KEY,
        &position(PROPOSER, 400),
        &platform_state,
        PROPOSER,
        String::from("Renovate lobby"),
        String::from("Replace flooring and lighting"),
        ProposalType::RenovationApproval,
        1_000,
        5_000,
    )
    .unwrap();
    assert_eq!(created.voting_ends_at, 6_000);
    assert_eq!(proposal.total_votes, 0);

    let mut vote_record_a = fresh_vote_record();
    let cast_a = vote_on_proposal(
        &mut proposal,
        PROPOSAL_KEY,
        &property,
        &position(VOTER_A, 400),
        &mut vote_record_a,
        VOTER_A,
        true,
        5_500,
    )
    .unwrap();
    assert_eq!(cast_a.voting_power, 400);
    assert!(vote_record_a.has_voted);

    let mut vote_record_b = fresh_vote_record();
    vote_on_proposal(
        &mut proposal,
        PROPOSAL_KEY,
        &property,
        &position(VOTER_B, 300),
        &mut vote_record_b,
        VOTER_B,
        false,
        5_600,
    )
    .unwrap();
    assert_eq!(proposal.votes_for, 400);
    assert_eq!(proposal.votes_against, 300);
    assert_eq!(proposal.total_votes, 700);
    assert_eq!(proposal.votes_for + proposal.votes_against, proposal.total_votes);

    let executed = execute_proposal(&mut proposal, PROPOSAL_KEY, &property, 6_001).unwrap();
    assert!(executed.passed);
    assert!(proposal.executed);
    assert!(proposal.passed);
}

#[test]
fn proposal_without_quorum_fails_even_with_majority() {
    let platform_state = platform_with_threshold(100);
    let property = property_with_issued(1_000);
    let (mut proposal, _) = create_proposal(
        &property,
        PROPERTY_KEY,
        &position(PROPOSER, 400),
        &platform_state,
        PROPOSER,
        String::from("Quiet vote"),
        String::from("Too few voters show up"),
        ProposalType::ManagementChange,
        1_000,
        5_000,
    )
    .unwrap();
    let mut vote_record = fresh_vote_record();
    vote_on_proposal(
        &mut proposal,
        PROPOSAL_KEY,
        &property,
        &position(VOTER_A, 400),
        &mut vote_record,
        VOTER_A,
        true,
        5_500,
    )
    .unwrap();
    // 400 votes cast of 1000 issued: no simple majority of shares.
    let executed = execute_proposal(&mut proposal, PROPOSAL_KEY, &property, 6_001).unwrap();
    assert!(!executed.passed);
    assert!(!proposal.passed);
}

#[test]
fn proposal_creation_enforces_threshold_and_bounds() {
    let platform_state = platform_with_threshold(500);
    let property = property_with_issued(1_000);
    assert_eq!(
        create_proposal(
            &property,
            PROPERTY_KEY,
            &position(PROPOSER, 499),
            &platform_state,
            PROPOSER,
            String::from("t"),
            String::from("d"),
            ProposalType::TenantApproval,
            1_000,
            5_000,
        )
        .unwrap_err(),
        ErrorCode::InsufficientTokensForProposal
    );
    assert_eq!(
        create_proposal(
            &property,
            PROPERTY_KEY,
            &position(PROPOSER, 500),
            &platform_state,
            PROPOSER,
            "t".repeat(51),
            String::from("d"),
            ProposalType::TenantApproval,
            1_000,
            5_000,
        )
        .unwrap_err(),
        ErrorCode::TitleTooLong
    );
    assert_eq!(
        create_proposal(
            &property,
            PROPERTY_KEY,
            &position(PROPOSER, 500),
            &platform_state,
            PROPOSER,
            String::from("t"),
            "d".repeat(201),
            ProposalType::TenantApproval,
            1_000,
            5_000,
        )
        .unwrap_err(),
        ErrorCode::DescriptionTooLong
    );
    assert_eq!(
        create_proposal(
            &property,
            PROPERTY_KEY,
            &position(PROPOSER, 500),
            &platform_state,
            PROPOSER,
            String::from("t"),
            String::from("d"),
            ProposalType::TenantApproval,
            0,
            5_000,
        )
        .unwrap_err(),
        ErrorCode::InvalidVotingPeriod
    );
}

#[test]
fn each_voter_votes_at_most_once() {
    let platform_state = platform_with_threshold(100);
    let property = property_with_issued(1_000);
    let (mut proposal, _) = create_proposal(
        &property,
        PROPERTY_KEY,
        &position(PROPOSER, 400),
        &platform_state,
        PROPOSER,
        String::from("Single vote"),
        String::from("One record per voter"),
        ProposalType::PropertySale,
        1_000,
        5_000,
    )
    .unwrap();
    let mut vote_record = fresh_vote_record();
    vote_on_proposal(
        &mut proposal,
        PROPOSAL_KEY,
        &property,
        &position(VOTER_A, 400),
        &mut vote_record,
        VOTER_A,
        true,
        5_500,
    )
    .unwrap();
    // The same (proposal, voter) record rejects a second vote, on either
    // side, and the tallies stay put.
    assert_eq!(
        vote_on_proposal(
            &mut proposal,
            PROPOSAL_KEY,
            &property,
            &position(VOTER_A, 400),
            &mut vote_record,
            VOTER_A,
            false,
            5_600,
        )
        .unwrap_err(),
        ErrorCode::AlreadyVoted
    );
    assert_eq!(proposal.votes_for, 400);
    assert_eq!(proposal.votes_against, 0);
    assert_eq!(proposal.total_votes, 400);
}

#[test]
fn voting_respects_deadline_and_share_ownership() {
    let platform_state = platform_with_threshold(100);
    let property = property_with_issued(1_000);
    let (mut proposal, _) = create_proposal(
        &property,
        PROPERTY_KEY,
        &position(PROPOSER, 400),
        &platform_state,
        PROPOSER,
        String::from("Deadline"),
        String::from("Votes close at the deadline"),
        ProposalType::RenovationApproval,
        1_000,
        5_000,
    )
    .unwrap();
    let mut vote_record = fresh_vote_record();
    assert_eq!(
        vote_on_proposal(
            &mut proposal,
            PROPOSAL_KEY,
            &property,
            &position(VOTER_A, 400),
            &mut vote_record,
            VOTER_A,
            true,
            6_001,
        )
        .unwrap_err(),
        ErrorCode::VotingPeriodEnded
    );
    assert_eq!(
        vote_on_proposal(
            &mut proposal,
            PROPOSAL_KEY,
            &property,
            &position(VOTER_A, 0),
            &mut vote_record,
            VOTER_A,
            true,
            5_500,
        )
        .unwrap_err(),
        ErrorCode::NoTokensOwned
    );
}

#[test]
fn execution_waits_for_the_deadline_and_happens_once() {
    let platform_state = platform_with_threshold(100);
    let property = property_with_issued(1_000);
    let (mut proposal, _) = create_proposal(
        &property,
        PROPERTY_KEY,
        &position(PROPOSER, 400),
        &platform_state,
        PROPOSER,
        String::from("Terminal"),
        String::from("Resolution happens exactly once"),
        ProposalType::PropertySale,
        1_000,
        5_000,
    )
    .unwrap();
    assert_eq!(
        execute_proposal(&mut proposal, PROPOSAL_KEY, &property, 6_000).unwrap_err(),
        ErrorCode::VotingStillActive
    );
    execute_proposal(&mut proposal, PROPOSAL_KEY, &property, 6_001).unwrap();
    assert_eq!(
        execute_proposal(&mut proposal, PROPOSAL_KEY, &property, 6_002).unwrap_err(),
        ErrorCode::ProposalAlreadyExecuted
    );
}
