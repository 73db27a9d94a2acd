//! Governance engine: proposals scoped to one property, one
//! share-weighted vote per holder per proposal, and quorum-gated
//! execution after the voting window closes.

use vstd::prelude::*;
use crate::events::{ProposalCreated, ProposalExecuted, VoteCast};
use crate::types::{
    AccountId, ErrorCode, InvestorRecord, LifecycleState, PlatformState, Property, Proposal,
    ProposalType, VoteRecord, MAX_DESCRIPTION_LEN, MAX_TITLE_LEN,
};

verus! {

/// First failing check of `create_proposal`, in evaluation order, or
/// `None` when the proposal is created.
pub open spec fn create_proposal_error(
    property: Property,
    investor_record: InvestorRecord,
    platform_state: PlatformState,
    title: String,
    description: String,
    voting_period: i64,
    now: i64,
) -> Option<ErrorCode> {
    if property.lifecycle_state == LifecycleState::Sold {
        Some(ErrorCode::PropertyNotActive)
    } else if investor_record.tokens_owned < platform_state.governance_threshold {
        Some(ErrorCode::InsufficientTokensForProposal)
    } else if title@.len() > MAX_TITLE_LEN {
        Some(ErrorCode::TitleTooLong)
    } else if description@.len() > MAX_DESCRIPTION_LEN {
        Some(ErrorCode::DescriptionTooLong)
    } else if voting_period <= 0 {
        Some(ErrorCode::InvalidVotingPeriod)
    } else if now + voting_period > i64::MAX {
        Some(ErrorCode::MathOverflow)
    } else {
        None
    }
}

/// Open a governance proposal on a property.
///
/// The proposer must hold at least the platform's governance threshold of
/// shares; title, description and voting period must respect their
/// bounds. The proposal starts with empty tallies and closes at
/// `now + voting_period`.
pub fn create_proposal(
    property: &Property,
    property_key: AccountId,
    investor_record: &InvestorRecord,
    platform_state: &PlatformState,
    proposer: AccountId,
    title: String,
    description: String,
    proposal_type: ProposalType,
    voting_period: i64,
    now: i64,
) -> (r: Result<(Proposal, ProposalCreated), ErrorCode>)
    requires
        investor_record.investor == proposer,
    ensures
        match r {
            Ok(out) => {
                &&& create_proposal_error(
                    *property,
                    *investor_record,
                    *platform_state,
                    title,
                    description,
                    voting_period,
                    now,
                ) is None
                &&& out.0 == (Proposal {
                    property: property_key,
                    proposer,
                    title,
                    description,
                    proposal_type,
                    votes_for: 0,
                    votes_against: 0,
                    total_votes: 0,
                    created_at: now,
                    voting_ends_at: (now + voting_period) as i64,
                    executed: false,
                    passed: false,
                })
                &&& out.0.tally_consistent()
                &&& out.1 == (ProposalCreated {
                    property_id: property.property_id,
                    proposer,
                    title,
                    proposal_type,
                    voting_ends_at: (now + voting_period) as i64,
                })
            },
            Err(e) => create_proposal_error(
                *property,
                *investor_record,
                *platform_state,
                title,
                description,
                voting_period,
                now,
            ) == Some(e),
        },
{
    if property.lifecycle_state == LifecycleState::Sold {
        return Err(ErrorCode::PropertyNotActive);
    }
    if investor_record.tokens_owned < platform_state.governance_threshold {
        return Err(ErrorCode::InsufficientTokensForProposal);
    }
    if title.as_str().unicode_len() > MAX_TITLE_LEN {
        return Err(ErrorCode::TitleTooLong);
    }
    if description.as_str().unicode_len() > MAX_DESCRIPTION_LEN {
        return Err(ErrorCode::DescriptionTooLong);
    }
    if voting_period <= 0 {
        return Err(ErrorCode::InvalidVotingPeriod);
    }
    let voting_ends_at = match now.checked_add(voting_period) {
        Some(t) => t,
        None => {
            return Err(ErrorCode::MathOverflow);
        },
    };
    let event = ProposalCreated {
        property_id: property.property_id.clone(),
        proposer,
        title: title.clone(),
        proposal_type,
        voting_ends_at,
    };
    let proposal = Proposal {
        property: property_key,
        proposer,
        title,
        description,
        proposal_type,
        votes_for: 0,
        votes_against: 0,
        total_votes: 0,
        created_at: now,
        voting_ends_at,
        executed: false,
        passed: false,
    };
    Ok((proposal, event))
}

/// First failing check of `vote_on_proposal`, in evaluation order, or
/// `None` when the vote is recorded.
pub open spec fn vote_error(
    property: Property,
    proposal: Proposal,
    investor_record: InvestorRecord,
    vote_record: VoteRecord,
    vote_for: bool,
    now: i64,
) -> Option<ErrorCode> {
    if property.lifecycle_state == LifecycleState::Sold {
        Some(ErrorCode::PropertyNotActive)
    } else if now > proposal.voting_ends_at {
        Some(ErrorCode::VotingPeriodEnded)
    } else if investor_record.tokens_owned == 0 {
        Some(ErrorCode::NoTokensOwned)
    } else if vote_record.has_voted {
        Some(ErrorCode::AlreadyVoted)
    } else if vote_for && proposal.votes_for + investor_record.tokens_owned > u64::MAX {
        Some(ErrorCode::MathOverflow)
    } else if !vote_for && proposal.votes_against + investor_record.tokens_owned > u64::MAX {
        Some(ErrorCode::MathOverflow)
    } else if proposal.total_votes + investor_record.tokens_owned > u64::MAX {
        Some(ErrorCode::MathOverflow)
    } else {
        None
    }
}

/// Cast one share-weighted vote on an open proposal.
///
/// A holder votes with their current share balance, exactly once: the
/// write-once `has_voted` flag of the (proposal, voter) record rejects any
/// second vote. The chosen side and the total tally grow by the same
/// voting power, so tally consistency (`votes_for + votes_against ==
/// total_votes`) is preserved.
pub fn vote_on_proposal(
    proposal: &mut Proposal,
    proposal_key: AccountId,
    property: &Property,
    investor_record: &InvestorRecord,
    vote_record: &mut VoteRecord,
    voter: AccountId,
    vote_for: bool,
    now: i64,
) -> (r: Result<VoteCast, ErrorCode>)
    requires
        investor_record.investor == voter,
    ensures
        match r {
            Ok(event) => {
                &&& vote_error(
                    *property,
                    *old(proposal),
                    *investor_record,
                    *old(vote_record),
                    vote_for,
                    now,
                ) is None
                &&& *final(proposal) == (Proposal {
                    votes_for: if vote_for {
                        (old(proposal).votes_for + investor_record.tokens_owned) as u64
                    } else {
                        old(proposal).votes_for
                    },
                    votes_against: if vote_for {
                        old(proposal).votes_against
                    } else {
                        (old(proposal).votes_against + investor_record.tokens_owned) as u64
                    },
                    total_votes: (old(proposal).total_votes
                        + investor_record.tokens_owned) as u64,
                    ..*old(proposal)
                })
                &&& old(proposal).tally_consistent() ==> final(proposal).tally_consistent()
                &&& *final(vote_record) == (VoteRecord {
                    voter,
                    proposal: proposal_key,
                    vote_for,
                    voting_power: investor_record.tokens_owned,
                    has_voted: true,
                    voted_at: now,
                })
                &&& event == (VoteCast {
                    proposal: proposal_key,
                    voter,
                    vote_for,
                    voting_power: investor_record.tokens_owned,
                })
            },
            Err(e) => {
                &&& vote_error(
                    *property,
                    *old(proposal),
                    *investor_record,
                    *old(vote_record),
                    vote_for,
                    now,
                ) == Some(e)
                &&& *final(proposal) == *old(proposal)
                &&& *final(vote_record) == *old(vote_record)
            },
        },
{
    if property.lifecycle_state == LifecycleState::Sold {
        return Err(ErrorCode::PropertyNotActive);
    }
    if now > proposal.voting_ends_at {
        return Err(ErrorCode::VotingPeriodEnded);
    }
    if investor_record.tokens_owned == 0 {
        return Err(ErrorCode::NoTokensOwned);
    }
    if vote_record.has_voted {
        return Err(ErrorCode::AlreadyVoted);
    }
    let voting_power = investor_record.tokens_owned;
    let tally_side = if vote_for {
        proposal.votes_for
    } else {
        proposal.votes_against
    };
    let new_side = match tally_side.checked_add(voting_power) {
        Some(v) => v,
        None => {
            return Err(ErrorCode::MathOverflow);
        },
    };
    let new_total = match proposal.total_votes.checked_add(voting_power) {
        Some(v) => v,
        None => {
            return Err(ErrorCode::MathOverflow);
        },
    };
    if vote_for {
        proposal.votes_for = new_side;
    } else {
        proposal.votes_against = new_side;
    }
    proposal.total_votes = new_total;
    vote_record.voter = voter;
    vote_record.proposal = proposal_key;
    vote_record.vote_for = vote_for;
    vote_record.voting_power = voting_power;
    vote_record.has_voted = true;
    vote_record.voted_at = now;
    Ok(VoteCast { proposal: proposal_key, voter, vote_for, voting_power })
}

/// First failing check of `execute_proposal`, in evaluation order, or
/// `None` when the proposal resolves.
pub open spec fn execute_proposal_error(proposal: Proposal, now: i64) -> Option<ErrorCode> {
    if now <= proposal.voting_ends_at {
        Some(ErrorCode::VotingStillActive)
    } else if proposal.executed {
        Some(ErrorCode::ProposalAlreadyExecuted)
    } else {
        None
    }
}

/// The outcome rule: a proposal passes when the yes side outweighs the no
/// side and the votes cast clear a simple majority of the issued shares.
pub open spec fn proposal_passes(proposal: Proposal, issued: u64) -> bool {
    proposal.votes_for > proposal.votes_against && proposal.total_votes > issued / 2
}

/// Resolve a proposal once its voting window has closed.
///
/// Execution is permitted exactly once and only after the deadline; the
/// recorded outcome combines a majority of votes cast with a quorum of
/// half the issued shares. Resolution is terminal: a second execution
/// fails and the tallies never move again.
pub fn execute_proposal(
    proposal: &mut Proposal,
    proposal_key: AccountId,
    property: &Property,
    now: i64,
) -> (r: Result<ProposalExecuted, ErrorCode>)
    ensures
        match r {
            Ok(event) => {
                &&& execute_proposal_error(*old(proposal), now) is None
                &&& *final(proposal) == (Proposal {
                    executed: true,
                    passed: proposal_passes(*old(proposal), property.tokens_sold),
                    ..*old(proposal)
                })
                &&& event == (ProposalExecuted {
                    proposal: proposal_key,
                    passed: proposal_passes(*old(proposal), property.tokens_sold),
                    votes_for: old(proposal).votes_for,
                    votes_against: old(proposal).votes_against,
                })
            },
            Err(e) => {
                &&& execute_proposal_error(*old(proposal), now) == Some(e)
                &&& *final(proposal) == *old(proposal)
            },
        },
{
    if now <= proposal.voting_ends_at {
        return Err(ErrorCode::VotingStillActive);
    }
    if proposal.executed {
        return Err(ErrorCode::ProposalAlreadyExecuted);
    }
    let passed = proposal.votes_for > proposal.votes_against && proposal.total_votes
        > property.tokens_sold / 2;
    proposal.passed = passed;
    proposal.executed = true;
    Ok(ProposalExecuted {
        proposal: proposal_key,
        passed,
        votes_for: proposal.votes_for,
        votes_against: proposal.votes_against,
    })
}

} // verus!
