//! Domain events: every successful mutating operation returns one structured
//! event describing what changed, for the surrounding host to append to its
//! event log.

use vstd::prelude::*;
use crate::types::{AccountId, ProposalType};

verus! {

#[derive(Clone, Debug, PartialEq, Eq)]
pub struct PlatformInitialized {
    pub authority: AccountId,
    pub platform_fee: u64,
    pub governance_threshold: u64,
}

#[derive(Clone, Debug, PartialEq, Eq)]
pub struct PropertyInitialized {
    pub property_id: String,
    pub owner: AccountId,
    pub total_tokens: u64,
    pub token_price: u64,
    pub token_mint: AccountId,
}

#[derive(Clone, Debug, PartialEq, Eq)]
pub struct PropertyValuationUpdated {
    pub property_id: String,
    pub old_valuation: u64,
    pub new_valuation: u64,
    pub chainlink_round_id: u64,
    pub timestamp: i64,
}

#[derive(Clone, Debug, PartialEq, Eq)]
pub struct TokensPurchased {
    pub property_id: String,
    pub buyer: AccountId,
    pub amount: u64,
    pub total_cost: u64,
    pub tokens_remaining: u64,
}

#[derive(Clone, Debug, PartialEq, Eq)]
pub struct RentalIncomeDistributed {
    pub property_id: String,
    pub total_income: u64,
    pub platform_fee: u64,
    pub distributable_income: u64,
    pub chainlink_round_id: u64,
    pub timestamp: i64,
}

#[derive(Clone, Debug, PartialEq, Eq)]
pub struct RentalIncomeClaimed {
    pub property_id: String,
    pub investor: AccountId,
    pub amount: u64,
    pub total_claimed: u64,
}

#[derive(Clone, Debug, PartialEq, Eq)]
pub struct ProposalCreated {
    pub property_id: String,
    pub proposer: AccountId,
    pub title: String,
    pub proposal_type: ProposalType,
    pub voting_ends_at: i64,
}

#[derive(Clone, Copy, Debug, PartialEq, Eq, Structural)]
pub struct VoteCast {
    pub proposal: AccountId,
    pub voter: AccountId,
    pub vote_for: bool,
    pub voting_power: u64,
}

#[derive(Clone, Copy, Debug, PartialEq, Eq, Structural)]
pub struct ProposalExecuted {
    pub proposal: AccountId,
    pub passed: bool,
    pub votes_for: u64,
    pub votes_against: u64,
}

#[derive(Clone, Debug, PartialEq, Eq)]
pub struct TokensTransferred {
    pub property_id: String,
    pub from: AccountId,
    pub to: AccountId,
    pub amount: u64,
}

#[derive(Clone, Copy, Debug, PartialEq, Eq, Structural)]
pub struct KycStatusUpdated {
    pub user: AccountId,
    pub is_verified: bool,
    pub updated_at: i64,
}

#[derive(Clone, Debug, PartialEq, Eq)]
pub struct RentalYieldUpdated {
    pub property_id: String,
    pub new_yield: u64,
    pub chainlink_round_id: u64,
    pub timestamp: i64,
}

#[derive(Clone, Debug, PartialEq, Eq)]
pub struct TokensListedForSale {
    pub property_id: String,
    pub seller: AccountId,
    pub amount: u64,
    pub price_per_token: u64,
    pub market_price_reference: u64,
}

#[derive(Clone, Debug, PartialEq, Eq)]
pub struct TokensPurchasedFromMarket {
    pub property_id: String,
    pub seller: AccountId,
    pub buyer: AccountId,
    pub amount: u64,
    pub total_cost: u64,
}

#[derive(Clone, Debug, PartialEq, Eq)]
pub struct PropertySaleInitiated {
    pub property_id: String,
    pub asking_price: u64,
    pub market_valuation: u64,
    pub timestamp: i64,
}

#[derive(Clone, Debug, PartialEq, Eq)]
pub struct PropertySold {
    pub property_id: String,
    pub sale_price: u64,
    pub platform_fee: u64,
    pub net_proceeds: u64,
    pub buyer: AccountId,
    pub timestamp: i64,
}

#[derive(Clone, Copy, Debug, PartialEq, Eq, Structural)]
pub struct SolPriceUpdated {
    pub new_price: u64,
    pub chainlink_round_id: u64,
    pub timestamp: i64,
}

#[derive(Clone, Debug, PartialEq, Eq)]
pub struct BatchRentalIncomeDistributed {
    pub property_id: String,
    pub investor: AccountId,
    pub amount: u64,
    pub batch_id: u64,
}

#[derive(Clone, Debug, PartialEq, Eq)]
pub struct BatchTokensTransferred {
    pub property_id: String,
    pub from: AccountId,
    pub to: AccountId,
    pub amount: u64,
    pub batch_index: u8,
}

#[derive(Clone, Debug, PartialEq, Eq)]
pub struct BatchTransferCompleted {
    pub property_id: String,
    pub from: AccountId,
    pub total_amount: u64,
    pub transfer_count: u8,
}

#[derive(Clone, Copy, Debug, PartialEq, Eq, Structural)]
pub struct BatchKycStatusUpdated {
    pub user: AccountId,
    pub is_verified: bool,
    pub updated_at: i64,
    pub batch_index: u8,
}

#[derive(Clone, Copy, Debug, PartialEq, Eq, Structural)]
pub struct BatchKycUpdateCompleted {
    pub total_updates: u8,
    pub updated_at: i64,
}

#[derive(Clone, Debug, PartialEq, Eq)]
pub struct BatchRentalIncomeClaimed {
    pub property_id: String,
    pub investor: AccountId,
    pub amount: u64,
    pub batch_index: u8,
}

#[derive(Clone, Copy, Debug, PartialEq, Eq, Structural)]
pub struct BatchClaimCompleted {
    pub investor: AccountId,
    pub total_claimed: u64,
    pub properties_count: u8,
}

} // verus!
