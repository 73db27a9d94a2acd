use vstd::prelude::*;

verus! {

/// Identity of an account on the hosting ledger: a caller, a holder, a
/// property record, a token mint or a vault. The accounting logic only ever
/// compares identities for equality, so a plain integer key is enough.
pub type AccountId = u64;

/// Denominator for basis-point ratios: 10_000 basis points = 100%.
pub const BPS_DENOMINATOR: u64 = 10000;

/// Upper bound on a property identifier, in characters.
pub const MAX_PROPERTY_ID_LEN: usize = 32;

/// Upper bound on a property street address, in characters.
pub const MAX_PROPERTY_ADDRESS_LEN: usize = 100;

/// Upper bound on a proposal title, in characters.
pub const MAX_TITLE_LEN: usize = 50;

/// Upper bound on a proposal description, in characters.
pub const MAX_DESCRIPTION_LEN: usize = 200;

/// Largest number of holders one batch distribution may pay.
pub const MAX_DISTRIBUTE_BATCH: usize = 50;

/// Largest number of entries one batch transfer may carry.
pub const MAX_TRANSFER_BATCH: usize = 20;

/// Largest number of records one batch KYC update may touch.
pub const MAX_KYC_BATCH: usize = 30;

/// Largest number of properties one batch claim may cover.
pub const MAX_CLAIM_BATCH: usize = 10;

#[derive(Clone, Copy, Debug, PartialEq, Eq, Structural)]
pub enum PropertyType {
    Residential,
    Commercial,
    Industrial,
    Mixed,
}

#[derive(Clone, Copy, Debug, PartialEq, Eq, Structural)]
pub enum ProposalType {
    RenovationApproval,
    TenantApproval,
    PropertySale,
    ManagementChange,
}

/// One-way life of a property: shares trade while it is `Active`, a sale is
/// pending while it is `ListedForSale`, and `Sold` is terminal.
#[derive(Clone, Copy, Debug, PartialEq, Eq, Structural)]
pub enum LifecycleState {
    Active,
    ListedForSale,
    Sold,
}

/// Stable, enumerable error codes surfaced by every operation.
#[derive(Clone, Copy, Debug, PartialEq, Eq, Structural)]
pub enum ErrorCode {
    InvalidTokenSupply,
    InvalidTokenPrice,
    PropertyIdTooLong,
    AddressTooLong,
    PropertyNotActive,
    InvalidAmount,
    InsufficientTokens,
    MathOverflow,
    Unauthorized,
    NoTokensIssued,
    NoTokensOwned,
    NothingToClaim,
    InsufficientTokensForProposal,
    TitleTooLong,
    DescriptionTooLong,
    InvalidVotingPeriod,
    VotingPeriodEnded,
    AlreadyVoted,
    VotingStillActive,
    ProposalAlreadyExecuted,
    KycNotVerified,
    InvalidValuation,
    ListingNotActive,
    PropertyNotForSale,
    TooManyInvestors,
    InvalidInvestorRecord,
    TooManyTransfers,
    TooManyKycUpdates,
    InvalidKycRecord,
    TooManyProperties,
    InvalidPropertyKey,
    InvalidAccountsLength,
}

/// Global platform configuration: created once, mutated only by the
/// platform authority.
#[derive(Clone, Copy, Debug, PartialEq, Eq, Structural)]
pub struct PlatformState {
    pub authority: AccountId,
    pub platform_fee: u64,
    pub governance_threshold: u64,
    pub total_properties: u64,
    pub total_value_locked: u64,
    pub sol_usd_price: u64,
    pub last_price_update: i64,
}

impl PlatformState {
    /// The fee rate is a basis-point ratio, so it never exceeds 100%.
    pub open spec fn well_formed(self) -> bool {
        self.platform_fee <= BPS_DENOMINATOR
    }
}

/// A registered property and its tokenized supply.
#[derive(Clone, Debug, PartialEq, Eq)]
pub struct Property {
    pub property_id: String,
    pub owner: AccountId,
    pub total_tokens: u64,
    pub tokens_sold: u64,
    pub token_price: u64,
    pub property_address: String,
    pub property_type: PropertyType,
    pub legal_document_hash: String,
    pub total_rental_income: u64,
    pub last_income_distribution: i64,
    pub lifecycle_state: LifecycleState,
    pub token_mint: AccountId,
    pub property_valuation: u64,
    pub last_valuation_update: i64,
    pub kyc_required: bool,
    pub expected_rental_yield: u64,
    pub property_vault: AccountId,
    pub asking_price: u64,
    pub market_valuation: u64,
    pub sale_initiated_at: i64,
    pub final_sale_price: u64,
    pub sale_completed_at: i64,
}

impl Property {
    /// Structural invariant of a registered property: the supply cap is
    /// positive, the issued count never exceeds it, the price is positive
    /// and the bounded strings respect their bounds.
    pub open spec fn well_formed(self) -> bool {
        &&& self.total_tokens > 0
        &&& self.tokens_sold <= self.total_tokens
        &&& self.token_price > 0
        &&& self.property_id@.len() <= MAX_PROPERTY_ID_LEN
        &&& self.property_address@.len() <= MAX_PROPERTY_ADDRESS_LEN
    }
}

/// Ownership position of one holder in one property, keyed by
/// (property, investor) in the surrounding store. A zero balance is a valid
/// terminal state; positions are never deleted.
#[derive(Clone, Copy, Debug, PartialEq, Eq, Structural)]
pub struct InvestorRecord {
    pub investor: AccountId,
    pub property: AccountId,
    pub tokens_owned: u64,
    pub total_invested: u64,
    pub total_claimed: u64,
    pub last_claim_time: i64,
}

/// A governance proposal scoped to one property.
#[derive(Clone, Debug, PartialEq, Eq)]
pub struct Proposal {
    pub property: AccountId,
    pub proposer: AccountId,
    pub title: String,
    pub description: String,
    pub proposal_type: ProposalType,
    pub votes_for: u64,
    pub votes_against: u64,
    pub total_votes: u64,
    pub created_at: i64,
    pub voting_ends_at: i64,
    pub executed: bool,
    pub passed: bool,
}

impl Proposal {
    /// Tally integrity: the two sides of the vote always account for the
    /// whole recorded voting power.
    pub open spec fn tally_consistent(self) -> bool {
        self.votes_for + self.votes_against == self.total_votes
    }
}

/// Write-once record of one voter's vote on one proposal, keyed by
/// (proposal, voter) in the surrounding store.
#[derive(Clone, Copy, Debug, PartialEq, Eq, Structural)]
pub struct VoteRecord {
    pub voter: AccountId,
    pub proposal: AccountId,
    pub vote_for: bool,
    pub voting_power: u64,
    pub has_voted: bool,
    pub voted_at: i64,
}

/// KYC verification status of one user, keyed by user identity.
#[derive(Clone, Debug, PartialEq, Eq)]
pub struct KycRecord {
    pub user: AccountId,
    pub is_verified: bool,
    pub updated_at: i64,
    pub verification_provider: String,
    pub round_id: u64,
}

/// A fixed-price listing of shares on the secondary market.
#[derive(Clone, Copy, Debug, PartialEq, Eq, Structural)]
pub struct MarketListing {
    pub seller: AccountId,
    pub property: AccountId,
    pub amount: u64,
    pub price_per_token: u64,
    pub total_price: u64,
    pub is_active: bool,
    pub created_at: i64,
    pub market_price_reference: u64,
}

/// One entry of a batch share transfer.
#[derive(Clone, Copy, Debug, PartialEq, Eq, Structural)]
pub struct TokenTransfer {
    pub recipient: AccountId,
    pub amount: u64,
}

/// One entry of a batch KYC status update.
#[derive(Clone, Copy, Debug, PartialEq, Eq, Structural)]
pub struct KycUpdate {
    pub user: AccountId,
    pub is_verified: bool,
    pub chainlink_round_id: u64,
}

} // verus!
