use real_estate_platform::market::{buy_from_market, list_tokens_for_sale};
use real_estate_platform::ownership::{batch_transfer_tokens, purchase_tokens, transfer_tokens};
use real_estate_platform::types::{
    AccountId, ErrorCode, InvestorRecord, KycRecord, LifecycleState, Property, PropertyType,
    TokenTransfer,
};

const OWNER: AccountId = 2;
const BUYER: AccountId = 10;
const RECIPIENT: AccountId = 11;
const PROPERTY_KEY: AccountId = 100;

fn active_property(tokens_sold: u64) -> Property {
    Property {
        property_id: String::from("PROP-1"),
        owner: OWNER,
        total_tokens: 1_000,
        tokens_sold,
        token_price: 10,
        property_address: String::from("1 Main Street"),
        property_type: PropertyType::Commercial,
        legal_document_hash: String::from("hash"),
        total_rental_income: 0,
        last_income_distribution: 0,
        lifecycle_state: LifecycleState::Active,
        token_mint: 500,
        property_valuation: 1_000_000,
        last_valuation_update: 0,
        kyc_required: true,
        expected_rental_yield: 0,
        property_vault: OWNER,
        asking_price: 0,
        market_valuation: 0,
        sale_initiated_at: 0,
        final_sale_price: 0,
        sale_completed_at: 0,
    }
}

fn fresh_position(investor: AccountId) -> InvestorRecord {
    InvestorRecord {
        investor,
        property: 0,
        tokens_owned: 0,
        total_invested: 0,
        total_claimed: 0,
        last_claim_time: 0,
    }
}

fn verified_kyc(user: AccountId) -> KycRecord {
    KycRecord {
        user,
        is_verified: true,
        updated_at: 0,
        verification_provider: String::from("Chainlink"),
        round_id: 1,
    }
}

#[test]
fn purchase_issues_shares_and_records_cost_basis() {
    let mut property = active_property(0);
    let mut record = fresh_position(BUYER);
    let kyc_record = verified_kyc(BUYER);
    let event =
        purchase_tokens(&mut property, PROPERTY_KEY, &mut record, &kyc_record, BUYER, 400)
            .unwrap();
    assert_eq!(property.tokens_sold, 400);
    assert_eq!(record.investor, BUYER);
    assert_eq!(record.property, PROPERTY_KEY);
    assert_eq!(record.tokens_owned, 400);
    assert_eq!(record.total_invested, 4_000);
    assert_eq!(event.total_cost, 4_000);
    assert_eq!(event.tokens_remaining, 600);
}

#[test]
fn purchase_beyond_remaining_supply_fails_without_any_effect() {
    // 1000 of 1000 shares are already issued; asking for 700 more fails
    // and mutates nothing.
    let mut property = active_property(1_000);
    let mut record = fresh_position(BUYER);
    let kyc_record = verified_kyc(BUYER);
    assert_eq!(
        purchase_tokens(&mut property, PROPERTY_KEY, &mut record, &kyc_record, BUYER, 700),
        Err(ErrorCode::InsufficientTokens)
    );
    assert_eq!(property.tokens_sold, 1_000);
    assert_eq!(record.tokens_owned, 0);
    assert_eq!(record.total_invested, 0);
}

#[test]
fn purchase_enforces_kyc_amount_and_lifecycle() {
    let mut property = active_property(0);
    let mut record = fresh_position(BUYER);
    let mut unverified = verified_kyc(BUYER);
    unverified.is_verified = false;
    assert_eq!(
        purchase_tokens(&mut property, PROPERTY_KEY, &mut record, &unverified, BUYER, 10),
        Err(ErrorCode::KycNotVerified)
    );

    let kyc_record = verified_kyc(BUYER);
    assert_eq!(
        purchase_tokens(&mut property, PROPERTY_KEY, &mut record, &kyc_record, BUYER, 0),
        Err(ErrorCode::InvalidAmount)
    );

    let mut kyc_free = active_property(0);
    kyc_free.kyc_required = false;
    assert!(
        purchase_tokens(&mut kyc_free, PROPERTY_KEY, &mut record, &unverified, BUYER, 10)
            .is_ok()
    );

    let mut listed = active_property(0);
    listed.lifecycle_state = LifecycleState::ListedForSale;
    let mut listed_record = fresh_position(BUYER);
    assert_eq!(
        purchase_tokens(&mut listed, PROPERTY_KEY, &mut listed_record, &kyc_record, BUYER, 10),
        Err(ErrorCode::PropertyNotActive)
    );
}

#[test]
fn purchase_detects_cost_overflow() {
    let mut property = active_property(0);
    property.total_tokens = u64::MAX;
    property.token_price = 3;
    let mut record = fresh_position(BUYER);
    let kyc_record = verified_kyc(BUYER);
    assert_eq!(
        purchase_tokens(
            &mut property,
            PROPERTY_KEY,
            &mut record,
            &kyc_record,
            BUYER,
            u64::MAX / 2
        ),
        Err(ErrorCode::MathOverflow)
    );
}

#[test]
fn transfer_moves_shares_and_conserves_their_sum() {
    let property = active_property(1_000);
    let mut from_record = fresh_position(BUYER);
    from_record.tokens_owned = 400;
    let mut to_record = fresh_position(RECIPIENT);
    to_record.tokens_owned = 100;
    let event =
        transfer_tokens(&property, &mut from_record, &mut to_record, BUYER, RECIPIENT, 150)
            .unwrap();
    assert_eq!(from_record.tokens_owned, 250);
    assert_eq!(to_record.tokens_owned, 250);
    assert_eq!(from_record.tokens_owned + to_record.tokens_owned, 500);
    assert_eq!(event.amount, 150);
}

#[test]
fn transfer_rejects_zero_and_uncovered_amounts() {
    let property = active_property(1_000);
    let mut from_record = fresh_position(BUYER);
    from_record.tokens_owned = 100;
    let mut to_record = fresh_position(RECIPIENT);
    assert_eq!(
        transfer_tokens(&property, &mut from_record, &mut to_record, BUYER, RECIPIENT, 0),
        Err(ErrorCode::InvalidAmount)
    );
    assert_eq!(
        transfer_tokens(&property, &mut from_record, &mut to_record, BUYER, RECIPIENT, 101),
        Err(ErrorCode::InsufficientTokens)
    );
    assert_eq!(from_record.tokens_owned, 100);
    assert_eq!(to_record.tokens_owned, 0);
}

#[test]
fn batch_transfer_debits_once_and_credits_every_recipient() {
    let property = active_property(1_000);
    let mut from_record = fresh_position(BUYER);
    from_record.tokens_owned = 500;
    let transfers = vec![
        TokenTransfer { recipient: RECIPIENT, amount: 120 },
        TokenTransfer { recipient: 12, amount: 80 },
    ];
    let to_records = vec![fresh_position(RECIPIENT), fresh_position(12)];
    let (credited, events, completion) =
        batch_transfer_tokens(&property, &mut from_record, BUYER, &transfers, &to_records)
            .unwrap();
    assert_eq!(from_record.tokens_owned, 300);
    assert_eq!(credited[0].tokens_owned, 120);
    assert_eq!(credited[1].tokens_owned, 80);
    assert_eq!(events.len(), 2);
    assert_eq!(events[1].batch_index, 1);
    assert_eq!(completion.total_amount, 200);
    assert_eq!(completion.transfer_count, 2);
    let credited_sum: u64 = credited.iter().map(|r| r.tokens_owned).sum();
    assert_eq!(from_record.tokens_owned + credited_sum, 500);
}

#[test]
fn batch_transfer_is_all_or_nothing() {
    let property = active_property(1_000);
    let mut from_record = fresh_position(BUYER);
    from_record.tokens_owned = 100;

    let with_zero = vec![
        TokenTransfer { recipient: RECIPIENT, amount: 50 },
        TokenTransfer { recipient: 12, amount: 0 },
    ];
    let two_records = vec![fresh_position(RECIPIENT), fresh_position(12)];
    assert_eq!(
        batch_transfer_tokens(&property, &mut from_record, BUYER, &with_zero, &two_records),
        Err(ErrorCode::InvalidAmount)
    );

    let uncovered = vec![
        TokenTransfer { recipient: RECIPIENT, amount: 70 },
        TokenTransfer { recipient: 12, amount: 40 },
    ];
    assert_eq!(
        batch_transfer_tokens(&property, &mut from_record, BUYER, &uncovered, &two_records),
        Err(ErrorCode::InsufficientTokens)
    );

    let one_record = vec![fresh_position(RECIPIENT)];
    assert_eq!(
        batch_transfer_tokens(&property, &mut from_record, BUYER, &uncovered, &one_record),
        Err(ErrorCode::InvalidAccountsLength)
    );

    let oversized: Vec<TokenTransfer> =
        (0..21).map(|_| TokenTransfer { recipient: RECIPIENT, amount: 1 }).collect();
    let oversized_records: Vec<InvestorRecord> =
        (0..21).map(|_| fresh_position(RECIPIENT)).collect();
    assert_eq!(
        batch_transfer_tokens(
            &property,
            &mut from_record,
            BUYER,
            &oversized,
            &oversized_records
        ),
        Err(ErrorCode::TooManyTransfers)
    );

    assert_eq!(from_record.tokens_owned, 100);
}

#[test]
fn shares_are_conserved_across_issuance_and_transfers() {
    let mut property = active_property(0);
    let kyc_a = verified_kyc(BUYER);
    let kyc_b = verified_kyc(RECIPIENT);
    let mut record_a = fresh_position(BUYER);
    let mut record_b = fresh_position(RECIPIENT);
    let mut record_c = fresh_position(12);

    purchase_tokens(&mut property, PROPERTY_KEY, &mut record_a, &kyc_a, BUYER, 400).unwrap();
    purchase_tokens(&mut property, PROPERTY_KEY, &mut record_b, &kyc_b, RECIPIENT, 350)
        .unwrap();
    assert_eq!(record_a.tokens_owned + record_b.tokens_owned, property.tokens_sold);

    transfer_tokens(&property, &mut record_a, &mut record_c, BUYER, 12, 120).unwrap();
    assert_eq!(
        record_a.tokens_owned + record_b.tokens_owned + record_c.tokens_owned,
        property.tokens_sold
    );

    let transfers = vec![
        TokenTransfer { recipient: RECIPIENT, amount: 30 },
        TokenTransfer { recipient: 12, amount: 50 },
    ];
    let to_records = vec![record_b, record_c];
    let (credited, _, _) =
        batch_transfer_tokens(&property, &mut record_a, BUYER, &transfers, &to_records)
            .unwrap();
    let total: u64 =
        record_a.tokens_owned + credited.iter().map(|r| r.tokens_owned).sum::<u64>();
    assert_eq!(total, property.tokens_sold);
    assert!(property.tokens_sold <= property.total_tokens);
}

#[test]
fn listing_records_checked_total_price() {
    let property = active_property(1_000);
    let (listing, event) =
        list_tokens_for_sale(&property, PROPERTY_KEY, BUYER, 40, 25, 99, 3_000).unwrap();
    assert_eq!(listing.total_price, 1_000);
    assert!(listing.is_active);
    assert_eq!(listing.created_at, 3_000);
    assert_eq!(event.price_per_token, 25);

    assert_eq!(
        list_tokens_for_sale(&property, PROPERTY_KEY, BUYER, 0, 25, 99, 3_000),
        Err(ErrorCode::InvalidAmount)
    );
    assert_eq!(
        list_tokens_for_sale(&property, PROPERTY_KEY, BUYER, 40, 0, 99, 3_000),
        Err(ErrorCode::InvalidTokenPrice)
    );
    assert_eq!(
        list_tokens_for_sale(&property, PROPERTY_KEY, BUYER, u64::MAX, 2, 99, 3_000),
        Err(ErrorCode::MathOverflow)
    );
}

#[test]
fn market_listing_deactivates_exactly_on_full_fill() {
    let property = active_property(1_000);
    let (mut listing, _) =
        list_tokens_for_sale(&property, PROPERTY_KEY, BUYER, 40, 25, 99, 3_000).unwrap();

    assert_eq!(
        buy_from_market(&mut listing, &property, RECIPIENT, 41),
        Err(ErrorCode::InsufficientTokens)
    );

    let partial = buy_from_market(&mut listing, &property, RECIPIENT, 15).unwrap();
    assert_eq!(partial.total_cost, 375);
    assert_eq!(listing.amount, 25);
    assert!(listing.is_active);

    let rest = buy_from_market(&mut listing, &property, RECIPIENT, 25).unwrap();
    assert_eq!(rest.total_cost, 625);
    assert_eq!(listing.amount, 0);
    assert!(!listing.is_active);

    assert_eq!(
        buy_from_market(&mut listing, &property, RECIPIENT, 1),
        Err(ErrorCode::ListingNotActive)
    );
}
