use real_estate_platform::kyc::{batch_update_kyc_status, update_kyc_status, verify_user_kyc};
use real_estate_platform::platform::{initialize_platform, update_sol_price};
use real_estate_platform::property::{
    execute_property_sale, initialize_property, initiate_property_sale,
    update_property_valuation, update_rental_yield,
};
use real_estate_platform::types::{
    AccountId, ErrorCode, KycRecord, KycUpdate, LifecycleState, PropertyType,
};

const AUTHORITY: AccountId = 1;
const OWNER: AccountId = 2;
const USER: AccountId = 10;
const MINT: AccountId = 500;

fn fresh_kyc(user: AccountId) -> KycRecord {
    KycRecord {
        user,
        is_verified: false,
        updated_at: 0,
        verification_provider: String::new(),
        round_id: 0,
    }
}

#[test]
fn platform_starts_with_empty_counters() {
    let (platform_state, event) = initialize_platform(AUTHORITY, 250, 100, 1_000);
    assert_eq!(platform_state.authority, AUTHORITY);
    assert_eq!(platform_state.platform_fee, 250);
    assert_eq!(platform_state.governance_threshold, 100);
    assert_eq!(platform_state.total_properties, 0);
    assert_eq!(platform_state.total_value_locked, 0);
    assert_eq!(platform_state.sol_usd_price, 0);
    assert_eq!(platform_state.last_price_update, 1_000);
    assert_eq!(event.platform_fee, 250);
}

#[test]
fn price_updates_are_authority_only() {
    let (mut platform_state, _) = initialize_platform(AUTHORITY, 250, 100, 1_000);
    assert_eq!(
        update_sol_price(&mut platform_state, USER, 10_000_000_000, 3, 2_000),
        Err(ErrorCode::Unauthorized)
    );
    let event = update_sol_price(&mut platform_state, AUTHORITY, 10_000_000_000, 3, 2_000)
        .unwrap();
    assert_eq!(event.new_price, 10_000_000_000);
    assert_eq!(platform_state.sol_usd_price, 10_000_000_000);
    assert_eq!(platform_state.last_price_update, 2_000);
}

#[test]
fn property_registration_sets_fresh_state_and_counts() {
    let (mut platform_state, _) = initialize_platform(AUTHORITY, 250, 100, 1_000);
    let (property, event) = initialize_property(
        &mut platform_state,
        OWNER,
        MINT,
        String::from("PROP-1"),
        1_000,
        10,
        String::from("1 Main Street"),
        PropertyType::Residential,
        String::from("hash"),
        750_000,
        2_000,
    )
    .unwrap();
    assert_eq!(property.tokens_sold, 0);
    assert_eq!(property.total_rental_income, 0);
    assert_eq!(property.lifecycle_state, LifecycleState::Active);
    assert!(property.kyc_required);
    assert_eq!(property.property_valuation, 750_000);
    assert_eq!(platform_state.total_properties, 1);
    assert_eq!(platform_state.total_value_locked, 750_000);
    assert_eq!(event.property_id, "PROP-1");
    assert_eq!(event.token_mint, MINT);
}

#[test]
fn property_registration_validates_every_input() {
    let (mut platform_state, _) = initialize_platform(AUTHORITY, 250, 100, 1_000);
    let attempt = |platform_state: &mut _, id: String, supply: u64, price: u64, address: String, valuation: u64| {
        initialize_property(
            platform_state,
            OWNER,
            MINT,
            id,
            supply,
            price,
            address,
            PropertyType::Industrial,
            String::from("hash"),
            valuation,
            2_000,
        )
        .unwrap_err()
    };
    assert_eq!(
        attempt(&mut platform_state, String::from("P"), 0, 10, String::from("a"), 1),
        ErrorCode::InvalidTokenSupply
    );
    assert_eq!(
        attempt(&mut platform_state, String::from("P"), 1, 0, String::from("a"), 1),
        ErrorCode::InvalidTokenPrice
    );
    assert_eq!(
        attempt(&mut platform_state, "x".repeat(33), 1, 10, String::from("a"), 1),
        ErrorCode::PropertyIdTooLong
    );
    assert_eq!(
        attempt(&mut platform_state, String::from("P"), 1, 10, "x".repeat(101), 1),
        ErrorCode::AddressTooLong
    );
    assert_eq!(
        attempt(&mut platform_state, String::from("P"), 1, 10, String::from("a"), 0),
        ErrorCode::InvalidValuation
    );
    assert_eq!(platform_state.total_properties, 0);
    assert_eq!(platform_state.total_value_locked, 0);
}

#[test]
fn valuation_and_yield_updates_are_restricted_and_audited() {
    let (mut platform_state, _) = initialize_platform(AUTHORITY, 250, 100, 1_000);
    let (mut property, _) = initialize_property(
        &mut platform_state,
        OWNER,
        MINT,
        String::from("PROP-1"),
        1_000,
        10,
        String::from("1 Main Street"),
        PropertyType::Residential,
        String::from("hash"),
        750_000,
        2_000,
    )
    .unwrap();
    assert_eq!(
        update_property_valuation(&mut property, &platform_state, USER, 800_000, 4, 3_000),
        Err(ErrorCode::Unauthorized)
    );
    let event =
        update_property_valuation(&mut property, &platform_state, OWNER, 800_000, 4, 3_000)
            .unwrap();
    assert_eq!(event.old_valuation, 750_000);
    assert_eq!(event.new_valuation, 800_000);
    assert_eq!(property.property_valuation, 800_000);
    assert_eq!(property.last_valuation_update, 3_000);

    // The platform authority may update as well.
    let yield_event =
        update_rental_yield(&mut property, &platform_state, AUTHORITY, 650, 5, 3_100).unwrap();
    assert_eq!(yield_event.new_yield, 650);
    assert_eq!(property.expected_rental_yield, 650);
    assert_eq!(
        update_rental_yield(&mut property, &platform_state, USER, 650, 5, 3_100),
        Err(ErrorCode::Unauthorized)
    );
}

#[test]
fn property_sale_walks_the_lifecycle_one_way() {
    let (mut platform_state, _) = initialize_platform(AUTHORITY, 500, 100, 1_000);
    let (mut property, _) = initialize_property(
        &mut platform_state,
        OWNER,
        MINT,
        String::from("PROP-1"),
        1_000,
        10,
        String::from("1 Main Street"),
        PropertyType::Commercial,
        String::from("hash"),
        750_000,
        2_000,
    )
    .unwrap();

    // A property that is not listed cannot be sold.
    assert_eq!(
        execute_property_sale(&mut property, &platform_state, OWNER, 900_000, USER, 4_000),
        Err(ErrorCode::PropertyNotForSale)
    );

    assert_eq!(
        initiate_property_sale(&mut property, &platform_state, USER, 900_000, 880_000, 3_000),
        Err(ErrorCode::Unauthorized)
    );
    let initiated =
        initiate_property_sale(&mut property, &platform_state, OWNER, 900_000, 880_000, 3_000)
            .unwrap();
    assert_eq!(initiated.asking_price, 900_000);
    assert_eq!(property.lifecycle_state, LifecycleState::ListedForSale);
    assert_eq!(property.sale_initiated_at, 3_000);

    // Listing twice is a state conflict.
    assert_eq!(
        initiate_property_sale(&mut property, &platform_state, OWNER, 900_000, 880_000, 3_100),
        Err(ErrorCode::PropertyNotActive)
    );

    // Settling carves out the 5% fee and is terminal.
    let sold = execute_property_sale(&mut property, &platform_state, OWNER, 900_000, USER, 4_000)
        .unwrap();
    assert_eq!(sold.platform_fee, 45_000);
    assert_eq!(sold.net_proceeds, 855_000);
    assert_eq!(property.lifecycle_state, LifecycleState::Sold);
    assert_eq!(property.final_sale_price, 900_000);
    assert_eq!(
        execute_property_sale(&mut property, &platform_state, OWNER, 900_000, USER, 4_100),
        Err(ErrorCode::PropertyNotForSale)
    );
    assert_eq!(
        initiate_property_sale(&mut property, &platform_state, OWNER, 900_000, 880_000, 4_200),
        Err(ErrorCode::PropertyNotActive)
    );
}

#[test]
fn kyc_verdicts_are_recorded_by_the_authority_alone() {
    let (platform_state, _) = initialize_platform(AUTHORITY, 250, 100, 1_000);
    let mut kyc_record = fresh_kyc(USER);
    assert_eq!(
        verify_user_kyc(&platform_state, &mut kyc_record, USER, USER, 1, 9, 2_000),
        Err(ErrorCode::Unauthorized)
    );
    let event = verify_user_kyc(&platform_state, &mut kyc_record, AUTHORITY, USER, 1, 9, 2_000)
        .unwrap();
    assert!(event.is_verified);
    assert!(kyc_record.is_verified);
    assert_eq!(kyc_record.verification_provider, "Chainlink");
    assert_eq!(kyc_record.round_id, 9);

    // Any provider response other than 1 leaves the user unverified.
    verify_user_kyc(&platform_state, &mut kyc_record, AUTHORITY, USER, 0, 10, 2_100).unwrap();
    assert!(!kyc_record.is_verified);

    let status = update_kyc_status(&platform_state, &mut kyc_record, AUTHORITY, USER, true, 2_200)
        .unwrap();
    assert!(status.is_verified);
    assert!(kyc_record.is_verified);
    assert_eq!(kyc_record.updated_at, 2_200);
    assert_eq!(
        update_kyc_status(&platform_state, &mut kyc_record, USER, USER, false, 2_300),
        Err(ErrorCode::Unauthorized)
    );
}

#[test]
fn batch_kyc_updates_apply_all_or_nothing() {
    let (platform_state, _) = initialize_platform(AUTHORITY, 250, 100, 1_000);
    let updates = vec![
        KycUpdate { user: 10, is_verified: true, chainlink_round_id: 7 },
        KycUpdate { user: 11, is_verified: false, chainlink_round_id: 7 },
    ];
    let records = vec![fresh_kyc(10), fresh_kyc(11)];

    assert_eq!(
        batch_update_kyc_status(&platform_state, USER, &updates, &records, 2_000),
        Err(ErrorCode::Unauthorized)
    );

    let mismatched = vec![fresh_kyc(10), fresh_kyc(12)];
    assert_eq!(
        batch_update_kyc_status(&platform_state, AUTHORITY, &updates, &mismatched, 2_000),
        Err(ErrorCode::InvalidKycRecord)
    );

    let short = vec![fresh_kyc(10)];
    assert_eq!(
        batch_update_kyc_status(&platform_state, AUTHORITY, &updates, &short, 2_000),
        Err(ErrorCode::InvalidAccountsLength)
    );

    let oversized_updates: Vec<KycUpdate> = (0..31)
        .map(|i| KycUpdate { user: i as AccountId, is_verified: true, chainlink_round_id: 7 })
        .collect();
    let oversized_records: Vec<KycRecord> =
        (0..31).map(|i| fresh_kyc(i as AccountId)).collect();
    assert_eq!(
        batch_update_kyc_status(
            &platform_state,
            AUTHORITY,
            &oversized_updates,
            &oversized_records,
            2_000
        ),
        Err(ErrorCode::TooManyKycUpdates)
    );

    let (rewritten, events, completion) =
        batch_update_kyc_status(&platform_state, AUTHORITY, &updates, &records, 2_000).unwrap();
    assert_eq!(rewritten.len(), 2);
    assert!(rewritten[0].is_verified);
    assert!(!rewritten[1].is_verified);
    assert_eq!(rewritten[0].verification_provider, "Chainlink");
    assert_eq!(rewritten[1].updated_at, 2_000);
    assert_eq!(events.len(), 2);
    assert_eq!(events[1].batch_index, 1);
    assert_eq!(completion.total_updates, 2);
}
