//! Property registry: registration of a property for tokenization,
//! oracle-fed valuation and yield updates, and the one-way sale lifecycle
//! `Active` → `ListedForSale` → `Sold`.

use vstd::prelude::*;
use crate::auth::{is_property_authority, spec_is_property_authority};
use crate::bps::{fee_of, lemma_fee_bounds};
use crate::events::{
    PropertyInitialized, PropertySaleInitiated, PropertySold, PropertyValuationUpdated,
    RentalYieldUpdated,
};
use crate::types::{
    AccountId, ErrorCode, LifecycleState, PlatformState, Property, PropertyType,
    BPS_DENOMINATOR, MAX_PROPERTY_ADDRESS_LEN, MAX_PROPERTY_ID_LEN,
};

verus! {

/// First failing check of `initialize_property`, in evaluation order, or
/// `None` when registration succeeds.
pub open spec fn initialize_property_error(
    platform_state: PlatformState,
    property_id: String,
    total_tokens: u64,
    token_price: u64,
    property_address: String,
    chainlink_valuation: u64,
) -> Option<ErrorCode> {
    if total_tokens == 0 {
        Some(ErrorCode::InvalidTokenSupply)
    } else if token_price == 0 {
        Some(ErrorCode::InvalidTokenPrice)
    } else if property_id@.len() > MAX_PROPERTY_ID_LEN {
        Some(ErrorCode::PropertyIdTooLong)
    } else if property_address@.len() > MAX_PROPERTY_ADDRESS_LEN {
        Some(ErrorCode::AddressTooLong)
    } else if chainlink_valuation == 0 {
        Some(ErrorCode::InvalidValuation)
    } else if platform_state.total_properties + 1 > u64::MAX {
        Some(ErrorCode::MathOverflow)
    } else if platform_state.total_value_locked + chainlink_valuation > u64::MAX {
        Some(ErrorCode::MathOverflow)
    } else {
        None
    }
}

/// Register a new property for tokenization.
///
/// The supply cap, share price and oracle valuation must be positive and
/// the identifier and address must respect their bounds. The new property
/// starts with nothing issued, no income, KYC required and the `Active`
/// lifecycle state; the platform's property counter and total value
/// locked grow accordingly.
pub fn initialize_property(
    platform_state: &mut PlatformState,
    property_owner: AccountId,
    token_mint: AccountId,
    property_id: String,
    total_tokens: u64,
    token_price: u64,
    property_address: String,
    property_type: PropertyType,
    legal_document_hash: String,
    chainlink_valuation: u64,
    now: i64,
) -> (r: Result<(Property, PropertyInitialized), ErrorCode>)
    ensures
        match r {
            Ok(out) => {
                &&& initialize_property_error(
                    *old(platform_state),
                    property_id,
                    total_tokens,
                    token_price,
                    property_address,
                    chainlink_valuation,
                ) is None
                &&& out.0 == (Property {
                    property_id,
                    owner: property_owner,
                    total_tokens,
                    tokens_sold: 0,
                    token_price,
                    property_address,
                    property_type,
                    legal_document_hash,
                    total_rental_income: 0,
                    last_income_distribution: now,
                    lifecycle_state: LifecycleState::Active,
                    token_mint,
                    property_valuation: chainlink_valuation,
                    last_valuation_update: now,
                    kyc_required: true,
                    expected_rental_yield: 0,
                    property_vault: property_owner,
                    asking_price: 0,
                    market_valuation: 0,
                    sale_initiated_at: 0,
                    final_sale_price: 0,
                    sale_completed_at: 0,
                })
                &&& out.0.well_formed()
                &&& *final(platform_state) == (PlatformState {
                    total_properties: (old(platform_state).total_properties + 1) as u64,
                    total_value_locked: (old(platform_state).total_value_locked
                        + chainlink_valuation) as u64,
                    ..*old(platform_state)
                })
                &&& out.1 == (PropertyInitialized {
                    property_id,
                    owner: property_owner,
                    total_tokens,
                    token_price,
                    token_mint,
                })
            },
            Err(e) => {
                &&& initialize_property_error(
                    *old(platform_state),
                    property_id,
                    total_tokens,
                    token_price,
                    property_address,
                    chainlink_valuation,
                ) == Some(e)
                &&& *final(platform_state) == *old(platform_state)
            },
        },
{
    if total_tokens == 0 {
        return Err(ErrorCode::InvalidTokenSupply);
    }
    if token_price == 0 {
        return Err(ErrorCode::InvalidTokenPrice);
    }
    if property_id.as_str().unicode_len() > MAX_PROPERTY_ID_LEN {
        return Err(ErrorCode::PropertyIdTooLong);
    }
    if property_address.as_str().unicode_len() > MAX_PROPERTY_ADDRESS_LEN {
        return Err(ErrorCode::AddressTooLong);
    }
    if chainlink_valuation == 0 {
        return Err(ErrorCode::InvalidValuation);
    }
    let new_count = match platform_state.total_properties.checked_add(1) {
        Some(c) => c,
        None => {
            return Err(ErrorCode::MathOverflow);
        },
    };
    let new_locked = match platform_state.total_value_locked.checked_add(chainlink_valuation) {
        Some(v) => v,
        None => {
            return Err(ErrorCode::MathOverflow);
        },
    };
    let event = PropertyInitialized {
        property_id: property_id.clone(),
        owner: property_owner,
        total_tokens,
        token_price,
        token_mint,
    };
    let property = Property {
        property_id,
        owner: property_owner,
        total_tokens,
        tokens_sold: 0,
        token_price,
        property_address,
        property_type,
        legal_document_hash,
        total_rental_income: 0,
        last_income_distribution: now,
        lifecycle_state: LifecycleState::Active,
        token_mint,
        property_valuation: chainlink_valuation,
        last_valuation_update: now,
        kyc_required: true,
        expected_rental_yield: 0,
        property_vault: property_owner,
        asking_price: 0,
        market_valuation: 0,
        sale_initiated_at: 0,
        final_sale_price: 0,
        sale_completed_at: 0,
    };
    platform_state.total_properties = new_count;
    platform_state.total_value_locked = new_locked;
    Ok((property, event))
}

/// Overwrite a property's valuation with a fresh oracle reading.
///
/// Restricted to the property owner or the platform authority; the event
/// carries the old and the new value for the audit trail.
pub fn update_property_valuation(
    property: &mut Property,
    platform_state: &PlatformState,
    authority: AccountId,
    new_valuation: u64,
    chainlink_round_id: u64,
    now: i64,
) -> (r: Result<PropertyValuationUpdated, ErrorCode>)
    ensures
        match r {
            Ok(event) => {
                &&& spec_is_property_authority(authority, *old(property), *platform_state)
                &&& *final(property) == (Property {
                    property_valuation: new_valuation,
                    last_valuation_update: now,
                    ..*old(property)
                })
                &&& event == (PropertyValuationUpdated {
                    property_id: old(property).property_id,
                    old_valuation: old(property).property_valuation,
                    new_valuation,
                    chainlink_round_id,
                    timestamp: now,
                })
            },
            Err(e) => {
                &&& e == ErrorCode::Unauthorized
                &&& !spec_is_property_authority(authority, *old(property), *platform_state)
                &&& *final(property) == *old(property)
            },
        },
{
    if !is_property_authority(authority, property, platform_state) {
        return Err(ErrorCode::Unauthorized);
    }
    let old_valuation = property.property_valuation;
    property.property_valuation = new_valuation;
    property.last_valuation_update = now;
    Ok(PropertyValuationUpdated {
        property_id: property.property_id.clone(),
        old_valuation,
        new_valuation,
        chainlink_round_id,
        timestamp: now,
    })
}

/// Overwrite a property's expected rental yield with a fresh oracle
/// reading; restricted to the property owner or the platform authority.
pub fn update_rental_yield(
    property: &mut Property,
    platform_state: &PlatformState,
    authority: AccountId,
    new_yield: u64,
    chainlink_round_id: u64,
    now: i64,
) -> (r: Result<RentalYieldUpdated, ErrorCode>)
    ensures
        match r {
            Ok(event) => {
                &&& spec_is_property_authority(authority, *old(property), *platform_state)
                &&& *final(property) == (Property {
                    expected_rental_yield: new_yield,
                    ..*old(property)
                })
                &&& event == (RentalYieldUpdated {
                    property_id: old(property).property_id,
                    new_yield,
                    chainlink_round_id,
                    timestamp: now,
                })
            },
            Err(e) => {
                &&& e == ErrorCode::Unauthorized
                &&& !spec_is_property_authority(authority, *old(property), *platform_state)
                &&& *final(property) == *old(property)
            },
        },
{
    if !is_property_authority(authority, property, platform_state) {
        return Err(ErrorCode::Unauthorized);
    }
    property.expected_rental_yield = new_yield;
    Ok(RentalYieldUpdated {
        property_id: property.property_id.clone(),
        new_yield,
        chainlink_round_id,
        timestamp: now,
    })
}

/// First failing check of `initiate_property_sale`, in evaluation order,
/// or `None` when the listing succeeds.
pub open spec fn initiate_sale_error(
    property: Property,
    platform_state: PlatformState,
    authority: AccountId,
) -> Option<ErrorCode> {
    if !spec_is_property_authority(authority, property, platform_state) {
        Some(ErrorCode::Unauthorized)
    } else if property.lifecycle_state != LifecycleState::Active {
        Some(ErrorCode::PropertyNotActive)
    } else {
        None
    }
}

/// Put a whole property up for sale: the one-way transition from `Active`
/// to `ListedForSale`. A property already listed or already sold cannot be
/// listed again.
pub fn initiate_property_sale(
    property: &mut Property,
    platform_state: &PlatformState,
    authority: AccountId,
    asking_price: u64,
    chainlink_valuation: u64,
    now: i64,
) -> (r: Result<PropertySaleInitiated, ErrorCode>)
    ensures
        match r {
            Ok(event) => {
                &&& initiate_sale_error(*old(property), *platform_state, authority) is None
                &&& *final(property) == (Property {
                    lifecycle_state: LifecycleState::ListedForSale,
                    asking_price,
                    market_valuation: chainlink_valuation,
                    sale_initiated_at: now,
                    ..*old(property)
                })
                &&& event == (PropertySaleInitiated {
                    property_id: old(property).property_id,
                    asking_price,
                    market_valuation: chainlink_valuation,
                    timestamp: now,
                })
            },
            Err(e) => {
                &&& initiate_sale_error(*old(property), *platform_state, authority) == Some(e)
                &&& *final(property) == *old(property)
            },
        },
{
    if !is_property_authority(authority, property, platform_state) {
        return Err(ErrorCode::Unauthorized);
    }
    if property.lifecycle_state != LifecycleState::Active {
        return Err(ErrorCode::PropertyNotActive);
    }
    property.lifecycle_state = LifecycleState::ListedForSale;
    property.asking_price = asking_price;
    property.market_valuation = chainlink_valuation;
    property.sale_initiated_at = now;
    Ok(PropertySaleInitiated {
        property_id: property.property_id.clone(),
        asking_price,
        market_valuation: chainlink_valuation,
        timestamp: now,
    })
}

/// First failing check of `execute_property_sale`, in evaluation order, or
/// `None` when the sale settles.
pub open spec fn execute_sale_error(
    property: Property,
    platform_state: PlatformState,
    authority: AccountId,
    sale_price: u64,
) -> Option<ErrorCode> {
    if property.lifecycle_state != LifecycleState::ListedForSale {
        Some(ErrorCode::PropertyNotForSale)
    } else if !spec_is_property_authority(authority, property, platform_state) {
        Some(ErrorCode::Unauthorized)
    } else if sale_price * platform_state.platform_fee > u64::MAX {
        Some(ErrorCode::MathOverflow)
    } else {
        None
    }
}

/// Settle the sale of a listed property: carve the platform fee out of the
/// sale price and move the property to the terminal `Sold` state, after
/// which no ledger mutation on it ever succeeds again.
pub fn execute_property_sale(
    property: &mut Property,
    platform_state: &PlatformState,
    authority: AccountId,
    sale_price: u64,
    buyer_address: AccountId,
    now: i64,
) -> (r: Result<PropertySold, ErrorCode>)
    requires
        platform_state.well_formed(),
    ensures
        match r {
            Ok(event) => {
                &&& execute_sale_error(*old(property), *platform_state, authority, sale_price)
                    is None
                &&& *final(property) == (Property {
                    lifecycle_state: LifecycleState::Sold,
                    final_sale_price: sale_price,
                    sale_completed_at: now,
                    ..*old(property)
                })
                &&& event == (PropertySold {
                    property_id: old(property).property_id,
                    sale_price,
                    platform_fee: fee_of(sale_price, platform_state.platform_fee) as u64,
                    net_proceeds: (sale_price - fee_of(
                        sale_price,
                        platform_state.platform_fee,
                    )) as u64,
                    buyer: buyer_address,
                    timestamp: now,
                })
            },
            Err(e) => {
                &&& execute_sale_error(*old(property), *platform_state, authority, sale_price)
                    == Some(e)
                &&& *final(property) == *old(property)
            },
        },
{
    if property.lifecycle_state != LifecycleState::ListedForSale {
        return Err(ErrorCode::PropertyNotForSale);
    }
    if !is_property_authority(authority, property, platform_state) {
        return Err(ErrorCode::Unauthorized);
    }
    let platform_fee = match sale_price.checked_mul(platform_state.platform_fee) {
        Some(product) => product / BPS_DENOMINATOR,
        None => {
            return Err(ErrorCode::MathOverflow);
        },
    };
    proof {
        lemma_fee_bounds(sale_price, platform_state.platform_fee);
    }
    let net_proceeds = sale_price - platform_fee;
    property.lifecycle_state = LifecycleState::Sold;
    property.final_sale_price = sale_price;
    property.sale_completed_at = now;
    Ok(PropertySold {
        property_id: property.property_id.clone(),
        sale_price,
        platform_fee,
        net_proceeds,
        buyer: buyer_address,
        timestamp: now,
    })
}

} // verus!
