//! Secondary market: fixed-price listings of shares and fills against
//! them. The market is a thin coordination record — it tracks listing
//! state only; moving funds and shares between seller and buyer is the
//! caller's business through the ownership ledger.

use vstd::prelude::*;
use crate::events::{TokensListedForSale, TokensPurchasedFromMarket};
use crate::types::{AccountId, ErrorCode, LifecycleState, MarketListing, Property};

verus! {

/// First failing check of `list_tokens_for_sale`, in evaluation order, or
/// `None` when the listing is created.
pub open spec fn list_error(
    property: Property,
    amount: u64,
    price_per_token: u64,
) -> Option<ErrorCode> {
    if property.lifecycle_state == LifecycleState::Sold {
        Some(ErrorCode::PropertyNotActive)
    } else if amount == 0 {
        Some(ErrorCode::InvalidAmount)
    } else if price_per_token == 0 {
        Some(ErrorCode::InvalidTokenPrice)
    } else if amount * price_per_token > u64::MAX {
        Some(ErrorCode::MathOverflow)
    } else {
        None
    }
}

/// Record a fixed-price listing of shares on the secondary market.
///
/// Amount and price must be positive and their checked product is stored
/// as the listing's total price; the listing starts active.
pub fn list_tokens_for_sale(
    property: &Property,
    property_key: AccountId,
    seller: AccountId,
    amount: u64,
    price_per_token: u64,
    market_price_usd: u64,
    now: i64,
) -> (r: Result<(MarketListing, TokensListedForSale), ErrorCode>)
    ensures
        match r {
            Ok(out) => {
                &&& list_error(*property, amount, price_per_token) is None
                &&& out.0 == (MarketListing {
                    seller,
                    property: property_key,
                    amount,
                    price_per_token,
                    total_price: (amount * price_per_token) as u64,
                    is_active: true,
                    created_at: now,
                    market_price_reference: market_price_usd,
                })
                &&& out.1 == (TokensListedForSale {
                    property_id: property.property_id,
                    seller,
                    amount,
                    price_per_token,
                    market_price_reference: market_price_usd,
                })
            },
            Err(e) => list_error(*property, amount, price_per_token) == Some(e),
        },
{
    if property.lifecycle_state == LifecycleState::Sold {
        return Err(ErrorCode::PropertyNotActive);
    }
    if amount == 0 {
        return Err(ErrorCode::InvalidAmount);
    }
    if price_per_token == 0 {
        return Err(ErrorCode::InvalidTokenPrice);
    }
    let total_price = match amount.checked_mul(price_per_token) {
        Some(p) => p,
        None => {
            return Err(ErrorCode::MathOverflow);
        },
    };
    let listing = MarketListing {
        seller,
        property: property_key,
        amount,
        price_per_token,
        total_price,
        is_active: true,
        created_at: now,
        market_price_reference: market_price_usd,
    };
    let event = TokensListedForSale {
        property_id: property.property_id.clone(),
        seller,
        amount,
        price_per_token,
        market_price_reference: market_price_usd,
    };
    Ok((listing, event))
}

/// First failing check of `buy_from_market`, in evaluation order, or
/// `None` when the fill succeeds.
pub open spec fn buy_error(listing: MarketListing, amount: u64) -> Option<ErrorCode> {
    if !listing.is_active {
        Some(ErrorCode::ListingNotActive)
    } else if amount > listing.amount {
        Some(ErrorCode::InsufficientTokens)
    } else if amount * listing.price_per_token > u64::MAX {
        Some(ErrorCode::MathOverflow)
    } else {
        None
    }
}

/// Fill an active listing for `amount` shares at its fixed price.
///
/// The listed amount shrinks by the fill; the listing deactivates exactly
/// when it reaches zero, and a deactivated listing can never be filled
/// again.
pub fn buy_from_market(
    market_listing: &mut MarketListing,
    property: &Property,
    buyer: AccountId,
    amount: u64,
) -> (r: Result<TokensPurchasedFromMarket, ErrorCode>)
    ensures
        match r {
            Ok(event) => {
                &&& buy_error(*old(market_listing), amount) is None
                &&& *final(market_listing) == (MarketListing {
                    amount: (old(market_listing).amount - amount) as u64,
                    is_active: old(market_listing).amount > amount,
                    ..*old(market_listing)
                })
                &&& event == (TokensPurchasedFromMarket {
                    property_id: property.property_id,
                    seller: old(market_listing).seller,
                    buyer,
                    amount,
                    total_cost: (amount * old(market_listing).price_per_token) as u64,
                })
            },
            Err(e) => {
                &&& buy_error(*old(market_listing), amount) == Some(e)
                &&& *final(market_listing) == *old(market_listing)
            },
        },
{
    if !market_listing.is_active {
        return Err(ErrorCode::ListingNotActive);
    }
    if amount > market_listing.amount {
        return Err(ErrorCode::InsufficientTokens);
    }
    let total_cost = match amount.checked_mul(market_listing.price_per_token) {
        Some(c) => c,
        None => {
            return Err(ErrorCode::MathOverflow);
        },
    };
    market_listing.amount = market_listing.amount - amount;
    if market_listing.amount == 0 {
        market_listing.is_active = false;
    }
    Ok(TokensPurchasedFromMarket {
        property_id: property.property_id.clone(),
        seller: market_listing.seller,
        buyer,
        amount,
        total_cost,
    })
}

} // verus!
