//! Platform registry: the global configuration singleton and the external
//! price reference it carries.

use vstd::prelude::*;
use crate::auth::spec_is_platform_authority;
use crate::events::{PlatformInitialized, SolPriceUpdated};
use crate::types::{AccountId, ErrorCode, PlatformState, BPS_DENOMINATOR};

verus! {

/// Create the platform configuration singleton.
///
/// The fee rate is a basis-point ratio, so a caller may not hand in more
/// than 100%; aggregate counters and the price reference start at zero.
pub fn initialize_platform(
    authority: AccountId,
    platform_fee: u64,
    governance_threshold: u64,
    now: i64,
) -> (r: (PlatformState, PlatformInitialized))
    requires
        platform_fee <= BPS_DENOMINATOR,
    ensures
        r.0 == (PlatformState {
            authority,
            platform_fee,
            governance_threshold,
            total_properties: 0,
            total_value_locked: 0,
            sol_usd_price: 0,
            last_price_update: now,
        }),
        r.0.well_formed(),
        r.1 == (PlatformInitialized { authority, platform_fee, governance_threshold }),
{
    let platform_state = PlatformState {
        authority,
        platform_fee,
        governance_threshold,
        total_properties: 0,
        total_value_locked: 0,
        sol_usd_price: 0,
        last_price_update: now,
    };
    let event = PlatformInitialized { authority, platform_fee, governance_threshold };
    (platform_state, event)
}

/// Overwrite the external price reference with a fresh oracle reading.
///
/// Only the platform authority may do so; on success the price and its
/// timestamp are replaced and nothing else moves.
pub fn update_sol_price(
    platform_state: &mut PlatformState,
    authority: AccountId,
    new_price: u64,
    chainlink_round_id: u64,
    now: i64,
) -> (r: Result<SolPriceUpdated, ErrorCode>)
    ensures
        match r {
            Ok(event) => {
                &&& spec_is_platform_authority(authority, *old(platform_state))
                &&& *final(platform_state) == (PlatformState {
                    sol_usd_price: new_price,
                    last_price_update: now,
                    ..*old(platform_state)
                })
                &&& event == (SolPriceUpdated { new_price, chainlink_round_id, timestamp: now })
            },
            Err(e) => {
                &&& e == ErrorCode::Unauthorized
                &&& !spec_is_platform_authority(authority, *old(platform_state))
                &&& *final(platform_state) == *old(platform_state)
            },
        },
{
    if authority != platform_state.authority {
        return Err(ErrorCode::Unauthorized);
    }
    platform_state.sol_usd_price = new_price;
    platform_state.last_price_update = now;
    Ok(SolPriceUpdated { new_price, chainlink_round_id, timestamp: now })
}

} // verus!
