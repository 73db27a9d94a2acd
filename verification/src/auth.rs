//! Authorization gate: every mutating operation re-evaluates these checks
//! against the stored authority and ownership fields; nothing is cached
//! across calls.

use vstd::prelude::*;
use crate::types::{AccountId, KycRecord, PlatformState, Property};

verus! {

/// The caller may administer the platform itself.
pub open spec fn spec_is_platform_authority(caller: AccountId, platform_state: PlatformState) -> bool {
    caller == platform_state.authority
}

/// The caller may administer this property: it is the property's owner or
/// the platform authority.
pub open spec fn spec_is_property_authority(
    caller: AccountId,
    property: Property,
    platform_state: PlatformState,
) -> bool {
    caller == property.owner || caller == platform_state.authority
}

/// The KYC gate for acquisitions: open when the property does not demand
/// KYC, or when the buyer's record is verified.
pub open spec fn spec_kyc_gate_open(property: Property, kyc_record: KycRecord) -> bool {
    !property.kyc_required || kyc_record.is_verified
}

pub fn is_platform_authority(caller: AccountId, platform_state: &PlatformState) -> (r: bool)
    ensures
        r == spec_is_platform_authority(caller, *platform_state),
{
    caller == platform_state.authority
}

pub fn is_property_authority(
    caller: AccountId,
    property: &Property,
    platform_state: &PlatformState,
) -> (r: bool)
    ensures
        r == spec_is_property_authority(caller, *property, *platform_state),
{
    caller == property.owner || caller == platform_state.authority
}

pub fn kyc_gate_open(property: &Property, kyc_record: &KycRecord) -> (r: bool)
    ensures
        r == spec_kyc_gate_open(*property, *kyc_record),
{
    !property.kyc_required || kyc_record.is_verified
}

} // verus!
