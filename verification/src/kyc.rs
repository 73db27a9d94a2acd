//! KYC gate maintenance: the platform authority records oracle-fed
//! verification results for users, singly or in a batch. Acquisition
//! operations consult these records through the authorization gate.

use vstd::prelude::*;
use crate::auth::{is_platform_authority, spec_is_platform_authority};
use crate::events::{BatchKycStatusUpdated, BatchKycUpdateCompleted, KycStatusUpdated};
use crate::types::{AccountId, ErrorCode, KycRecord, KycUpdate, PlatformState, MAX_KYC_BATCH};

verus! {

/// Record an oracle's KYC verdict for one user: a provider response of 1
/// verifies the user, anything else leaves them unverified. Restricted to
/// the platform authority.
pub fn verify_user_kyc(
    platform_state: &PlatformState,
    kyc_record: &mut KycRecord,
    authority: AccountId,
    user: AccountId,
    kyc_provider_response: u8,
    chainlink_round_id: u64,
    now: i64,
) -> (r: Result<KycStatusUpdated, ErrorCode>)
    ensures
        match r {
            Ok(event) => {
                &&& spec_is_platform_authority(authority, *platform_state)
                &&& final(kyc_record).user == user
                &&& final(kyc_record).is_verified == (kyc_provider_response == 1)
                &&& final(kyc_record).updated_at == now
                &&& final(kyc_record).verification_provider@ == "Chainlink"@
                &&& final(kyc_record).round_id == chainlink_round_id
                &&& event == (KycStatusUpdated {
                    user,
                    is_verified: (kyc_provider_response == 1),
                    updated_at: now,
                })
            },
            Err(e) => {
                &&& e == ErrorCode::Unauthorized
                &&& !spec_is_platform_authority(authority, *platform_state)
                &&& *final(kyc_record) == *old(kyc_record)
            },
        },
{
    if !is_platform_authority(authority, platform_state) {
        return Err(ErrorCode::Unauthorized);
    }
    let is_verified = kyc_provider_response == 1;
    kyc_record.user = user;
    kyc_record.is_verified = is_verified;
    kyc_record.updated_at = now;
    kyc_record.verification_provider = String::from_str("Chainlink");
    kyc_record.round_id = chainlink_round_id;
    Ok(KycStatusUpdated { user, is_verified, updated_at: now })
}

/// Set one user's KYC status directly; restricted to the platform
/// authority. Provider and round reference are left as they were.
pub fn update_kyc_status(
    platform_state: &PlatformState,
    kyc_record: &mut KycRecord,
    authority: AccountId,
    user: AccountId,
    is_verified: bool,
    now: i64,
) -> (r: Result<KycStatusUpdated, ErrorCode>)
    ensures
        match r {
            Ok(event) => {
                &&& spec_is_platform_authority(authority, *platform_state)
                &&& *final(kyc_record) == (KycRecord {
                    user,
                    is_verified,
                    updated_at: now,
                    ..*old(kyc_record)
                })
                &&& event == (KycStatusUpdated { user, is_verified, updated_at: now })
            },
            Err(e) => {
                &&& e == ErrorCode::Unauthorized
                &&& !spec_is_platform_authority(authority, *platform_state)
                &&& *final(kyc_record) == *old(kyc_record)
            },
        },
{
    if !is_platform_authority(authority, platform_state) {
        return Err(ErrorCode::Unauthorized);
    }
    kyc_record.user = user;
    kyc_record.is_verified = is_verified;
    kyc_record.updated_at = now;
    Ok(KycStatusUpdated { user, is_verified, updated_at: now })
}

/// Every handed-in record belongs to the user its update names.
pub open spec fn kyc_records_match(updates: Seq<KycUpdate>, records: Seq<KycRecord>) -> bool {
    forall|k: int| 0 <= k < updates.len() ==> (#[trigger] records[k]).user == updates[k].user
}

/// First failing check of `batch_update_kyc_status`, in evaluation order,
/// or `None` when the whole batch applies.
pub open spec fn batch_kyc_error(
    platform_state: PlatformState,
    authority: AccountId,
    updates: Seq<KycUpdate>,
    records: Seq<KycRecord>,
) -> Option<ErrorCode> {
    if !spec_is_platform_authority(authority, platform_state) {
        Some(ErrorCode::Unauthorized)
    } else if updates.len() > MAX_KYC_BATCH {
        Some(ErrorCode::TooManyKycUpdates)
    } else if records.len() != updates.len() {
        Some(ErrorCode::InvalidAccountsLength)
    } else if !kyc_records_match(updates, records) {
        Some(ErrorCode::InvalidKycRecord)
    } else {
        None
    }
}

/// Apply a batch of oracle-fed KYC updates in one call, all or nothing.
///
/// Every record must belong to the user its update names, or the whole
/// batch fails with no effect. Nothing is mutated in place; the rewritten
/// records are returned for the store to write back atomically, together
/// with one event per update and a completion event.
#[verifier::loop_isolation(false)]
pub fn batch_update_kyc_status(
    platform_state: &PlatformState,
    authority: AccountId,
    kyc_updates: &Vec<KycUpdate>,
    kyc_records: &Vec<KycRecord>,
    now: i64,
) -> (r: Result<(Vec<KycRecord>, Vec<BatchKycStatusUpdated>, BatchKycUpdateCompleted), ErrorCode>)
    ensures
        match r {
            Ok(out) => {
                &&& batch_kyc_error(*platform_state, authority, kyc_updates@, kyc_records@)
                    is None
                &&& out.0@.len() == kyc_updates@.len()
                &&& forall|k: int|
                    0 <= k < kyc_updates@.len() ==> {
                        let update = #[trigger] kyc_updates@[k];
                        &&& out.0@[k].user == update.user
                        &&& out.0@[k].is_verified == update.is_verified
                        &&& out.0@[k].updated_at == now
                        &&& out.0@[k].verification_provider@ == "Chainlink"@
                        &&& out.0@[k].round_id == update.chainlink_round_id
                    }
                &&& out.1@.len() == kyc_updates@.len()
                &&& forall|k: int|
                    0 <= k < kyc_updates@.len() ==> out.1@[k] == (BatchKycStatusUpdated {
                        user: (#[trigger] kyc_updates@[k]).user,
                        is_verified: kyc_updates@[k].is_verified,
                        updated_at: now,
                        batch_index: k as u8,
                    })
                &&& out.2 == (BatchKycUpdateCompleted {
                    total_updates: kyc_updates@.len() as u8,
                    updated_at: now,
                })
            },
            Err(e) => batch_kyc_error(*platform_state, authority, kyc_updates@, kyc_records@)
                == Some(e),
        },
{
    if !is_platform_authority(authority, platform_state) {
        return Err(ErrorCode::Unauthorized);
    }
    if kyc_updates.len() > MAX_KYC_BATCH {
        return Err(ErrorCode::TooManyKycUpdates);
    }
    if kyc_records.len() != kyc_updates.len() {
        return Err(ErrorCode::InvalidAccountsLength);
    }
    let mut k: usize = 0;
    while k < kyc_updates.len()
        invariant
            k <= kyc_updates@.len(),
            forall|j: int|
                0 <= j < k ==> (#[trigger] kyc_records@[j]).user == kyc_updates@[j].user,
        decreases kyc_updates@.len() - k,
    {
        if kyc_records[k].user != kyc_updates[k].user {
            return Err(ErrorCode::InvalidKycRecord);
        }
        k += 1;
    }
    assert(kyc_records_match(kyc_updates@, kyc_records@));

    let mut updated: Vec<KycRecord> = Vec::new();
    let mut events: Vec<BatchKycStatusUpdated> = Vec::new();
    let mut i: usize = 0;
    while i < kyc_updates.len()
        invariant
            i <= kyc_updates@.len(),
            updated@.len() == i,
            events@.len() == i,
            forall|j: int|
                0 <= j < i ==> {
                    let update = #[trigger] kyc_updates@[j];
                    &&& updated@[j].user == update.user
                    &&& updated@[j].is_verified == update.is_verified
                    &&& updated@[j].updated_at == now
                    &&& updated@[j].verification_provider@ == "Chainlink"@
                    &&& updated@[j].round_id == update.chainlink_round_id
                },
            forall|j: int|
                0 <= j < i ==> events@[j] == (BatchKycStatusUpdated {
                    user: (#[trigger] kyc_updates@[j]).user,
                    is_verified: kyc_updates@[j].is_verified,
                    updated_at: now,
                    batch_index: j as u8,
                }),
        decreases kyc_updates@.len() - i,
    {
        let update = kyc_updates[i];
        updated.push(KycRecord {
            user: update.user,
            is_verified: update.is_verified,
            updated_at: now,
            verification_provider: String::from_str("Chainlink"),
            round_id: update.chainlink_round_id,
        });
        events.push(BatchKycStatusUpdated {
            user: update.user,
            is_verified: update.is_verified,
            updated_at: now,
            batch_index: i as u8,
        });
        i += 1;
    }
    let completion = BatchKycUpdateCompleted {
        total_updates: kyc_updates.len() as u8,
        updated_at: now,
    };
    Ok((updated, events, completion))
}

} // verus!
