//! Income distribution engine: accrues rental income to a property after
//! the platform fee, and pays each holder a live pro-rata share of all
//! income ever accrued, minus what that holder has already claimed.
//!
//! Entitlement is recomputed from cumulative figures on every claim, so a
//! claim can never pay the same income twice: after a successful claim the
//! holder's cumulative `total_claimed` equals the cumulative entitlement at
//! that moment, and further claims pay only income accrued since.

use vstd::prelude::*;
use vstd::arithmetic::div_mod::lemma_div_pos_is_pos;
use vstd::arithmetic::mul::lemma_mul_nonnegative;
use crate::auth::{is_property_authority, spec_is_property_authority};
use crate::bps::{
    distributable_of, entitled_of, fee_of, lemma_entitled_bounds, lemma_fee_bounds,
    lemma_ownership_bps_bounds, ownership_bps_of,
};
use crate::events::{
    BatchClaimCompleted, BatchRentalIncomeClaimed, BatchRentalIncomeDistributed,
    RentalIncomeClaimed, RentalIncomeDistributed,
};
use crate::types::{
    AccountId, ErrorCode, InvestorRecord, LifecycleState, PlatformState, Property,
    BPS_DENOMINATOR, MAX_CLAIM_BATCH, MAX_DISTRIBUTE_BATCH,
};

verus! {

/// First failing check of `distribute_rental_income`, in evaluation order,
/// or `None` when the operation succeeds.
pub open spec fn distribute_error(
    property: Property,
    platform_state: PlatformState,
    authority: AccountId,
    total_income: u64,
) -> Option<ErrorCode> {
    if property.lifecycle_state == LifecycleState::Sold {
        Some(ErrorCode::PropertyNotActive)
    } else if !spec_is_property_authority(authority, property, platform_state) {
        Some(ErrorCode::Unauthorized)
    } else if total_income == 0 {
        Some(ErrorCode::InvalidAmount)
    } else if property.tokens_sold == 0 {
        Some(ErrorCode::NoTokensIssued)
    } else if total_income * platform_state.platform_fee > u64::MAX {
        Some(ErrorCode::MathOverflow)
    } else if property.total_rental_income + distributable_of(
        total_income,
        platform_state.platform_fee,
    ) > u64::MAX {
        Some(ErrorCode::MathOverflow)
    } else {
        None
    }
}

/// Accrue rental income to a property.
///
/// Only the property owner or the platform authority may accrue. The
/// platform fee is carved out first; the remainder is added to the
/// property's cumulative `total_rental_income`, which is never reset and is
/// the sole source of truth for later claims.
pub fn distribute_rental_income(
    property: &mut Property,
    platform_state: &PlatformState,
    authority: AccountId,
    total_income: u64,
    chainlink_round_id: u64,
    now: i64,
) -> (r: Result<RentalIncomeDistributed, ErrorCode>)
    requires
        platform_state.well_formed(),
    ensures
        final(property).total_rental_income >= old(property).total_rental_income,
        match r {
            Ok(event) => {
                &&& distribute_error(*old(property), *platform_state, authority, total_income)
                    is None
                &&& *final(property) == (Property {
                    total_rental_income: (old(property).total_rental_income + distributable_of(
                        total_income,
                        platform_state.platform_fee,
                    )) as u64,
                    last_income_distribution: now,
                    ..*old(property)
                })
                &&& event == (RentalIncomeDistributed {
                    property_id: old(property).property_id,
                    total_income,
                    platform_fee: fee_of(total_income, platform_state.platform_fee) as u64,
                    distributable_income: distributable_of(
                        total_income,
                        platform_state.platform_fee,
                    ) as u64,
                    chainlink_round_id,
                    timestamp: now,
                })
            },
            Err(e) => {
                &&& distribute_error(*old(property), *platform_state, authority, total_income)
                    == Some(e)
                &&& *final(property) == *old(property)
            },
        },
{
    if property.lifecycle_state == LifecycleState::Sold {
        return Err(ErrorCode::PropertyNotActive);
    }
    if !is_property_authority(authority, property, platform_state) {
        return Err(ErrorCode::Unauthorized);
    }
    if total_income == 0 {
        return Err(ErrorCode::InvalidAmount);
    }
    if property.tokens_sold == 0 {
        return Err(ErrorCode::NoTokensIssued);
    }
    let platform_fee = match total_income.checked_mul(platform_state.platform_fee) {
        Some(product) => product / BPS_DENOMINATOR,
        None => {
            return Err(ErrorCode::MathOverflow);
        },
    };
    proof {
        lemma_fee_bounds(total_income, platform_state.platform_fee);
    }
    let distributable_income = total_income - platform_fee;
    let new_total = match property.total_rental_income.checked_add(distributable_income) {
        Some(t) => t,
        None => {
            return Err(ErrorCode::MathOverflow);
        },
    };
    property.total_rental_income = new_total;
    property.last_income_distribution = now;
    Ok(RentalIncomeDistributed {
        property_id: property.property_id.clone(),
        total_income,
        platform_fee,
        distributable_income,
        chainlink_round_id,
        timestamp: now,
    })
}

/// First failing check of `claim_rental_income`, in evaluation order, or
/// `None` when the claim pays out.
pub open spec fn claim_error(property: Property, record: InvestorRecord) -> Option<ErrorCode> {
    if property.lifecycle_state == LifecycleState::Sold {
        Some(ErrorCode::PropertyNotActive)
    } else if record.tokens_owned == 0 {
        Some(ErrorCode::NoTokensOwned)
    } else if property.total_rental_income * ownership_bps_of(
        record.tokens_owned,
        property.tokens_sold,
    ) > u64::MAX {
        Some(ErrorCode::MathOverflow)
    } else if entitled_of(
        property.total_rental_income,
        record.tokens_owned,
        property.tokens_sold,
    ) < record.total_claimed {
        Some(ErrorCode::MathOverflow)
    } else if entitled_of(
        property.total_rental_income,
        record.tokens_owned,
        property.tokens_sold,
    ) == record.total_claimed {
        Some(ErrorCode::NothingToClaim)
    } else {
        None
    }
}

/// What a claim would pay right now: the holder's pro-rata entitlement to
/// all income ever accrued, minus everything already claimed.
pub open spec fn claimable_of(property: Property, record: InvestorRecord) -> int {
    entitled_of(property.total_rental_income, record.tokens_owned, property.tokens_sold)
        - record.total_claimed
}

/// Pay one holder their outstanding entitlement on one property.
///
/// The caller must hand in the position kept for this property, so the
/// ledger invariant gives `tokens_owned <= tokens_sold`. On success the
/// payout equals `claimable_of` and the holder's cumulative `total_claimed`
/// rises to exactly the current entitlement, which is what rules out any
/// second payment for the same income.
pub fn claim_rental_income(
    property: &Property,
    investor_record: &mut InvestorRecord,
    now: i64,
) -> (r: Result<RentalIncomeClaimed, ErrorCode>)
    requires
        old(investor_record).tokens_owned <= property.tokens_sold,
    ensures
        final(investor_record).total_claimed >= old(investor_record).total_claimed,
        match r {
            Ok(event) => {
                &&& claim_error(*property, *old(investor_record)) is None
                &&& event.amount == claimable_of(*property, *old(investor_record))
                &&& event.amount > 0
                &&& event.amount <= property.total_rental_income
                &&& *final(investor_record) == (InvestorRecord {
                    total_claimed: (old(investor_record).total_claimed + event.amount) as u64,
                    last_claim_time: now,
                    ..*old(investor_record)
                })
                &&& final(investor_record).total_claimed == entitled_of(
                    property.total_rental_income,
                    old(investor_record).tokens_owned,
                    property.tokens_sold,
                )
                &&& event == (RentalIncomeClaimed {
                    property_id: property.property_id,
                    investor: old(investor_record).investor,
                    amount: event.amount,
                    total_claimed: final(investor_record).total_claimed,
                })
            },
            Err(e) => {
                &&& claim_error(*property, *old(investor_record)) == Some(e)
                &&& *final(investor_record) == *old(investor_record)
            },
        },
{
    if property.lifecycle_state == LifecycleState::Sold {
        return Err(ErrorCode::PropertyNotActive);
    }
    if investor_record.tokens_owned == 0 {
        return Err(ErrorCode::NoTokensOwned);
    }
    let bps_wide: u128 = (investor_record.tokens_owned as u128) * (BPS_DENOMINATOR as u128)
        / (property.tokens_sold as u128);
    proof {
        lemma_ownership_bps_bounds(investor_record.tokens_owned, property.tokens_sold);
    }
    let ownership_bps: u64 = bps_wide as u64;
    let product = match property.total_rental_income.checked_mul(ownership_bps) {
        Some(p) => p,
        None => {
            return Err(ErrorCode::MathOverflow);
        },
    };
    let entitled = product / BPS_DENOMINATOR;
    let claimable = match entitled.checked_sub(investor_record.total_claimed) {
        Some(c) => c,
        None => {
            return Err(ErrorCode::MathOverflow);
        },
    };
    if claimable == 0 {
        return Err(ErrorCode::NothingToClaim);
    }
    proof {
        lemma_entitled_bounds(
            property.total_rental_income,
            investor_record.tokens_owned,
            property.tokens_sold,
        );
    }
    investor_record.total_claimed = entitled;
    investor_record.last_claim_time = now;
    Ok(RentalIncomeClaimed {
        property_id: property.property_id.clone(),
        investor: investor_record.investor,
        amount: claimable,
        total_claimed: entitled,
    })
}

/// Payout of one batch-distribution entry: the holder's pro-rata share of
/// the distributable amount, or nothing for an empty position.
pub open spec fn spec_share_amount(distributable: u64, owned: u64, issued: u64) -> int {
    if owned == 0 {
        0
    } else {
        entitled_of(distributable, owned, issued)
    }
}

/// The intermediate product of one entry's payout stays within `u64`.
pub open spec fn share_fits(distributable: u64, owned: u64, issued: u64) -> bool {
    owned > 0 ==> distributable * ownership_bps_of(owned, issued) <= u64::MAX
}

/// Every entry's payout can be computed without overflow.
pub open spec fn batch_shares_fit(
    entries: Seq<(AccountId, InvestorRecord)>,
    distributable: u64,
    issued: u64,
) -> bool {
    forall|k: int|
        0 <= k < entries.len() ==> share_fits(
            distributable,
            (#[trigger] entries[k]).1.tokens_owned,
            issued,
        )
}

/// Each handed-in position really belongs to the holder it is listed
/// under.
pub open spec fn records_match_addresses(entries: Seq<(AccountId, InvestorRecord)>) -> bool {
    forall|k: int| 0 <= k < entries.len() ==> (#[trigger] entries[k]).1.investor == entries[k].0
}

/// Running audit total of a batch distribution: the sum of every entry's
/// payout.
pub open spec fn batch_distributed_total(
    entries: Seq<(AccountId, InvestorRecord)>,
    distributable: u64,
    issued: u64,
) -> int
    decreases entries.len(),
{
    if entries.len() == 0 {
        0
    } else {
        batch_distributed_total(entries.drop_last(), distributable, issued) + spec_share_amount(
            distributable,
            entries.last().1.tokens_owned,
            issued,
        )
    }
}

/// The per-holder events a batch distribution emits: one per entry that
/// holds shares, in entry order.
pub open spec fn batch_distribute_events(
    entries: Seq<(AccountId, InvestorRecord)>,
    property_id: String,
    distributable: u64,
    issued: u64,
    batch_id: u64,
) -> Seq<BatchRentalIncomeDistributed>
    decreases entries.len(),
{
    if entries.len() == 0 {
        Seq::<BatchRentalIncomeDistributed>::empty()
    } else {
        let rest = batch_distribute_events(
            entries.drop_last(),
            property_id,
            distributable,
            issued,
            batch_id,
        );
        if entries.last().1.tokens_owned > 0 {
            rest.push(BatchRentalIncomeDistributed {
                property_id,
                investor: entries.last().0,
                amount: spec_share_amount(
                    distributable,
                    entries.last().1.tokens_owned,
                    issued,
                ) as u64,
                batch_id,
            })
        } else {
            rest
        }
    }
}

pub proof fn lemma_share_amount_nonneg(distributable: u64, owned: u64, issued: u64)
    requires
        issued > 0,
    ensures
        0 <= spec_share_amount(distributable, owned, issued),
{
    if owned > 0 {
        let d = BPS_DENOMINATOR as int;
        lemma_mul_nonnegative(owned as int, d);
        lemma_div_pos_is_pos(owned * d, issued as int);
        lemma_mul_nonnegative(distributable as int, ownership_bps_of(owned, issued));
        lemma_div_pos_is_pos(distributable * ownership_bps_of(owned, issued), d);
    }
}

pub proof fn lemma_batch_total_extend(
    entries: Seq<(AccountId, InvestorRecord)>,
    i: int,
    distributable: u64,
    issued: u64,
)
    requires
        0 <= i < entries.len(),
    ensures
        batch_distributed_total(entries.subrange(0, i + 1), distributable, issued)
            == batch_distributed_total(entries.subrange(0, i), distributable, issued)
            + spec_share_amount(distributable, entries[i].1.tokens_owned, issued),
{
    assert(entries.subrange(0, i + 1).drop_last() =~= entries.subrange(0, i));
}

pub proof fn lemma_batch_total_prefix_le(
    entries: Seq<(AccountId, InvestorRecord)>,
    i: int,
    distributable: u64,
    issued: u64,
)
    requires
        issued > 0,
        0 <= i <= entries.len(),
    ensures
        batch_distributed_total(entries.subrange(0, i), distributable, issued)
            <= batch_distributed_total(entries, distributable, issued),
    decreases entries.len() - i,
{
    if i == entries.len() {
        assert(entries.subrange(0, i) =~= entries);
    } else {
        lemma_batch_total_extend(entries, i, distributable, issued);
        lemma_share_amount_nonneg(distributable, entries[i].1.tokens_owned, issued);
        lemma_batch_total_prefix_le(entries, i + 1, distributable, issued);
    }
}

/// First failing check of `batch_distribute_rental_income`, in evaluation
/// order, or `None` when the whole batch succeeds.
pub open spec fn batch_distribute_error(
    property: Property,
    platform_state: PlatformState,
    authority: AccountId,
    total_income: u64,
    entries: Seq<(AccountId, InvestorRecord)>,
) -> Option<ErrorCode> {
    let distributable = distributable_of(total_income, platform_state.platform_fee) as u64;
    if property.lifecycle_state == LifecycleState::Sold {
        Some(ErrorCode::PropertyNotActive)
    } else if !spec_is_property_authority(authority, property, platform_state) {
        Some(ErrorCode::Unauthorized)
    } else if total_income == 0 {
        Some(ErrorCode::InvalidAmount)
    } else if property.tokens_sold == 0 {
        Some(ErrorCode::NoTokensIssued)
    } else if entries.len() > MAX_DISTRIBUTE_BATCH {
        Some(ErrorCode::TooManyInvestors)
    } else if total_income * platform_state.platform_fee > u64::MAX {
        Some(ErrorCode::MathOverflow)
    } else if !records_match_addresses(entries) {
        Some(ErrorCode::InvalidInvestorRecord)
    } else if !batch_shares_fit(entries, distributable, property.tokens_sold) {
        Some(ErrorCode::MathOverflow)
    } else if batch_distributed_total(entries, distributable, property.tokens_sold) > u64::MAX {
        Some(ErrorCode::MathOverflow)
    } else if property.total_rental_income + distributable > u64::MAX {
        Some(ErrorCode::MathOverflow)
    } else {
        None
    }
}

/// Accrue one rental payment and compute every listed holder's share of it
/// in a single call.
///
/// The whole batch is validated before anything is written: each position
/// must belong to its listed holder, and every payout must be computable
/// without overflow, or the call fails with no effect. The issued-share
/// count is read once for the whole batch, so all payouts are internally
/// consistent. Payouts use the distributable amount of this accrual alone;
/// the rounding remainder stays in the property's cumulative
/// `total_rental_income`, where later claims can still reach it.
///
/// Returns the per-holder payout events (one per entry with shares), the
/// accrual event, and the audit total of all payouts.
#[verifier::loop_isolation(false)]
pub fn batch_distribute_rental_income(
    property: &mut Property,
    platform_state: &PlatformState,
    authority: AccountId,
    total_income: u64,
    chainlink_round_id: u64,
    entries: &Vec<(AccountId, InvestorRecord)>,
    now: i64,
) -> (r: Result<(Vec<BatchRentalIncomeDistributed>, RentalIncomeDistributed, u64), ErrorCode>)
    requires
        platform_state.well_formed(),
        forall|k: int|
            0 <= k < entries@.len() ==> (#[trigger] entries@[k]).1.tokens_owned <= old(
                property,
            ).tokens_sold,
    ensures
        final(property).total_rental_income >= old(property).total_rental_income,
        match r {
            Ok(out) => {
                let distributable = distributable_of(
                    total_income,
                    platform_state.platform_fee,
                ) as u64;
                &&& batch_distribute_error(
                    *old(property),
                    *platform_state,
                    authority,
                    total_income,
                    entries@,
                ) is None
                &&& *final(property) == (Property {
                    total_rental_income: (old(property).total_rental_income
                        + distributable) as u64,
                    last_income_distribution: now,
                    ..*old(property)
                })
                &&& out.0@ == batch_distribute_events(
                    entries@,
                    old(property).property_id,
                    distributable,
                    old(property).tokens_sold,
                    chainlink_round_id,
                )
                &&& out.1 == (RentalIncomeDistributed {
                    property_id: old(property).property_id,
                    total_income,
                    platform_fee: fee_of(total_income, platform_state.platform_fee) as u64,
                    distributable_income: distributable,
                    chainlink_round_id,
                    timestamp: now,
                })
                &&& out.2 == batch_distributed_total(
                    entries@,
                    distributable,
                    old(property).tokens_sold,
                )
            },
            Err(e) => {
                &&& batch_distribute_error(
                    *old(property),
                    *platform_state,
                    authority,
                    total_income,
                    entries@,
                ) == Some(e)
                &&& *final(property) == *old(property)
            },
        },
{
    let ghost pre = *property;
    if property.lifecycle_state == LifecycleState::Sold {
        return Err(ErrorCode::PropertyNotActive);
    }
    if !is_property_authority(authority, property, platform_state) {
        return Err(ErrorCode::Unauthorized);
    }
    if total_income == 0 {
        return Err(ErrorCode::InvalidAmount);
    }
    if property.tokens_sold == 0 {
        return Err(ErrorCode::NoTokensIssued);
    }
    if entries.len() > MAX_DISTRIBUTE_BATCH {
        return Err(ErrorCode::TooManyInvestors);
    }
    let platform_fee = match total_income.checked_mul(platform_state.platform_fee) {
        Some(product) => product / BPS_DENOMINATOR,
        None => {
            return Err(ErrorCode::MathOverflow);
        },
    };
    proof {
        lemma_fee_bounds(total_income, platform_state.platform_fee);
    }
    let distributable = total_income - platform_fee;

    let mut k: usize = 0;
    while k < entries.len()
        invariant
            k <= entries@.len(),
            forall|j: int|
                0 <= j < k ==> (#[trigger] entries@[j]).1.investor == entries@[j].0,
        decreases entries@.len() - k,
    {
        let entry = entries[k];
        if entry.1.investor != entry.0 {
            return Err(ErrorCode::InvalidInvestorRecord);
        }
        k += 1;
    }
    assert(records_match_addresses(entries@));

    let issued = property.tokens_sold;
    let mut events: Vec<BatchRentalIncomeDistributed> = Vec::new();
    let mut total_distributed: u64 = 0;
    let mut i: usize = 0;
    while i < entries.len()
        invariant
            i <= entries@.len(),
            *property == pre,
            issued == pre.tokens_sold,
            issued > 0,
            forall|j: int|
                0 <= j < entries@.len() ==> (#[trigger] entries@[j]).1.tokens_owned
                    <= pre.tokens_sold,
            events@ == batch_distribute_events(
                entries@.subrange(0, i as int),
                pre.property_id,
                distributable,
                issued,
                chainlink_round_id,
            ),
            total_distributed == batch_distributed_total(
                entries@.subrange(0, i as int),
                distributable,
                issued,
            ),
            forall|j: int|
                0 <= j < i ==> share_fits(
                    distributable,
                    (#[trigger] entries@[j]).1.tokens_owned,
                    issued,
                ),
        decreases entries@.len() - i,
    {
        let entry = entries[i];
        proof {
            assert(entries@.subrange(0, i + 1 as int).drop_last() =~= entries@.subrange(
                0,
                i as int,
            ));
        }
        if entry.1.tokens_owned > 0 {
            let bps_wide: u128 = (entry.1.tokens_owned as u128) * (BPS_DENOMINATOR as u128)
                / (issued as u128);
            proof {
                lemma_ownership_bps_bounds(entry.1.tokens_owned, issued);
            }
            let ownership_bps: u64 = bps_wide as u64;
            let investor_share = match distributable.checked_mul(ownership_bps) {
                Some(p) => p / BPS_DENOMINATOR,
                None => {
                    proof {
                        assert(!share_fits(distributable, entry.1.tokens_owned, issued));
                        assert(!batch_shares_fit(entries@, distributable, issued));
                    }
                    return Err(ErrorCode::MathOverflow);
                },
            };
            total_distributed = match total_distributed.checked_add(investor_share) {
                Some(t) => t,
                None => {
                    proof {
                        lemma_batch_total_extend(entries@, i as int, distributable, issued);
                        lemma_batch_total_prefix_le(
                            entries@,
                            i + 1 as int,
                            distributable,
                            issued,
                        );
                    }
                    return Err(ErrorCode::MathOverflow);
                },
            };
            events.push(BatchRentalIncomeDistributed {
                property_id: property.property_id.clone(),
                investor: entry.0,
                amount: investor_share,
                batch_id: chainlink_round_id,
            });
        }
        proof {
            lemma_batch_total_extend(entries@, i as int, distributable, issued);
        }
        i += 1;
    }
    assert(entries@.subrange(0, entries@.len() as int) =~= entries@);

    let new_total = match property.total_rental_income.checked_add(distributable) {
        Some(t) => t,
        None => {
            return Err(ErrorCode::MathOverflow);
        },
    };
    property.total_rental_income = new_total;
    property.last_income_distribution = now;
    let completion = RentalIncomeDistributed {
        property_id: property.property_id.clone(),
        total_income,
        platform_fee,
        distributable_income: distributable,
        chainlink_round_id,
        timestamp: now,
    };
    Ok((events, completion, total_distributed))
}

/// One entry of a batch claim: a property and the claiming holder's
/// position in it, as loaded from the store.
#[derive(Clone, Debug)]
pub struct ClaimEntry {
    pub property: Property,
    pub investor_record: InvestorRecord,
}

/// What a batch claim pays for one entry. An entry pays nothing — and is
/// skipped rather than failing the batch — when the property is sold, the
/// position is empty or inconsistent with the property, the entitlement
/// cannot be computed without overflow, or nothing is outstanding.
pub open spec fn batch_entry_claimable(entry: ClaimEntry) -> int {
    let p = entry.property;
    let rec = entry.investor_record;
    if p.lifecycle_state != LifecycleState::Sold && rec.tokens_owned > 0 && rec.tokens_owned
        <= p.tokens_sold && p.total_rental_income * ownership_bps_of(
        rec.tokens_owned,
        p.tokens_sold,
    ) <= u64::MAX && entitled_of(p.total_rental_income, rec.tokens_owned, p.tokens_sold)
        >= rec.total_claimed {
        entitled_of(p.total_rental_income, rec.tokens_owned, p.tokens_sold) - rec.total_claimed
    } else {
        0
    }
}

/// The holder's position after a batch claim settles one entry.
pub open spec fn claimed_record(entry: ClaimEntry, now: i64) -> InvestorRecord {
    let amount = batch_entry_claimable(entry);
    if amount > 0 {
        InvestorRecord {
            total_claimed: (entry.investor_record.total_claimed + amount) as u64,
            last_claim_time: now,
            ..entry.investor_record
        }
    } else {
        entry.investor_record
    }
}

/// Sum of everything a batch claim pays across its entries.
pub open spec fn batch_claim_total(entries: Seq<ClaimEntry>) -> int
    decreases entries.len(),
{
    if entries.len() == 0 {
        0
    } else {
        batch_claim_total(entries.drop_last()) + batch_entry_claimable(entries.last())
    }
}

/// The events a batch claim emits: one per paying entry, in entry order,
/// each carrying its entry index.
pub open spec fn batch_claim_events(
    entries: Seq<ClaimEntry>,
    investor: AccountId,
) -> Seq<BatchRentalIncomeClaimed>
    decreases entries.len(),
{
    if entries.len() == 0 {
        Seq::<BatchRentalIncomeClaimed>::empty()
    } else {
        let rest = batch_claim_events(entries.drop_last(), investor);
        let amount = batch_entry_claimable(entries.last());
        if amount > 0 {
            rest.push(BatchRentalIncomeClaimed {
                property_id: entries.last().property.property_id,
                investor,
                amount: amount as u64,
                batch_index: (entries.len() - 1) as u8,
            })
        } else {
            rest
        }
    }
}

pub proof fn lemma_batch_claim_total_extend(entries: Seq<ClaimEntry>, i: int)
    requires
        0 <= i < entries.len(),
    ensures
        batch_claim_total(entries.subrange(0, i + 1)) == batch_claim_total(
            entries.subrange(0, i),
        ) + batch_entry_claimable(entries[i]),
{
    assert(entries.subrange(0, i + 1).drop_last() =~= entries.subrange(0, i));
}

pub proof fn lemma_batch_claim_total_prefix_le(entries: Seq<ClaimEntry>, i: int)
    requires
        0 <= i <= entries.len(),
    ensures
        batch_claim_total(entries.subrange(0, i)) <= batch_claim_total(entries),
    decreases entries.len() - i,
{
    if i == entries.len() {
        assert(entries.subrange(0, i) =~= entries);
    } else {
        lemma_batch_claim_total_extend(entries, i);
        lemma_batch_claim_total_prefix_le(entries, i + 1);
    }
}

/// First failing batch-level check of `batch_claim_rental_income`, or
/// `None` when the batch goes through; entry-level problems never fail the
/// batch, they only skip the entry.
pub open spec fn batch_claim_error(entries: Seq<ClaimEntry>) -> Option<ErrorCode> {
    if entries.len() > MAX_CLAIM_BATCH {
        Some(ErrorCode::TooManyProperties)
    } else if batch_claim_total(entries) > u64::MAX {
        Some(ErrorCode::MathOverflow)
    } else {
        None
    }
}

/// Claim outstanding rental income across several properties in one call.
///
/// Unlike a batch transfer this is not all-or-nothing: an entry that
/// cannot pay — sold property, empty or mismatched position, overflow, or
/// nothing outstanding — is skipped silently and the rest still settle.
/// Nothing is mutated in place; the call returns the updated position for
/// every entry (unchanged for skipped ones), the per-entry payout events,
/// and a completion event with the grand total, for the store to write
/// back atomically.
#[verifier::loop_isolation(false)]
pub fn batch_claim_rental_income(
    investor: AccountId,
    entries: &Vec<ClaimEntry>,
    now: i64,
) -> (r: Result<
    (Vec<InvestorRecord>, Vec<BatchRentalIncomeClaimed>, BatchClaimCompleted),
    ErrorCode,
>)
    ensures
        match r {
            Ok(out) => {
                &&& batch_claim_error(entries@) is None
                &&& out.0@.len() == entries@.len()
                &&& forall|k: int|
                    0 <= k < entries@.len() ==> out.0@[k] == claimed_record(
                        #[trigger] entries@[k],
                        now,
                    )
                &&& forall|k: int|
                    0 <= k < entries@.len() ==> out.0@[k].total_claimed >= (
                    #[trigger] entries@[k]).investor_record.total_claimed
                &&& out.1@ == batch_claim_events(entries@, investor)
                &&& out.2 == (BatchClaimCompleted {
                    investor,
                    total_claimed: batch_claim_total(entries@) as u64,
                    properties_count: entries@.len() as u8,
                })
            },
            Err(e) => batch_claim_error(entries@) == Some(e),
        },
{
    if entries.len() > MAX_CLAIM_BATCH {
        return Err(ErrorCode::TooManyProperties);
    }
    let mut updated: Vec<InvestorRecord> = Vec::new();
    let mut events: Vec<BatchRentalIncomeClaimed> = Vec::new();
    let mut total_claimed: u64 = 0;
    let mut i: usize = 0;
    while i < entries.len()
        invariant
            i <= entries@.len(),
            updated@.len() == i,
            forall|k: int|
                0 <= k < i ==> updated@[k] == claimed_record(#[trigger] entries@[k], now),
            events@ == batch_claim_events(entries@.subrange(0, i as int), investor),
            total_claimed == batch_claim_total(entries@.subrange(0, i as int)),
        decreases entries@.len() - i,
    {
        let entry = &entries[i];
        proof {
            assert(entries@.subrange(0, i + 1 as int).drop_last() =~= entries@.subrange(
                0,
                i as int,
            ));
        }
        let mut amount: u64 = 0;
        if entry.property.lifecycle_state != LifecycleState::Sold
            && entry.investor_record.tokens_owned > 0 && entry.investor_record.tokens_owned
            <= entry.property.tokens_sold {
            let bps_wide: u128 = (entry.investor_record.tokens_owned as u128)
                * (BPS_DENOMINATOR as u128) / (entry.property.tokens_sold as u128);
            proof {
                lemma_ownership_bps_bounds(
                    entry.investor_record.tokens_owned,
                    entry.property.tokens_sold,
                );
            }
            let ownership_bps: u64 = bps_wide as u64;
            match entry.property.total_rental_income.checked_mul(ownership_bps) {
                Some(product) => {
                    let entitled = product / BPS_DENOMINATOR;
                    if entitled >= entry.investor_record.total_claimed {
                        amount = entitled - entry.investor_record.total_claimed;
                    }
                },
                None => {},
            }
        }
        assert(amount == batch_entry_claimable(entries@[i as int]));
        if amount > 0 {
            updated.push(
                InvestorRecord {
                    total_claimed: entry.investor_record.total_claimed + amount,
                    last_claim_time: now,
                    ..entry.investor_record
                },
            );
            events.push(BatchRentalIncomeClaimed {
                property_id: entry.property.property_id.clone(),
                investor,
                amount,
                batch_index: i as u8,
            });
            total_claimed = match total_claimed.checked_add(amount) {
                Some(t) => t,
                None => {
                    proof {
                        lemma_batch_claim_total_extend(entries@, i as int);
                        lemma_batch_claim_total_prefix_le(entries@, i + 1 as int);
                    }
                    return Err(ErrorCode::MathOverflow);
                },
            };
        } else {
            updated.push(entry.investor_record);
        }
        proof {
            lemma_batch_claim_total_extend(entries@, i as int);
        }
        i += 1;
    }
    assert(entries@.subrange(0, entries@.len() as int) =~= entries@);
    let completion = BatchClaimCompleted {
        investor,
        total_claimed,
        properties_count: entries.len() as u8,
    };
    Ok((updated, events, completion))
}

} // verus!
