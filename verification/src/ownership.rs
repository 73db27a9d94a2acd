//! Ownership ledger: primary issuance of shares against a property's
//! supply cap, and movement of shares between holders, singly or in a
//! batch. Shares are conserved: every operation changes the issued count
//! and the holders' balances by exactly matching amounts.

use vstd::prelude::*;
use crate::events::{BatchTokensTransferred, BatchTransferCompleted, TokensPurchased, TokensTransferred};
use crate::sums::{
    lemma_sum_u64_element, lemma_sum_u64_extend, lemma_sum_u64_pointwise_add,
    lemma_sum_u64_prefix_le, sum_u64,
};
use crate::types::{
    AccountId, ErrorCode, InvestorRecord, KycRecord, LifecycleState, Property, TokenTransfer,
    MAX_TRANSFER_BATCH,
};

verus! {

/// First failing check of `purchase_tokens`, in evaluation order, or
/// `None` when the purchase succeeds.
pub open spec fn purchase_error(
    property: Property,
    kyc_record: KycRecord,
    record: InvestorRecord,
    amount: u64,
) -> Option<ErrorCode> {
    if property.lifecycle_state != LifecycleState::Active {
        Some(ErrorCode::PropertyNotActive)
    } else if amount == 0 {
        Some(ErrorCode::InvalidAmount)
    } else if property.tokens_sold + amount > property.total_tokens {
        Some(ErrorCode::InsufficientTokens)
    } else if property.kyc_required && !kyc_record.is_verified {
        Some(ErrorCode::KycNotVerified)
    } else if amount * property.token_price > u64::MAX {
        Some(ErrorCode::MathOverflow)
    } else if record.total_invested + amount * property.token_price > u64::MAX {
        Some(ErrorCode::MathOverflow)
    } else {
        None
    }
}

/// Issue `amount` new shares of an active property to `buyer` at the
/// property's share price.
///
/// Issuance respects the fixed supply cap, passes the KYC gate when the
/// property demands it, and moves the issued count and the buyer's
/// position up by the same amount, so conservation of shares is preserved.
/// The buyer's cumulative cost basis grows by the checked total cost.
pub fn purchase_tokens(
    property: &mut Property,
    property_key: AccountId,
    investor_record: &mut InvestorRecord,
    kyc_record: &KycRecord,
    buyer: AccountId,
    amount: u64,
) -> (r: Result<TokensPurchased, ErrorCode>)
    requires
        old(property).well_formed(),
        old(investor_record).tokens_owned <= old(property).tokens_sold,
        kyc_record.user == buyer,
    ensures
        final(property).tokens_sold >= old(property).tokens_sold,
        final(investor_record).total_invested >= old(investor_record).total_invested,
        match r {
            Ok(event) => {
                &&& purchase_error(*old(property), *kyc_record, *old(investor_record), amount)
                    is None
                &&& *final(property) == (Property {
                    tokens_sold: (old(property).tokens_sold + amount) as u64,
                    ..*old(property)
                })
                &&& final(property).well_formed()
                &&& *final(investor_record) == (InvestorRecord {
                    investor: buyer,
                    property: property_key,
                    tokens_owned: (old(investor_record).tokens_owned + amount) as u64,
                    total_invested: (old(investor_record).total_invested + amount * old(
                        property,
                    ).token_price) as u64,
                    ..*old(investor_record)
                })
                &&& event == (TokensPurchased {
                    property_id: old(property).property_id,
                    buyer,
                    amount,
                    total_cost: (amount * old(property).token_price) as u64,
                    tokens_remaining: (old(property).total_tokens - old(property).tokens_sold
                        - amount) as u64,
                })
            },
            Err(e) => {
                &&& purchase_error(*old(property), *kyc_record, *old(investor_record), amount)
                    == Some(e)
                &&& *final(property) == *old(property)
                &&& *final(investor_record) == *old(investor_record)
            },
        },
{
    if property.lifecycle_state != LifecycleState::Active {
        return Err(ErrorCode::PropertyNotActive);
    }
    if amount == 0 {
        return Err(ErrorCode::InvalidAmount);
    }
    if amount > property.total_tokens - property.tokens_sold {
        return Err(ErrorCode::InsufficientTokens);
    }
    if property.kyc_required && !kyc_record.is_verified {
        return Err(ErrorCode::KycNotVerified);
    }
    let total_cost = match amount.checked_mul(property.token_price) {
        Some(cost) => cost,
        None => {
            return Err(ErrorCode::MathOverflow);
        },
    };
    let new_invested = match investor_record.total_invested.checked_add(total_cost) {
        Some(t) => t,
        None => {
            return Err(ErrorCode::MathOverflow);
        },
    };
    property.tokens_sold = property.tokens_sold + amount;
    investor_record.investor = buyer;
    investor_record.property = property_key;
    investor_record.tokens_owned = investor_record.tokens_owned + amount;
    investor_record.total_invested = new_invested;
    Ok(TokensPurchased {
        property_id: property.property_id.clone(),
        buyer,
        amount,
        total_cost,
        tokens_remaining: property.total_tokens - property.tokens_sold,
    })
}

/// First failing check of `transfer_tokens`, in evaluation order, or
/// `None` when the transfer succeeds.
pub open spec fn transfer_error(
    property: Property,
    from_record: InvestorRecord,
    amount: u64,
) -> Option<ErrorCode> {
    if property.lifecycle_state == LifecycleState::Sold {
        Some(ErrorCode::PropertyNotActive)
    } else if amount == 0 {
        Some(ErrorCode::InvalidAmount)
    } else if from_record.tokens_owned < amount {
        Some(ErrorCode::InsufficientTokens)
    } else {
        None
    }
}

/// Move `amount` shares of one property between two holders' positions,
/// atomically: the debit and the credit are equal, so the sum of the two
/// balances — and with it conservation across the whole ledger — is
/// unchanged. Cost basis and claimed income stay with their positions.
pub fn transfer_tokens(
    property: &Property,
    from_record: &mut InvestorRecord,
    to_record: &mut InvestorRecord,
    from: AccountId,
    to: AccountId,
    amount: u64,
) -> (r: Result<TokensTransferred, ErrorCode>)
    requires
        old(from_record).tokens_owned + old(to_record).tokens_owned <= property.tokens_sold,
    ensures
        match r {
            Ok(event) => {
                &&& transfer_error(*property, *old(from_record), amount) is None
                &&& *final(from_record) == (InvestorRecord {
                    tokens_owned: (old(from_record).tokens_owned - amount) as u64,
                    ..*old(from_record)
                })
                &&& *final(to_record) == (InvestorRecord {
                    tokens_owned: (old(to_record).tokens_owned + amount) as u64,
                    ..*old(to_record)
                })
                &&& final(from_record).tokens_owned + final(to_record).tokens_owned == old(
                    from_record,
                ).tokens_owned + old(to_record).tokens_owned
                &&& event == (TokensTransferred {
                    property_id: property.property_id,
                    from,
                    to,
                    amount,
                })
            },
            Err(e) => {
                &&& transfer_error(*property, *old(from_record), amount) == Some(e)
                &&& *final(from_record) == *old(from_record)
                &&& *final(to_record) == *old(to_record)
            },
        },
{
    if property.lifecycle_state == LifecycleState::Sold {
        return Err(ErrorCode::PropertyNotActive);
    }
    if amount == 0 {
        return Err(ErrorCode::InvalidAmount);
    }
    if from_record.tokens_owned < amount {
        return Err(ErrorCode::InsufficientTokens);
    }
    from_record.tokens_owned = from_record.tokens_owned - amount;
    to_record.tokens_owned = to_record.tokens_owned + amount;
    Ok(TokensTransferred { property_id: property.property_id.clone(), from, to, amount })
}

/// Total number of shares a batch of transfer entries moves.
pub open spec fn total_transfer_amount(transfers: Seq<TokenTransfer>) -> int {
    sum_u64(transfers.map_values(|t: TokenTransfer| t.amount))
}

/// Total number of shares held across a set of positions.
pub open spec fn total_tokens_owned(records: Seq<InvestorRecord>) -> int {
    sum_u64(records.map_values(|rec: InvestorRecord| rec.tokens_owned))
}

/// Every entry of the batch moves at least one share.
pub open spec fn all_amounts_positive(transfers: Seq<TokenTransfer>) -> bool {
    forall|k: int| 0 <= k < transfers.len() ==> (#[trigger] transfers[k]).amount > 0
}

/// First failing check of `batch_transfer_tokens`, in evaluation order, or
/// `None` when the whole batch applies.
pub open spec fn batch_transfer_error(
    property: Property,
    from_record: InvestorRecord,
    transfers: Seq<TokenTransfer>,
    to_records_len: int,
) -> Option<ErrorCode> {
    if property.lifecycle_state == LifecycleState::Sold {
        Some(ErrorCode::PropertyNotActive)
    } else if transfers.len() > MAX_TRANSFER_BATCH {
        Some(ErrorCode::TooManyTransfers)
    } else if to_records_len != transfers.len() {
        Some(ErrorCode::InvalidAccountsLength)
    } else if !all_amounts_positive(transfers) {
        Some(ErrorCode::InvalidAmount)
    } else if total_transfer_amount(transfers) > u64::MAX {
        Some(ErrorCode::MathOverflow)
    } else if total_transfer_amount(transfers) > from_record.tokens_owned {
        Some(ErrorCode::InsufficientTokens)
    } else {
        None
    }
}

/// Move shares from one holder to several recipients in one atomic batch.
///
/// The whole batch is validated before anything moves: every entry must
/// carry a positive amount and the batch total may not exceed the sender's
/// balance, otherwise the call fails with no effect. On success the sender
/// is debited once by the batch total and every recipient position is
/// credited its entry's amount, so shares are conserved. Nothing is
/// mutated but the sender; the credited recipient positions are returned
/// for the store to write back atomically.
#[verifier::loop_isolation(false)]
pub fn batch_transfer_tokens(
    property: &Property,
    from_record: &mut InvestorRecord,
    from: AccountId,
    transfers: &Vec<TokenTransfer>,
    to_records: &Vec<InvestorRecord>,
) -> (r: Result<(Vec<InvestorRecord>, Vec<BatchTokensTransferred>, BatchTransferCompleted), ErrorCode>)
    requires
        old(from_record).tokens_owned + total_tokens_owned(to_records@)
            <= property.tokens_sold,
        forall|k: int|
            0 <= k < to_records@.len() ==> (#[trigger] to_records@[k]).investor
                == transfers@[k].recipient,
    ensures
        match r {
            Ok(out) => {
                &&& batch_transfer_error(
                    *property,
                    *old(from_record),
                    transfers@,
                    to_records@.len() as int,
                ) is None
                &&& *final(from_record) == (InvestorRecord {
                    tokens_owned: (old(from_record).tokens_owned - total_transfer_amount(
                        transfers@,
                    )) as u64,
                    ..*old(from_record)
                })
                &&& out.0@.len() == transfers@.len()
                &&& forall|k: int|
                    0 <= k < transfers@.len() ==> out.0@[k] == (InvestorRecord {
                        tokens_owned: (to_records@[k].tokens_owned
                            + (#[trigger] transfers@[k]).amount) as u64,
                        ..to_records@[k]
                    })
                &&& final(from_record).tokens_owned + total_tokens_owned(out.0@) == old(
                    from_record,
                ).tokens_owned + total_tokens_owned(to_records@)
                &&& out.1@.len() == transfers@.len()
                &&& forall|k: int|
                    0 <= k < transfers@.len() ==> out.1@[k] == (BatchTokensTransferred {
                        property_id: property.property_id,
                        from,
                        to: (#[trigger] transfers@[k]).recipient,
                        amount: transfers@[k].amount,
                        batch_index: k as u8,
                    })
                &&& out.2 == (BatchTransferCompleted {
                    property_id: property.property_id,
                    from,
                    total_amount: total_transfer_amount(transfers@) as u64,
                    transfer_count: transfers@.len() as u8,
                })
            },
            Err(e) => {
                &&& batch_transfer_error(
                    *property,
                    *old(from_record),
                    transfers@,
                    to_records@.len() as int,
                ) == Some(e)
                &&& *final(from_record) == *old(from_record)
            },
        },
{
    if property.lifecycle_state == LifecycleState::Sold {
        return Err(ErrorCode::PropertyNotActive);
    }
    if transfers.len() > MAX_TRANSFER_BATCH {
        return Err(ErrorCode::TooManyTransfers);
    }
    if to_records.len() != transfers.len() {
        return Err(ErrorCode::InvalidAccountsLength);
    }
    let ghost amounts = transfers@.map_values(|t: TokenTransfer| t.amount);
    let ghost owned = to_records@.map_values(|rec: InvestorRecord| rec.tokens_owned);

    let mut k: usize = 0;
    while k < transfers.len()
        invariant
            k <= transfers@.len(),
            forall|j: int| 0 <= j < k ==> (#[trigger] transfers@[j]).amount > 0,
        decreases transfers@.len() - k,
    {
        if transfers[k].amount == 0 {
            return Err(ErrorCode::InvalidAmount);
        }
        k += 1;
    }
    assert(all_amounts_positive(transfers@));

    let mut total_amount: u64 = 0;
    let mut s: usize = 0;
    while s < transfers.len()
        invariant
            s <= transfers@.len(),
            total_amount == sum_u64(amounts.subrange(0, s as int)),
        decreases transfers@.len() - s,
    {
        proof {
            lemma_sum_u64_extend(amounts, s as int);
        }
        total_amount = match total_amount.checked_add(transfers[s].amount) {
            Some(t) => t,
            None => {
                proof {
                    lemma_sum_u64_prefix_le(amounts, s + 1 as int);
                }
                return Err(ErrorCode::MathOverflow);
            },
        };
        s += 1;
    }
    assert(amounts.subrange(0, amounts.len() as int) =~= amounts);

    if total_amount > from_record.tokens_owned {
        return Err(ErrorCode::InsufficientTokens);
    }
    proof {
        assert forall|j: int|
            0 <= j < transfers@.len() implies to_records@[j].tokens_owned + transfers@[j].amount
            <= u64::MAX by {
            lemma_sum_u64_element(owned, j);
            lemma_sum_u64_element(amounts, j);
        }
    }

    let mut updated: Vec<InvestorRecord> = Vec::new();
    let mut events: Vec<BatchTokensTransferred> = Vec::new();
    let mut i: usize = 0;
    while i < transfers.len()
        invariant
            i <= transfers@.len(),
            updated@.len() == i,
            events@.len() == i,
            forall|j: int|
                0 <= j < i ==> updated@[j] == (InvestorRecord {
                    tokens_owned: (to_records@[j].tokens_owned
                        + (#[trigger] transfers@[j]).amount) as u64,
                    ..to_records@[j]
                }),
            forall|j: int|
                0 <= j < i ==> events@[j] == (BatchTokensTransferred {
                    property_id: property.property_id,
                    from,
                    to: (#[trigger] transfers@[j]).recipient,
                    amount: transfers@[j].amount,
                    batch_index: j as u8,
                }),
        decreases transfers@.len() - i,
    {
        let entry = transfers[i];
        let to_record = to_records[i];
        updated.push(
            InvestorRecord { tokens_owned: to_record.tokens_owned + entry.amount, ..to_record },
        );
        events.push(BatchTokensTransferred {
            property_id: property.property_id.clone(),
            from,
            to: entry.recipient,
            amount: entry.amount,
            batch_index: i as u8,
        });
        i += 1;
    }

    from_record.tokens_owned = from_record.tokens_owned - total_amount;
    proof {
        lemma_sum_u64_pointwise_add(
            owned,
            updated@.map_values(|rec: InvestorRecord| rec.tokens_owned),
            amounts,
        );
    }
    let completion = BatchTransferCompleted {
        property_id: property.property_id.clone(),
        from,
        total_amount,
        transfer_count: transfers.len() as u8,
    };
    Ok((updated, events, completion))
}

} // verus!
