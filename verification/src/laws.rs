//! The ledger's cross-operation laws, proved once and for all over the
//! models the operations' contracts are written in: conservation of
//! shares, impossibility of double payment, write-once voting, and the
//! terminal lifecycle of a sold property. Monotonicity of the cumulative
//! counters and tally consistency are stated directly in the operations'
//! own contracts.

use vstd::prelude::*;
use crate::bps::{entitled_of, lemma_entitled_monotone};
use crate::governance::{create_proposal_error, vote_error};
use crate::income::{
    batch_distribute_error, batch_entry_claimable, claim_error, distribute_error, ClaimEntry,
};
use crate::market::list_error;
use crate::ownership::{batch_transfer_error, purchase_error, transfer_error};
use crate::sums::{
    lemma_sum_u64_element, lemma_sum_u64_pointwise_add, lemma_sum_u64_two_elements,
    lemma_sum_u64_update, sum_u64,
};
use crate::types::{
    AccountId, ErrorCode, InvestorRecord, KycRecord, LifecycleState, PlatformState, Property,
    Proposal, TokenTransfer, VoteRecord,
};

verus! {

/// Conservation under issuance: when the balances of a property's
/// positions sum to its issued count and `amount` new shares within the
/// supply cap are issued to position `i`, the updated balances sum to the
/// updated issued count, still within the cap.
pub proof fn lemma_conservation_issue(
    balances: Seq<u64>,
    i: int,
    amount: u64,
    issued: u64,
    total_supply: u64,
)
    requires
        0 <= i < balances.len(),
        sum_u64(balances) == issued,
        issued + amount <= total_supply,
    ensures
        balances[i] + amount <= total_supply,
        sum_u64(balances.update(i, (balances[i] + amount) as u64)) == issued + amount,
        issued + amount <= total_supply,
{
    lemma_sum_u64_element(balances, i);
    lemma_sum_u64_update(balances, i, (balances[i] + amount) as u64);
}

/// Conservation under transfer: moving `amount` shares from position `i`
/// to a different position `j` changes neither the sum of balances nor
/// the issued count it equals.
pub proof fn lemma_conservation_transfer(
    balances: Seq<u64>,
    i: int,
    j: int,
    amount: u64,
    issued: u64,
)
    requires
        0 <= i < balances.len(),
        0 <= j < balances.len(),
        i != j,
        amount <= balances[i],
        sum_u64(balances) == issued,
    ensures
        balances[j] + amount <= issued,
        sum_u64(
            balances.update(i, (balances[i] - amount) as u64).update(
                j,
                (balances[j] + amount) as u64,
            ),
        ) == issued,
{
    lemma_sum_u64_two_elements(balances, i, j);
    let debited = balances.update(i, (balances[i] - amount) as u64);
    lemma_sum_u64_update(balances, i, (balances[i] - amount) as u64);
    lemma_sum_u64_update(debited, j, (balances[j] + amount) as u64);
}

/// Conservation under batch transfer: debiting the sender by the batch
/// total while crediting every recipient its own entry leaves the overall
/// holding — sender plus recipients — exactly as it was.
pub proof fn lemma_conservation_batch_transfer(
    sender_balance: u64,
    recipients: Seq<u64>,
    credited: Seq<u64>,
    amounts: Seq<u64>,
    total: u64,
)
    requires
        credited.len() == recipients.len(),
        amounts.len() == recipients.len(),
        forall|k: int|
            0 <= k < recipients.len() ==> credited[k] == recipients[k] + #[trigger] amounts[k],
        total == sum_u64(amounts),
        total <= sender_balance,
    ensures
        (sender_balance - total) + sum_u64(credited) == sender_balance + sum_u64(recipients),
{
    lemma_sum_u64_pointwise_add(recipients, credited, amounts);
}

/// No double payment, first half: over any run of claims, the payouts sum
/// to exactly the growth of the holder's cumulative `total_claimed` — no
/// payout is ever unaccounted for. `totals` is the trajectory of
/// `total_claimed`, with entry `k + 1` produced from entry `k` by the
/// claim that paid `outputs[k]`, as `claim_rental_income` ensures.
pub proof fn lemma_claims_accumulate(outputs: Seq<u64>, totals: Seq<u64>)
    requires
        totals.len() == outputs.len() + 1,
        forall|k: int|
            0 <= k < outputs.len() ==> totals[k + 1] == totals[k] + #[trigger] outputs[k],
    ensures
        totals.last() == totals[0] + sum_u64(outputs),
    decreases outputs.len(),
{
    if outputs.len() > 0 {
        lemma_claims_accumulate(outputs.drop_last(), totals.drop_last());
    }
}

/// No double payment, second half: a successful claim leaves
/// `total_claimed` equal to the entitlement at claim time, and since
/// accrued income only grows, that figure never exceeds the entitlement
/// computed from any later accrued income with the same holding — a
/// holder can never have been paid more than their share.
pub proof fn lemma_claims_never_exceed_entitlement(
    accrued_at_claim: u64,
    accrued_later: u64,
    owned: u64,
    issued: u64,
    total_claimed: u64,
)
    requires
        issued > 0,
        accrued_at_claim <= accrued_later,
        total_claimed == entitled_of(accrued_at_claim, owned, issued),
    ensures
        total_claimed <= entitled_of(accrued_later, owned, issued),
{
    lemma_entitled_monotone(accrued_at_claim, accrued_later, owned, issued);
}

/// Vote integrity: the (proposal, voter) record is write-once. Once its
/// `has_voted` flag is set, any further vote through it is rejected with
/// `AlreadyVoted`, whatever side it takes; so each voter's power enters
/// the tallies at most once.
pub proof fn lemma_vote_write_once(
    property: Property,
    proposal: Proposal,
    investor_record: InvestorRecord,
    vote_record: VoteRecord,
    vote_for: bool,
    now: i64,
)
    requires
        property.lifecycle_state != LifecycleState::Sold,
        now <= proposal.voting_ends_at,
        investor_record.tokens_owned > 0,
        vote_record.has_voted,
    ensures
        vote_error(property, proposal, investor_record, vote_record, vote_for, now) == Some(
            ErrorCode::AlreadyVoted,
        ),
{
}

/// Terminal lifecycle: on a sold property every ledger-mutating operation
/// — issuance, transfer and batch transfer, income accrual and batch
/// accrual, claim and batch-claim entry, market listing, proposal
/// creation and voting — is rejected with the lifecycle state-conflict
/// error, whatever its other arguments; and by those operations'
/// contracts a rejected call leaves every record unchanged.
pub proof fn lemma_sold_is_terminal(
    property: Property,
    platform_state: PlatformState,
    kyc_record: KycRecord,
    investor_record: InvestorRecord,
    from_record: InvestorRecord,
    vote_record: VoteRecord,
    proposal: Proposal,
    claim_entry: ClaimEntry,
    transfers: Seq<TokenTransfer>,
    to_records_len: int,
    entries: Seq<(AccountId, InvestorRecord)>,
    caller: AccountId,
    amount: u64,
    price_per_token: u64,
    income: u64,
    title: String,
    description: String,
    voting_period: i64,
    vote_for: bool,
    now: i64,
)
    requires
        property.lifecycle_state == LifecycleState::Sold,
        claim_entry.property == property,
    ensures
        purchase_error(property, kyc_record, investor_record, amount) == Some(
            ErrorCode::PropertyNotActive,
        ),
        transfer_error(property, from_record, amount) == Some(ErrorCode::PropertyNotActive),
        batch_transfer_error(property, from_record, transfers, to_records_len) == Some(
            ErrorCode::PropertyNotActive,
        ),
        distribute_error(property, platform_state, caller, income) == Some(
            ErrorCode::PropertyNotActive,
        ),
        batch_distribute_error(property, platform_state, caller, income, entries) == Some(
            ErrorCode::PropertyNotActive,
        ),
        claim_error(property, investor_record) == Some(ErrorCode::PropertyNotActive),
        batch_entry_claimable(claim_entry) == 0,
        list_error(property, amount, price_per_token) == Some(ErrorCode::PropertyNotActive),
        create_proposal_error(
            property,
            investor_record,
            platform_state,
            title,
            description,
            voting_period,
            now,
        ) == Some(ErrorCode::PropertyNotActive),
        vote_error(property, proposal, investor_record, vote_record, vote_for, now) == Some(
            ErrorCode::PropertyNotActive,
        ),
{
}

} // verus!

