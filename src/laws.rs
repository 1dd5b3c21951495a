use vstd::prelude::*;

use crate::error::ErrorCode;
use crate::instructions::fund_to_campaign::{fund_error, funded, FundToCampaign};
use crate::instructions::initialize_campaign::{initial_campaign, initialize_campaign_error, InitializeCampaign, InitializeCampaignArgs};
use crate::instructions::refund_to_donor::{refund_error, refunded, RefundToDonor};
use crate::instructions::set_campaign_unlocked::{unlock_error, unlocked, SetCampaignUnlocked};
use crate::instructions::withdraw_from_campaign::{withdraw_error, withdrawn, WithdrawFromCampaign};
use crate::state::{Campaign, Donor};

verus! {

/// The sum of the amounts of a campaign's ledger entries.
pub open spec fn total_of(entries: Seq<Donor>) -> int
    decreases entries.len(),
{
    if entries.len() == 0 {
        0
    } else {
        total_of(entries.drop_last()) + entries.last().amount
    }
}

/// The campaign's raised amount is the sum of its ledger entries.
pub open spec fn balanced(campaign: Campaign, entries: Seq<Donor>) -> bool {
    campaign.raised_amount == total_of(entries)
}

proof fn lemma_total_update(entries: Seq<Donor>, i: int, d: Donor)
    requires
        0 <= i < entries.len(),
    ensures
        total_of(entries.update(i, d)) == total_of(entries) - entries[i].amount + d.amount,
    decreases entries.len(),
{
    let u = entries.update(i, d);
    if i == entries.len() - 1 {
        assert(u.drop_last() =~= entries.drop_last());
    } else {
        lemma_total_update(entries.drop_last(), i, d);
        assert(u.drop_last() =~= entries.drop_last().update(i, d));
    }
}

/// A new campaign holds nothing and has no ledger entries.
pub proof fn lemma_initialized_campaign_balanced(pre: InitializeCampaign, args: InitializeCampaignArgs, now: i64)
    requires
        initialize_campaign_error(pre, args, now) is None,
    ensures
        balanced(initial_campaign(pre, args, now), Seq::empty()),
{
}

/// A ledger entry created with nothing in it keeps a campaign balanced.
pub proof fn lemma_new_entry_balanced(campaign: Campaign, entries: Seq<Donor>, entry: Donor)
    requires
        balanced(campaign, entries),
        entry.amount == 0,
    ensures
        balanced(campaign, entries.push(entry)),
{
    assert(entries.push(entry).drop_last() =~= entries);
}

/// An accepted contribution adds the same amount to the donor's entry and to
/// the campaign's total, so the total stays the sum of the entries.
pub proof fn lemma_fund_balanced(pre: FundToCampaign, amount: u64, now: i64, entries: Seq<Donor>, i: int)
    requires
        balanced(pre.campaign, entries),
        0 <= i < entries.len(),
        entries[i] == pre.donor_info,
        fund_error(pre, amount, now) is None,
    ensures
        balanced(funded(pre, amount).campaign, entries.update(i, funded(pre, amount).donor_info)),
{
    lemma_total_update(entries, i, funded(pre, amount).donor_info);
}

/// An accepted refund zeroes the donor's entry and takes the same amount off
/// the campaign's total, so the total stays the sum of the entries.
pub proof fn lemma_refund_balanced(pre: RefundToDonor, entries: Seq<Donor>, i: int)
    requires
        balanced(pre.campaign, entries),
        0 <= i < entries.len(),
        entries[i] == pre.donor_info,
        refund_error(pre) is None,
    ensures
        balanced(refunded(pre).campaign, entries.update(i, refunded(pre).donor_info)),
{
    lemma_total_update(entries, i, refunded(pre).donor_info);
}

/// Unlocking leaves the total and the entries as they are.
pub proof fn lemma_unlock_balanced(pre: SetCampaignUnlocked, entries: Seq<Donor>)
    requires
        balanced(pre.campaign, entries),
        unlock_error(pre) is None,
    ensures
        balanced(unlocked(pre).campaign, entries),
{
}

/// After an accepted withdrawal, any later withdrawal on the same records is
/// refused as already withdrawn.
pub proof fn lemma_withdraw_only_once(pre: WithdrawFromCampaign, now: i64, later: i64)
    requires
        withdraw_error(pre, now) is None,
    ensures
        withdraw_error(withdrawn(pre), later) == Some(ErrorCode::CampaignFundAlreadyWithdrawn),
{
}

/// A withdrawn campaign stays withdrawn through every other handler.
pub proof fn lemma_withdrawn_stays_withdrawn(
    fund: FundToCampaign,
    amount: u64,
    refund: RefundToDonor,
    unlock: SetCampaignUnlocked,
)
    requires
        fund.campaign.is_withdrawn,
        refund.campaign.is_withdrawn,
        unlock.campaign.is_withdrawn,
    ensures
        funded(fund, amount).campaign.is_withdrawn,
        refunded(refund).campaign.is_withdrawn,
        unlocked(unlock).campaign.is_withdrawn,
{
}

/// Once a campaign is withdrawn, its creator's withdrawal with its own escrow
/// authority is refused as already withdrawn, at any time.
pub proof fn lemma_withdrawn_campaign_refused(pre: WithdrawFromCampaign, now: i64)
    requires
        pre.campaign.is_withdrawn,
        pre.creator@ == pre.campaign.creator@,
        pre.campaign.escrow_authority_valid(pre.campaign_authority, pre.program_id),
    ensures
        withdraw_error(pre, now) == Some(ErrorCode::CampaignFundAlreadyWithdrawn),
{
}

/// A contribution of exactly the minimum deposit is refused as too low.
pub proof fn lemma_minimum_deposit_refused(pre: FundToCampaign, now: i64)
    ensures
        fund_error(pre, pre.campaign.minimum_deposit_amount, now) == Some(ErrorCode::FundAmountTooLow),
{
}

/// Two accepted contributions by one donor to one campaign land in the same
/// ledger entry, which then holds both amounts.
pub proof fn lemma_fund_twice_one_entry(pre: FundToCampaign, first: u64, second: u64, now1: i64, now2: i64)
    requires
        fund_error(pre, first, now1) is None,
        fund_error(funded(pre, first), second, now2) is None,
    ensures
        ({
            let post = funded(funded(pre, first), second);
            &&& post.donor_info.donor == pre.donor
            &&& post.donor_info.campaign == pre.campaign_key
            &&& post.donor_info.amount == pre.donor_info.amount + first + second
            &&& post.campaign.raised_amount == pre.campaign.raised_amount + first + second
        }),
{
}

/// Unlocking a campaign that is already unlocked is refused as in the wrong
/// lock state.
pub proof fn lemma_unlock_twice_refused(pre: SetCampaignUnlocked)
    requires
        pre.creator@ == pre.campaign.creator@,
        !pre.campaign.is_locked,
    ensures
        unlock_error(pre) == Some(ErrorCode::CampaignIsOnProgress),
{
}

/// A refund from a campaign that is still locked is refused as in the wrong
/// lock state.
pub proof fn lemma_locked_refund_refused(pre: RefundToDonor)
    requires
        pre.campaign.is_locked,
        pre.campaign.escrow_authority_valid(pre.campaign_authority, pre.program_id),
    ensures
        refund_error(pre) == Some(ErrorCode::CampaignIsOnProgress),
{
}

/// After an accepted unlock, a refund of an entry that the total covers is
/// accepted: the entry goes to zero and the total drops by its amount.
pub proof fn lemma_refund_after_unlock(unlock: SetCampaignUnlocked, pre: RefundToDonor)
    requires
        unlock_error(unlock) is None,
        pre.campaign == unlocked(unlock).campaign,
        pre.campaign.escrow_authority_valid(pre.campaign_authority, pre.program_id),
        pre.donor_info.amount <= pre.campaign.raised_amount,
    ensures
        refund_error(pre) is None,
        refunded(pre).donor_info.amount == 0,
        refunded(pre).campaign.raised_amount == pre.campaign.raised_amount - pre.donor_info.amount,
{
}

} // verus!
