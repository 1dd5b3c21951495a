use vstd::prelude::*;

use crate::error::ErrorCode;
use crate::state::{Campaign, Donor, Pubkey, TransferRequest, TransferSigner};

verus! {

/// The records and identities that a contribution works on.
#[derive(Clone, Copy, Debug, PartialEq, Eq)]
pub struct FundToCampaign {
    /// The contributing identity, which signs the inbound transfer.
    pub donor: Pubkey,
    /// Address of the campaign record, which holds the escrowed funds.
    pub campaign_key: Pubkey,
    pub campaign: Campaign,
    /// This donor's entry for this campaign; all zero when it was just created.
    pub donor_info: Donor,
    pub donor_info_bump: u8,
}

#[derive(Clone, Copy, Debug, PartialEq, Eq)]
pub struct FundToCampaignArgs {
    pub fund_amount: u64,
}

/// Why a contribution of `amount` at time `now` is refused, if it is.
pub open spec fn fund_error(pre: FundToCampaign, amount: u64, now: i64) -> Option<ErrorCode> {
    if amount <= pre.campaign.minimum_deposit_amount {
        Some(ErrorCode::FundAmountTooLow)
    } else if pre.campaign.goal < pre.campaign.raised_amount {
        Some(ErrorCode::CampaignGoalReached)
    } else if now >= pre.campaign.ending_timestamp {
        Some(ErrorCode::CampaignEnded)
    } else if !fund_fits(pre, amount) {
        Some(ErrorCode::Overflow)
    } else {
        None
    }
}

/// The records after an accepted contribution of `amount`.
pub open spec fn funded(pre: FundToCampaign, amount: u64) -> FundToCampaign {
    FundToCampaign {
        campaign: Campaign {
            raised_amount: (pre.campaign.raised_amount + amount) as u64,
            ..pre.campaign
        },
        donor_info: Donor {
            donor: pre.donor,
            campaign: pre.campaign_key,
            amount: (pre.donor_info.amount + amount) as u64,
            donor_bump: pre.donor_info_bump,
        },
        ..pre
    }
}

/// The inbound transfer of an accepted contribution: donor to escrow, signed
/// by the donor.
pub open spec fn fund_transfer(pre: FundToCampaign, amount: u64) -> TransferRequest {
    TransferRequest {
        from: pre.donor,
        to: pre.campaign_key,
        authority: pre.donor,
        signer: TransferSigner::Owner,
        amount,
    }
}

/// The new totals fit the integer type.
pub open spec fn fund_fits(pre: FundToCampaign, amount: u64) -> bool {
    &&& pre.campaign.raised_amount + amount <= u64::MAX
    &&& pre.donor_info.amount + amount <= u64::MAX
}

/// Accepts a contribution: checks the amount, the goal, the deadline and that
/// the new totals fit, then
/// adds the amount to the donor's entry and to the campaign's total, and
/// returns the inbound transfer to perform.
pub fn handler(ctx: &mut FundToCampaign, args: FundToCampaignArgs, now: i64) -> (r: Result<
    TransferRequest,
    ErrorCode,
>)
    ensures
        match fund_error(*old(ctx), args.fund_amount, now) {
            Some(e) => r == Err::<TransferRequest, ErrorCode>(e) && *final(ctx) == *old(ctx),
            None => r == Ok::<TransferRequest, ErrorCode>(fund_transfer(*old(ctx), args.fund_amount))
                && *final(ctx) == funded(*old(ctx), args.fund_amount),
        },
{
    let amount = args.fund_amount;
    if amount <= ctx.campaign.minimum_deposit_amount {
        return Err(ErrorCode::FundAmountTooLow);
    }
    if ctx.campaign.goal < ctx.campaign.raised_amount {
        return Err(ErrorCode::CampaignGoalReached);
    }
    if now >= ctx.campaign.ending_timestamp {
        return Err(ErrorCode::CampaignEnded);
    }
    if ctx.campaign.raised_amount > u64::MAX - amount || ctx.donor_info.amount > u64::MAX - amount {
        return Err(ErrorCode::Overflow);
    }
    let transfer = ctx.campaign.transfer_tokens_from_user(ctx.donor, ctx.campaign_key, ctx.donor, amount);

    ctx.donor_info.donor_bump = ctx.donor_info_bump;
    ctx.donor_info.donor = ctx.donor;
    ctx.donor_info.campaign = ctx.campaign_key;
    ctx.donor_info.amount = ctx.donor_info.amount + amount;
    ctx.campaign.raised_amount = ctx.campaign.raised_amount + amount;
    Ok(transfer)
}

} // verus!
