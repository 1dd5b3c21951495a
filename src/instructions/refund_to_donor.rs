use vstd::prelude::*;

use crate::error::ErrorCode;
use crate::state::{Campaign, Donor, Pubkey, TransferRequest, TransferSigner};

verus! {

/// The records and identities that a refund works on.
#[derive(Clone, Copy, Debug, PartialEq, Eq)]
pub struct RefundToDonor {
    pub campaign_key: Pubkey,
    pub campaign: Campaign,
    /// The escrow authority presented to sign the outbound transfer.
    pub campaign_authority: Pubkey,
    pub program_id: Pubkey,
    /// The entry being refunded; its donor receives the refund and need not
    /// be the caller.
    pub donor_info: Donor,
}

/// Why a refund is refused, if it is.
pub open spec fn refund_error(pre: RefundToDonor) -> Option<ErrorCode> {
    if !pre.campaign.escrow_authority_valid(pre.campaign_authority, pre.program_id) {
        Some(ErrorCode::InvalidEscrowAuthority)
    } else if pre.campaign.is_locked {
        Some(ErrorCode::CampaignIsOnProgress)
    } else if pre.campaign.raised_amount < pre.donor_info.amount {
        Some(ErrorCode::InsufficientFunds)
    } else {
        None
    }
}

/// The records after an accepted refund.
pub open spec fn refunded(pre: RefundToDonor) -> RefundToDonor {
    RefundToDonor {
        campaign: Campaign {
            raised_amount: (pre.campaign.raised_amount - pre.donor_info.amount) as u64,
            ..pre.campaign
        },
        donor_info: Donor { amount: 0, ..pre.donor_info },
        ..pre
    }
}

/// The outbound transfer of the entry's whole amount, escrow to the entry's
/// donor.
pub open spec fn refund_transfer(pre: RefundToDonor) -> TransferRequest {
    TransferRequest {
        from: pre.campaign_key,
        to: pre.donor_info.donor,
        authority: pre.campaign_authority,
        signer: TransferSigner::CampaignEscrow {
            creator: pre.campaign.creator,
            bump: pre.campaign.campaign_authority_bump,
        },
        amount: pre.donor_info.amount,
    }
}

/// Pays a donor back once the campaign is unlocked: checks the escrow
/// authority, the lock state and that the escrow holds the amount, then zeroes
/// the donor's entry, takes the amount off the campaign's total, and returns
/// the outbound transfer to perform.
pub fn handler(ctx: &mut RefundToDonor) -> (r: Result<TransferRequest, ErrorCode>)
    ensures
        match refund_error(*old(ctx)) {
            Some(e) => r == Err::<TransferRequest, ErrorCode>(e) && *final(ctx) == *old(ctx),
            None => r == Ok::<TransferRequest, ErrorCode>(refund_transfer(*old(ctx)))
                && *final(ctx) == refunded(*old(ctx)),
        },
{
    if !ctx.campaign.check_escrow_authority(&ctx.campaign_authority, &ctx.program_id) {
        return Err(ErrorCode::InvalidEscrowAuthority);
    }
    if ctx.campaign.is_locked {
        return Err(ErrorCode::CampaignIsOnProgress);
    }
    let refund_amount = ctx.donor_info.amount;
    if ctx.campaign.raised_amount < refund_amount {
        return Err(ErrorCode::InsufficientFunds);
    }
    let transfer = ctx.campaign.transfer_tokens(
        ctx.campaign_key,
        ctx.donor_info.donor,
        ctx.campaign_authority,
        refund_amount,
    );
    ctx.donor_info.amount = 0;
    ctx.campaign.raised_amount = ctx.campaign.raised_amount - refund_amount;
    Ok(transfer)
}

} // verus!
