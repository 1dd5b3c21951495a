use vstd::prelude::*;

use crate::error::ErrorCode;
use crate::state::{Campaign, Pubkey, TransferRequest, TransferSigner};

verus! {

/// When a creator may withdraw, relative to the campaign's deadline.
#[derive(Clone, Copy, Debug, PartialEq, Eq, Structural)]
pub enum WithdrawalWindow {
    /// Up to and including the deadline: `now <= ending_timestamp`.
    UntilDeadline,
    /// Strictly after the deadline: `now > ending_timestamp`.
    AfterDeadline,
}

pub open spec fn window_open(window: WithdrawalWindow, ending_timestamp: i64, now: i64) -> bool {
    match window {
        WithdrawalWindow::UntilDeadline => ending_timestamp >= now,
        WithdrawalWindow::AfterDeadline => ending_timestamp < now,
    }
}

/// Whether a withdrawal at `now` falls inside `window`.
pub fn is_window_open(window: WithdrawalWindow, ending_timestamp: i64, now: i64) -> (r: bool)
    ensures
        r == window_open(window, ending_timestamp, now),
{
    match window {
        WithdrawalWindow::UntilDeadline => ending_timestamp >= now,
        WithdrawalWindow::AfterDeadline => ending_timestamp < now,
    }
}

/// The records and identities that a withdrawal works on.
#[derive(Clone, Copy, Debug, PartialEq, Eq)]
pub struct WithdrawFromCampaign {
    /// The caller, who must be the campaign's creator.
    pub creator: Pubkey,
    pub campaign_key: Pubkey,
    pub campaign: Campaign,
    /// The escrow authority presented to sign the outbound transfer.
    pub campaign_authority: Pubkey,
    pub program_id: Pubkey,
    /// The time rule that the withdrawal is held to.
    pub window: WithdrawalWindow,
}

/// Why a withdrawal at time `now` is refused, if it is.
pub open spec fn withdraw_error(pre: WithdrawFromCampaign, now: i64) -> Option<ErrorCode> {
    if pre.creator@ != pre.campaign.creator@ {
        Some(ErrorCode::Unauthorized)
    } else if !pre.campaign.escrow_authority_valid(pre.campaign_authority, pre.program_id) {
        Some(ErrorCode::InvalidEscrowAuthority)
    } else if pre.campaign.is_withdrawn {
        Some(ErrorCode::CampaignFundAlreadyWithdrawn)
    } else if pre.campaign.raised_amount < pre.campaign.goal {
        Some(ErrorCode::CampaignGoalNotReached)
    } else if !window_open(pre.window, pre.campaign.ending_timestamp, now) {
        Some(ErrorCode::CampaignFundDurationNotEnded)
    } else {
        None
    }
}

/// The records after an accepted withdrawal.
pub open spec fn withdrawn(pre: WithdrawFromCampaign) -> WithdrawFromCampaign {
    WithdrawFromCampaign {
        campaign: Campaign { is_withdrawn: true, raised_amount: 0, ..pre.campaign },
        ..pre
    }
}

/// The outbound transfer of the whole raised amount, escrow to creator.
pub open spec fn withdraw_transfer(pre: WithdrawFromCampaign) -> TransferRequest {
    TransferRequest {
        from: pre.campaign_key,
        to: pre.creator,
        authority: pre.campaign_authority,
        signer: TransferSigner::CampaignEscrow {
            creator: pre.campaign.creator,
            bump: pre.campaign.campaign_authority_bump,
        },
        amount: pre.campaign.raised_amount,
    }
}

/// Releases the raised funds to the creator: checks the caller, the escrow
/// authority, that nothing was withdrawn yet, the goal and the time window,
/// then marks the campaign withdrawn, zeroes its total, and returns the
/// outbound transfer to perform.
pub fn handler(ctx: &mut WithdrawFromCampaign, now: i64) -> (r: Result<TransferRequest, ErrorCode>)
    ensures
        match withdraw_error(*old(ctx), now) {
            Some(e) => r == Err::<TransferRequest, ErrorCode>(e) && *final(ctx) == *old(ctx),
            None => r == Ok::<TransferRequest, ErrorCode>(withdraw_transfer(*old(ctx)))
                && *final(ctx) == withdrawn(*old(ctx)),
        },
{
    if ctx.creator != ctx.campaign.creator {
        return Err(ErrorCode::Unauthorized);
    }
    if !ctx.campaign.check_escrow_authority(&ctx.campaign_authority, &ctx.program_id) {
        return Err(ErrorCode::InvalidEscrowAuthority);
    }
    if ctx.campaign.is_withdrawn {
        return Err(ErrorCode::CampaignFundAlreadyWithdrawn);
    }
    if ctx.campaign.raised_amount < ctx.campaign.goal {
        return Err(ErrorCode::CampaignGoalNotReached);
    }
    if !is_window_open(ctx.window, ctx.campaign.ending_timestamp, now) {
        return Err(ErrorCode::CampaignFundDurationNotEnded);
    }
    let transfer = ctx.campaign.transfer_tokens(
        ctx.campaign_key,
        ctx.creator,
        ctx.campaign_authority,
        ctx.campaign.raised_amount,
    );
    ctx.campaign.is_withdrawn = true;
    ctx.campaign.raised_amount = 0;
    Ok(transfer)
}

} // verus!
