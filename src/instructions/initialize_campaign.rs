use vstd::prelude::*;

use crate::constants::MIN_CAMPAIGN_DURATION;
use crate::error::ErrorCode;
use crate::state::{verify_campaign_authority, is_campaign_authority, Campaign, Pubkey};

verus! {

/// The records and identities that creating a campaign works on.
#[derive(Clone, Copy, Debug, PartialEq, Eq)]
pub struct InitializeCampaign {
    /// The caller, who becomes the creator.
    pub creator: Pubkey,
    /// The freshly allocated campaign record.
    pub campaign: Campaign,
    /// The campaign's escrow authority and the nonce that derives it.
    pub campaign_authority: Pubkey,
    pub campaign_authority_bump: u8,
    pub program_id: Pubkey,
}

#[derive(Clone, Copy, Debug, PartialEq, Eq)]
pub struct InitializeCampaignArgs {
    pub goal: u64,
    /// In seconds.
    pub campaign_duration: i64,
    pub min_deposit_amount: u64,
}

/// Why creating a campaign is refused, if it is.
pub open spec fn initialize_campaign_error(pre: InitializeCampaign, args: InitializeCampaignArgs, now: i64) -> Option<
    ErrorCode,
> {
    if !is_campaign_authority(pre.campaign_authority, pre.creator, pre.campaign_authority_bump, pre.program_id) {
        Some(ErrorCode::InvalidEscrowAuthority)
    } else if args.campaign_duration <= MIN_CAMPAIGN_DURATION {
        Some(ErrorCode::CampaignDurationTooLow)
    } else if now + args.campaign_duration > i64::MAX {
        Some(ErrorCode::Overflow)
    } else {
        None
    }
}

/// The campaign that an accepted creation writes at time `now`.
pub open spec fn initial_campaign(pre: InitializeCampaign, args: InitializeCampaignArgs, now: i64) -> Campaign {
    Campaign {
        creator: pre.creator,
        goal: args.goal,
        ending_timestamp: (now + args.campaign_duration) as i64,
        minimum_deposit_amount: args.min_deposit_amount,
        raised_amount: 0,
        is_withdrawn: false,
        is_locked: true,
        campaign_authority: pre.campaign_authority,
        campaign_authority_bump: pre.campaign_authority_bump,
    }
}

/// Opens a campaign for the caller: checks that the escrow authority is the
/// one derived for this creator, the duration, and that the deadline fits,
/// then writes a locked campaign with nothing raised that
/// ends `args.campaign_duration` seconds after `now`.
pub fn handler(ctx: &mut InitializeCampaign, args: InitializeCampaignArgs, now: i64) -> (r: Result<(), ErrorCode>)
    ensures
        match initialize_campaign_error(*old(ctx), args, now) {
            Some(e) => r == Err::<(), ErrorCode>(e) && *final(ctx) == *old(ctx),
            None => r is Ok && *final(ctx) == (InitializeCampaign {
                campaign: initial_campaign(*old(ctx), args, now),
                ..*old(ctx)
            }),
        },
{
    if !verify_campaign_authority(
        &ctx.campaign_authority,
        &ctx.creator,
        ctx.campaign_authority_bump,
        &ctx.program_id,
    ) {
        return Err(ErrorCode::InvalidEscrowAuthority);
    }
    if args.campaign_duration <= MIN_CAMPAIGN_DURATION as i64 {
        return Err(ErrorCode::CampaignDurationTooLow);
    }
    if now > i64::MAX - args.campaign_duration {
        return Err(ErrorCode::Overflow);
    }
    ctx.campaign.creator = ctx.creator;
    ctx.campaign.goal = args.goal;
    ctx.campaign.ending_timestamp = now + args.campaign_duration;
    ctx.campaign.minimum_deposit_amount = args.min_deposit_amount;
    ctx.campaign.raised_amount = 0;
    ctx.campaign.is_withdrawn = false;
    ctx.campaign.is_locked = true;
    ctx.campaign.campaign_authority = ctx.campaign_authority;
    ctx.campaign.campaign_authority_bump = ctx.campaign_authority_bump;
    Ok(())
}

} // verus!
