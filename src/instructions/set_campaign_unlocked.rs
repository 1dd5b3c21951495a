use vstd::prelude::*;

use crate::error::ErrorCode;
use crate::state::{Campaign, Pubkey};

verus! {

/// The records and identities that unlocking works on.
#[derive(Clone, Copy, Debug, PartialEq, Eq)]
pub struct SetCampaignUnlocked {
    /// The caller, who must be the campaign's creator.
    pub creator: Pubkey,
    pub campaign: Campaign,
}

/// Why an unlock is refused, if it is.
pub open spec fn unlock_error(pre: SetCampaignUnlocked) -> Option<ErrorCode> {
    if pre.creator@ != pre.campaign.creator@ {
        Some(ErrorCode::Unauthorized)
    } else if !pre.campaign.is_locked {
        Some(ErrorCode::CampaignIsOnProgress)
    } else {
        None
    }
}

/// The records after an accepted unlock.
pub open spec fn unlocked(pre: SetCampaignUnlocked) -> SetCampaignUnlocked {
    SetCampaignUnlocked { campaign: Campaign { is_locked: false, ..pre.campaign }, ..pre }
}

/// Opens a locked campaign for refunds; only its creator may.
pub fn handler(ctx: &mut SetCampaignUnlocked) -> (r: Result<(), ErrorCode>)
    ensures
        match unlock_error(*old(ctx)) {
            Some(e) => r == Err::<(), ErrorCode>(e) && *final(ctx) == *old(ctx),
            None => r is Ok && *final(ctx) == unlocked(*old(ctx)),
        },
{
    if ctx.creator != ctx.campaign.creator {
        return Err(ErrorCode::Unauthorized);
    }
    if !ctx.campaign.is_locked {
        return Err(ErrorCode::CampaignIsOnProgress);
    }
    ctx.campaign.is_locked = false;
    Ok(())
}

} // verus!
