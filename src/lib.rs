//! Crowdfunding escrow: a platform registry, campaign records and donor ledger
//! entries, with the rules for deposits, goal-based withdrawal and refunds.
//!
//! Every handler validates its inputs before it changes anything: on an error
//! the records are left as they were. A handler that moves funds returns the
//! transfer to perform; the host performs it and keeps the new records only if
//! the transfer succeeded.
use vstd::prelude::*;

pub mod constants;
pub mod error;
pub mod instructions;
pub mod laws;
pub mod state;

use crate::error::ErrorCode;
use crate::instructions::fund_to_campaign::{fund_error, fund_transfer, funded, FundToCampaign, FundToCampaignArgs};
use crate::instructions::initialize_campaign::{
    initial_campaign, initialize_campaign_error, InitializeCampaign, InitializeCampaignArgs,
};
use crate::instructions::initialize_platform::{initial_platform, InitializePlatform, InitializePlatformArgs};
use crate::instructions::refund_to_donor::{refund_error, refund_transfer, refunded, RefundToDonor};
use crate::instructions::set_campaign_unlocked::{unlock_error, unlocked, SetCampaignUnlocked};
use crate::instructions::set_platform_admin::{SetPlatformAdmin, SetPlatformAdminArgs};
use crate::instructions::set_platform_fee::{SetPlatformFee, SetPlatformFeeArgs};
use crate::instructions::withdraw_from_campaign::{
    withdraw_error, withdraw_transfer, withdrawn, WithdrawFromCampaign,
};
use crate::state::{Platform, TransferRequest};

verus! {

/// Creates the platform registry with the caller as admin.
pub fn initialize_platform(ctx: &mut InitializePlatform, args: InitializePlatformArgs) -> (r: Result<(), ErrorCode>)
    ensures
        r is Ok,
        *final(ctx) == (InitializePlatform { platform: initial_platform(*old(ctx), args.fee), ..*old(ctx) }),
{
    instructions::initialize_platform::handler(ctx, args)
}

/// Changes the platform admin; only the current admin may.
pub fn set_platform_admin(ctx: &mut SetPlatformAdmin, args: SetPlatformAdminArgs) -> (r: Result<(), ErrorCode>)
    ensures
        old(ctx).admin@ != old(ctx).platform.admin@ ==> r == Err::<(), ErrorCode>(
            ErrorCode::Unauthorized,
        ) && *final(ctx) == *old(ctx),
        old(ctx).admin@ == old(ctx).platform.admin@ ==> r is Ok && *final(ctx) == (SetPlatformAdmin {
            platform: Platform { admin: args.admin_to_be_changed, ..old(ctx).platform },
            ..*old(ctx)
        }),
{
    instructions::set_platform_admin::handler(ctx, args)
}

/// Changes the platform fee; only the admin may.
pub fn set_platform_fee(ctx: &mut SetPlatformFee, args: SetPlatformFeeArgs) -> (r: Result<(), ErrorCode>)
    ensures
        old(ctx).admin@ != old(ctx).platform.admin@ ==> r == Err::<(), ErrorCode>(
            ErrorCode::Unauthorized,
        ) && *final(ctx) == *old(ctx),
        old(ctx).admin@ == old(ctx).platform.admin@ ==> r is Ok && *final(ctx) == (SetPlatformFee {
            platform: Platform { fee: args.fee_to_be_changed, ..old(ctx).platform },
            ..*old(ctx)
        }),
{
    instructions::set_platform_fee::handler(ctx, args)
}

/// Opens a campaign for the caller, ending `args.campaign_duration` seconds
/// after `now`.
pub fn initialize_campaign(ctx: &mut InitializeCampaign, args: InitializeCampaignArgs, now: i64) -> (r: Result<(), ErrorCode>)
    ensures
        match initialize_campaign_error(*old(ctx), args, now) {
            Some(e) => r == Err::<(), ErrorCode>(e) && *final(ctx) == *old(ctx),
            None => r is Ok && *final(ctx) == (InitializeCampaign {
                campaign: initial_campaign(*old(ctx), args, now),
                ..*old(ctx)
            }),
        },
{
    instructions::initialize_campaign::handler(ctx, args, now)
}

/// Accepts a contribution at time `now` and returns the inbound transfer.
pub fn fund_to_campaign(ctx: &mut FundToCampaign, args: FundToCampaignArgs, now: i64) -> (r: Result<TransferRequest, ErrorCode>)
    ensures
        match fund_error(*old(ctx), args.fund_amount, now) {
            Some(e) => r == Err::<TransferRequest, ErrorCode>(e) && *final(ctx) == *old(ctx),
            None => r == Ok::<TransferRequest, ErrorCode>(fund_transfer(*old(ctx), args.fund_amount))
                && *final(ctx) == funded(*old(ctx), args.fund_amount),
        },
{
    instructions::fund_to_campaign::handler(ctx, args, now)
}

/// Releases the raised funds to the creator at time `now` and returns the
/// outbound transfer.
pub fn withdraw_from_campaign(ctx: &mut WithdrawFromCampaign, now: i64) -> (r: Result<TransferRequest, ErrorCode>)
    ensures
        match withdraw_error(*old(ctx), now) {
            Some(e) => r == Err::<TransferRequest, ErrorCode>(e) && *final(ctx) == *old(ctx),
            None => r == Ok::<TransferRequest, ErrorCode>(withdraw_transfer(*old(ctx)))
                && *final(ctx) == withdrawn(*old(ctx)),
        },
{
    instructions::withdraw_from_campaign::handler(ctx, now)
}

/// Pays a donor's entry back from an unlocked campaign and returns the
/// outbound transfer.
pub fn refund_to_donor(ctx: &mut RefundToDonor) -> (r: Result<TransferRequest, ErrorCode>)
    ensures
        match refund_error(*old(ctx)) {
            Some(e) => r == Err::<TransferRequest, ErrorCode>(e) && *final(ctx) == *old(ctx),
            None => r == Ok::<TransferRequest, ErrorCode>(refund_transfer(*old(ctx)))
                && *final(ctx) == refunded(*old(ctx)),
        },
{
    instructions::refund_to_donor::handler(ctx)
}

/// Opens a locked campaign for refunds; only its creator may.
pub fn set_campaign_unlocked(ctx: &mut SetCampaignUnlocked) -> (r: Result<(), ErrorCode>)
    ensures
        match unlock_error(*old(ctx)) {
            Some(e) => r == Err::<(), ErrorCode>(e) && *final(ctx) == *old(ctx),
            None => r is Ok && *final(ctx) == unlocked(*old(ctx)),
        },
{
    instructions::set_campaign_unlocked::handler(ctx)
}

} // verus!
