use raise_contract::constants::CAMPAIGN_AUTHORITY_SEED;
use raise_contract::error::ErrorCode;
use raise_contract::instructions::fund_to_campaign::{FundToCampaign, FundToCampaignArgs};
use raise_contract::instructions::initialize_campaign::{InitializeCampaign, InitializeCampaignArgs};
use raise_contract::instructions::refund_to_donor::RefundToDonor;
use raise_contract::instructions::set_campaign_unlocked::SetCampaignUnlocked;
use raise_contract::instructions::withdraw_from_campaign::{WithdrawFromCampaign, WithdrawalWindow};
use raise_contract::state::{verify_campaign_authority, Campaign, Donor, Pubkey, TransferSigner};
use raise_contract::{
    fund_to_campaign, initialize_campaign, refund_to_donor, set_campaign_unlocked,
    withdraw_from_campaign,
};

const DAY: i64 = 60 * 60 * 24;
const NOW: i64 = 1_700_000_000;

fn key(b: u8) -> Pubkey {
    Pubkey::new([b; 32])
}

fn program() -> Pubkey {
    key(200)
}

fn authority_of(creator: Pubkey) -> (Pubkey, u8) {
    let program = anchor_lang::prelude::Pubkey::new_from_array(program().to_bytes());
    let creator_bytes = creator.to_bytes();
    let (k, bump) = anchor_lang::prelude::Pubkey::find_program_address(
        &[CAMPAIGN_AUTHORITY_SEED.as_bytes(), &creator_bytes],
        &program,
    );
    (Pubkey::new(k.to_bytes()), bump)
}

fn authority() -> (Pubkey, u8) {
    authority_of(key(1))
}

fn blank_campaign() -> Campaign {
    Campaign {
        creator: key(0),
        goal: 0,
        ending_timestamp: 0,
        minimum_deposit_amount: 0,
        raised_amount: 0,
        is_withdrawn: false,
        is_locked: false,
        campaign_authority: key(0),
        campaign_authority_bump: 0,
    }
}

fn blank_donor() -> Donor {
    Donor { donor: key(0), campaign: key(0), amount: 0, donor_bump: 0 }
}

fn new_campaign(goal: u64, duration: i64, min: u64) -> Result<Campaign, ErrorCode> {
    let (auth, bump) = authority();
    let mut ctx = InitializeCampaign {
        creator: key(1),
        campaign: blank_campaign(),
        campaign_authority: auth,
        campaign_authority_bump: bump,
        program_id: program(),
    };
    initialize_campaign(&mut ctx, InitializeCampaignArgs { goal, campaign_duration: duration, min_deposit_amount: min }, NOW)?;
    Ok(ctx.campaign)
}

fn fund(campaign: Campaign, entry: Donor, donor: Pubkey, amount: u64, now: i64) -> (FundToCampaign, Result<raise_contract::state::TransferRequest, ErrorCode>) {
    let mut ctx = FundToCampaign { donor, campaign_key: key(50), campaign, donor_info: entry, donor_info_bump: 7 };
    let r = fund_to_campaign(&mut ctx, FundToCampaignArgs { fund_amount: amount }, now);
    (ctx, r)
}

fn withdraw_ctx(campaign: Campaign) -> WithdrawFromCampaign {
    WithdrawFromCampaign {
        creator: key(1),
        campaign_key: key(50),
        campaign,
        campaign_authority: campaign.campaign_authority,
        program_id: program(),
        window: WithdrawalWindow::UntilDeadline,
    }
}

fn refund_ctx(campaign: Campaign, entry: Donor) -> RefundToDonor {
    RefundToDonor {
        campaign_key: key(50),
        campaign,
        campaign_authority: campaign.campaign_authority,
        program_id: program(),
        donor_info: entry,
    }
}

#[test]
fn initialize_sets_fields() {
    let (auth, bump) = authority();
    let c = new_campaign(1000, 15 * DAY, 10).unwrap();
    assert_eq!(c.creator, key(1));
    assert_eq!(c.goal, 1000);
    assert_eq!(c.ending_timestamp, NOW + 15 * DAY);
    assert_eq!(c.minimum_deposit_amount, 10);
    assert_eq!(c.raised_amount, 0);
    assert!(c.is_locked);
    assert!(!c.is_withdrawn);
    assert_eq!(c.campaign_authority, auth);
    assert_eq!(c.campaign_authority_bump, bump);
}

#[test]
fn initialize_duration_boundary() {
    assert_eq!(new_campaign(1000, 10 * DAY, 10), Err(ErrorCode::CampaignDurationTooLow));
    assert_eq!(new_campaign(1000, 0, 10), Err(ErrorCode::CampaignDurationTooLow));
    assert!(new_campaign(1000, 10 * DAY + 1, 10).is_ok());
}

#[test]
fn initialize_rejects_underived_authority() {
    let (_, bump) = authority();
    let mut ctx = InitializeCampaign {
        creator: key(1),
        campaign: blank_campaign(),
        campaign_authority: program(),
        campaign_authority_bump: bump,
        program_id: program(),
    };
    let before = ctx;
    let r = initialize_campaign(&mut ctx, InitializeCampaignArgs { goal: 1, campaign_duration: 15 * DAY, min_deposit_amount: 1 }, NOW);
    assert_eq!(r, Err(ErrorCode::InvalidEscrowAuthority));
    assert_eq!(ctx, before);
}

#[test]
fn derived_authority_is_recognised() {
    let (auth, bump) = authority();
    assert!(verify_campaign_authority(&auth, &key(1), bump, &program()));
    assert!(!verify_campaign_authority(&program(), &key(1), bump, &program()));
    assert!(!verify_campaign_authority(&auth, &key(1), bump, &key(201)));
}

#[test]
fn each_campaign_has_its_own_authority() {
    let (auth1, bump1) = authority_of(key(1));
    let (auth2, bump2) = authority_of(key(2));
    assert_ne!(auth1, auth2);
    assert!(verify_campaign_authority(&auth2, &key(2), bump2, &program()));
    assert!(!verify_campaign_authority(&auth1, &key(2), bump1, &program()));

    let mut ctx = InitializeCampaign {
        creator: key(2),
        campaign: blank_campaign(),
        campaign_authority: auth1,
        campaign_authority_bump: bump1,
        program_id: program(),
    };
    let args = InitializeCampaignArgs { goal: 1, campaign_duration: 15 * DAY, min_deposit_amount: 1 };
    assert_eq!(initialize_campaign(&mut ctx, args, NOW), Err(ErrorCode::InvalidEscrowAuthority));
    ctx.campaign_authority = auth2;
    ctx.campaign_authority_bump = bump2;
    assert!(initialize_campaign(&mut ctx, args, NOW).is_ok());
    assert_eq!(ctx.campaign.campaign_authority, auth2);
}

#[test]
fn initialize_deadline_overflow() {
    let (auth, bump) = authority();
    let mut ctx = InitializeCampaign {
        creator: key(1),
        campaign: blank_campaign(),
        campaign_authority: auth,
        campaign_authority_bump: bump,
        program_id: program(),
    };
    let before = ctx;
    let args = InitializeCampaignArgs { goal: 1, campaign_duration: i64::MAX, min_deposit_amount: 1 };
    assert_eq!(initialize_campaign(&mut ctx, args, NOW), Err(ErrorCode::Overflow));
    assert_eq!(ctx, before);
    let short = InitializeCampaignArgs { goal: 1, campaign_duration: 5, min_deposit_amount: 1 };
    assert_eq!(initialize_campaign(&mut ctx, short, i64::MAX), Err(ErrorCode::CampaignDurationTooLow));
}

#[test]
fn fund_total_overflow() {
    let mut c = new_campaign(u64::MAX, 15 * DAY, 10).unwrap();
    c.raised_amount = u64::MAX - 50;
    let (ctx, r) = fund(c, blank_donor(), key(2), 51, NOW);
    assert_eq!(r, Err(ErrorCode::Overflow));
    assert_eq!(ctx.campaign, c);
    let (ctx, r) = fund(c, blank_donor(), key(2), 50, NOW);
    assert!(r.is_ok());
    assert_eq!(ctx.campaign.raised_amount, u64::MAX);
    // Below the minimum, the amount is refused before any sum is formed.
    let (_, r) = fund(c, blank_donor(), key(2), 10, NOW);
    assert_eq!(r, Err(ErrorCode::FundAmountTooLow));
}

#[test]
fn fund_goal_scenario() {
    let c = new_campaign(1000, 15 * DAY, 10).unwrap();
    let (ctx, r) = fund(c, blank_donor(), key(2), 500, NOW);
    let t = r.unwrap();
    assert_eq!(t.from, key(2));
    assert_eq!(t.to, key(50));
    assert_eq!(t.authority, key(2));
    assert_eq!(t.signer, TransferSigner::Owner);
    assert_eq!(t.amount, 500);
    assert_eq!(ctx.campaign.raised_amount, 500);
    assert_eq!(ctx.donor_info.amount, 500);
    assert_eq!(ctx.donor_info.donor, key(2));
    assert_eq!(ctx.donor_info.campaign, key(50));
    assert_eq!(ctx.donor_info.donor_bump, 7);

    let (ctx, r) = fund(ctx.campaign, ctx.donor_info, key(2), 600, NOW + 1);
    assert!(r.is_ok());
    assert_eq!(ctx.campaign.raised_amount, 1100);
    assert_eq!(ctx.donor_info.amount, 1100);

    // The amount is checked before the goal, so a contribution of 1 under a
    // minimum of 10 is refused as too low; one above the minimum meets the goal.
    let (after, r) = fund(ctx.campaign, blank_donor(), key(3), 1, NOW + 2);
    assert_eq!(r, Err(ErrorCode::FundAmountTooLow));
    assert_eq!(after.campaign, ctx.campaign);
    let (after, r) = fund(ctx.campaign, blank_donor(), key(3), 11, NOW + 2);
    assert_eq!(r, Err(ErrorCode::CampaignGoalReached));
    assert_eq!(after.campaign.raised_amount, 1100);
    assert_eq!(after.donor_info, blank_donor());
}

#[test]
fn fund_at_minimum_is_too_low() {
    let c = new_campaign(1000, 15 * DAY, 10).unwrap();
    let (ctx, r) = fund(c, blank_donor(), key(2), 10, NOW);
    assert_eq!(r, Err(ErrorCode::FundAmountTooLow));
    assert_eq!(ctx.campaign.raised_amount, 0);
    let (_, r) = fund(c, blank_donor(), key(2), 11, NOW);
    assert!(r.is_ok());
}

#[test]
fn fund_goal_exactly_reached_still_accepts() {
    let mut c = new_campaign(1000, 15 * DAY, 10).unwrap();
    c.raised_amount = 1000;
    let (ctx, r) = fund(c, blank_donor(), key(2), 20, NOW);
    assert!(r.is_ok());
    assert_eq!(ctx.campaign.raised_amount, 1020);
}

#[test]
fn fund_after_deadline_ends() {
    let c = new_campaign(1000, 15 * DAY, 10).unwrap();
    let (_, r) = fund(c, blank_donor(), key(2), 50, c.ending_timestamp);
    assert_eq!(r, Err(ErrorCode::CampaignEnded));
    let (_, r) = fund(c, blank_donor(), key(2), 50, c.ending_timestamp - 1);
    assert!(r.is_ok());
}

#[test]
fn fund_twice_accumulates_in_one_entry() {
    let c = new_campaign(1000, 15 * DAY, 10).unwrap();
    let (ctx, _) = fund(c, blank_donor(), key(4), 30, NOW);
    let (ctx, _) = fund(ctx.campaign, ctx.donor_info, key(4), 40, NOW);
    assert_eq!(ctx.donor_info.amount, 70);
    assert_eq!(ctx.donor_info.donor, key(4));
    assert_eq!(ctx.campaign.raised_amount, 70);
}

#[test]
fn withdraw_at_goal_before_deadline() {
    let mut c = new_campaign(1000, 15 * DAY, 10).unwrap();
    c.raised_amount = 1000;
    let mut ctx = withdraw_ctx(c);
    let t = withdraw_from_campaign(&mut ctx, NOW + DAY).unwrap();
    assert_eq!(t.from, key(50));
    assert_eq!(t.to, key(1));
    assert_eq!(t.authority, c.campaign_authority);
    assert_eq!(t.signer, TransferSigner::CampaignEscrow { creator: key(1), bump: c.campaign_authority_bump });
    assert_eq!(t.amount, 1000);
    assert!(ctx.campaign.is_withdrawn);
    assert_eq!(ctx.campaign.raised_amount, 0);

    let before = ctx;
    assert_eq!(withdraw_from_campaign(&mut ctx, NOW + DAY), Err(ErrorCode::CampaignFundAlreadyWithdrawn));
    assert_eq!(ctx, before);
}

#[test]
fn withdraw_errors() {
    let mut c = new_campaign(1000, 15 * DAY, 10).unwrap();
    c.raised_amount = 999;
    let mut ctx = withdraw_ctx(c);
    assert_eq!(withdraw_from_campaign(&mut ctx, NOW), Err(ErrorCode::CampaignGoalNotReached));
    assert_eq!(ctx.campaign, c);

    c.raised_amount = 1000;
    let mut ctx = withdraw_ctx(c);
    assert_eq!(withdraw_from_campaign(&mut ctx, c.ending_timestamp + 1), Err(ErrorCode::CampaignFundDurationNotEnded));
    let mut ctx = withdraw_ctx(c);
    assert!(withdraw_from_campaign(&mut ctx, c.ending_timestamp).is_ok());

    let mut ctx = withdraw_ctx(c);
    ctx.creator = key(9);
    assert_eq!(withdraw_from_campaign(&mut ctx, NOW), Err(ErrorCode::Unauthorized));

    let mut ctx = withdraw_ctx(c);
    ctx.campaign_authority = key(9);
    assert_eq!(withdraw_from_campaign(&mut ctx, NOW), Err(ErrorCode::InvalidEscrowAuthority));
}

#[test]
fn unlock_and_refund_scenario() {
    let c = new_campaign(1000, 15 * DAY, 10).unwrap();
    let (ctx, _) = fund(c, blank_donor(), key(2), 300, NOW);
    let (ctx_b, _) = fund(ctx.campaign, blank_donor(), key(3), 200, NOW);
    let entry_a = ctx.donor_info;
    let campaign = ctx_b.campaign;
    assert_eq!(campaign.raised_amount, 500);

    let mut refund = refund_ctx(campaign, entry_a);
    assert_eq!(refund_to_donor(&mut refund), Err(ErrorCode::CampaignIsOnProgress));
    assert_eq!(refund.donor_info.amount, 300);

    let mut unlock = SetCampaignUnlocked { creator: key(1), campaign };
    assert!(set_campaign_unlocked(&mut unlock).is_ok());
    assert!(!unlock.campaign.is_locked);
    assert_eq!(set_campaign_unlocked(&mut unlock), Err(ErrorCode::CampaignIsOnProgress));

    let mut refund = refund_ctx(unlock.campaign, entry_a);
    let t = refund_to_donor(&mut refund).unwrap();
    assert_eq!(t.amount, 300);
    assert_eq!(t.from, key(50));
    assert_eq!(t.to, key(2));
    assert_eq!(t.signer, TransferSigner::CampaignEscrow { creator: key(1), bump: campaign.campaign_authority_bump });
    assert_eq!(refund.donor_info.amount, 0);
    assert_eq!(refund.campaign.raised_amount, 200);
}

#[test]
fn unlock_by_stranger_refused() {
    let c = new_campaign(1000, 15 * DAY, 10).unwrap();
    let mut unlock = SetCampaignUnlocked { creator: key(8), campaign: c };
    assert_eq!(set_campaign_unlocked(&mut unlock), Err(ErrorCode::Unauthorized));
    assert!(unlock.campaign.is_locked);
}

#[test]
fn refund_after_withdrawal_lacks_funds() {
    let mut c = new_campaign(1000, 15 * DAY, 10).unwrap();
    c.raised_amount = 1000;
    let mut entry = blank_donor();
    entry.donor = key(2);
    entry.amount = 1000;
    let mut w = withdraw_ctx(c);
    withdraw_from_campaign(&mut w, NOW).unwrap();
    let mut unlock = SetCampaignUnlocked { creator: key(1), campaign: w.campaign };
    set_campaign_unlocked(&mut unlock).unwrap();
    let mut refund = refund_ctx(unlock.campaign, entry);
    assert_eq!(refund_to_donor(&mut refund), Err(ErrorCode::InsufficientFunds));
    assert_eq!(refund.donor_info.amount, 1000);

    let mut refund = refund_ctx(unlock.campaign, entry);
    refund.campaign_authority = key(9);
    assert_eq!(refund_to_donor(&mut refund), Err(ErrorCode::InvalidEscrowAuthority));
}

#[test]
fn withdraw_after_deadline_window() {
    let mut c = new_campaign(1000, 15 * DAY, 10).unwrap();
    c.raised_amount = 1200;
    let mut ctx = withdraw_ctx(c);
    ctx.window = WithdrawalWindow::AfterDeadline;
    assert_eq!(withdraw_from_campaign(&mut ctx, c.ending_timestamp), Err(ErrorCode::CampaignFundDurationNotEnded));
    assert!(!ctx.campaign.is_withdrawn);
    let t = withdraw_from_campaign(&mut ctx, c.ending_timestamp + 1).unwrap();
    assert_eq!(t.amount, 1200);
    assert!(ctx.campaign.is_withdrawn);
}
