use vstd::prelude::*;

verus! {

/// Why a handler refused to run. Every error aborts the whole operation.
#[derive(Clone, Copy, Debug, PartialEq, Eq, Structural)]
pub enum ErrorCode {
    /// The requested duration is not above the minimum.
    CampaignDurationTooLow,
    /// The contribution is not above the campaign's minimum deposit.
    FundAmountTooLow,
    /// The raised amount already exceeds the goal.
    CampaignGoalReached,
    /// The deadline has passed.
    CampaignEnded,
    /// The funds were withdrawn already.
    CampaignFundAlreadyWithdrawn,
    /// The raised amount is below the goal.
    CampaignGoalNotReached,
    /// The withdrawal falls outside the allowed time window.
    CampaignFundDurationNotEnded,
    /// Unlock or refund in the wrong lock state.
    CampaignIsOnProgress,
    /// The caller is not the admin or creator that the operation needs.
    Unauthorized,
    /// The presented escrow authority is not the campaign's derived authority.
    InvalidEscrowAuthority,
    /// The escrow holds less than the transfer asks for.
    InsufficientFunds,
    /// A new total or deadline would not fit its integer type.
    Overflow,
}

} // verus!
