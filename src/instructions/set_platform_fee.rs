use vstd::prelude::*;

use crate::error::ErrorCode;
use crate::state::{Platform, Pubkey};

verus! {

/// The records and identities that changing the fee works on.
#[derive(Clone, Copy, Debug, PartialEq, Eq)]
pub struct SetPlatformFee {
    /// The caller, who must be the current admin.
    pub admin: Pubkey,
    pub platform: Platform,
}

#[derive(Clone, Copy, Debug, PartialEq, Eq)]
pub struct SetPlatformFeeArgs {
    pub fee_to_be_changed: u64,
}

/// Sets the platform fee to any value; only the admin may.
pub fn handler(ctx: &mut SetPlatformFee, args: SetPlatformFeeArgs) -> (r: Result<(), ErrorCode>)
    ensures
        old(ctx).admin@ != old(ctx).platform.admin@ ==> r == Err::<(), ErrorCode>(
            ErrorCode::Unauthorized,
        ) && *final(ctx) == *old(ctx),
        old(ctx).admin@ == old(ctx).platform.admin@ ==> r is Ok && *final(ctx) == (SetPlatformFee {
            platform: Platform { fee: args.fee_to_be_changed, ..old(ctx).platform },
            ..*old(ctx)
        }),
{
    if ctx.admin != ctx.platform.admin {
        return Err(ErrorCode::Unauthorized);
    }
    ctx.platform.fee = args.fee_to_be_changed;
    Ok(())
}

} // verus!
