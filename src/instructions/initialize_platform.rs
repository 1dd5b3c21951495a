use vstd::prelude::*;

use crate::error::ErrorCode;
use crate::state::{Platform, Pubkey};

verus! {

/// The records and identities that creating the platform registry works on.
#[derive(Clone, Copy, Debug, PartialEq, Eq)]
pub struct InitializePlatform {
    /// The caller, who becomes the admin.
    pub admin: Pubkey,
    /// The freshly allocated registry record.
    pub platform: Platform,
    pub platform_authority: Pubkey,
    pub platform_authority_bump: u8,
}

#[derive(Clone, Copy, Debug, PartialEq, Eq)]
pub struct InitializePlatformArgs {
    pub fee: u64,
}

/// The registry that initialization writes.
pub open spec fn initial_platform(pre: InitializePlatform, fee: u64) -> Platform {
    Platform {
        admin: pre.admin,
        fee,
        fee_accumulated: 0,
        authority: pre.platform_authority,
        authority_bump: pre.platform_authority_bump,
    }
}

/// Fills the registry: the caller is admin, the fee is `args.fee`, nothing is
/// accumulated yet, and the platform authority is recorded.
pub fn handler(ctx: &mut InitializePlatform, args: InitializePlatformArgs) -> (r: Result<(), ErrorCode>)
    ensures
        r is Ok,
        *final(ctx) == (InitializePlatform { platform: initial_platform(*old(ctx), args.fee), ..*old(ctx) }),
{
    ctx.platform.admin = ctx.admin;
    ctx.platform.fee = args.fee;
    ctx.platform.fee_accumulated = 0;
    ctx.platform.authority = ctx.platform_authority;
    ctx.platform.authority_bump = ctx.platform_authority_bump;
    Ok(())
}

} // verus!
