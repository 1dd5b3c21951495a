use vstd::prelude::*;

use crate::error::ErrorCode;
use crate::state::{Platform, Pubkey};

verus! {

/// The records and identities that changing the admin works on.
#[derive(Clone, Copy, Debug, PartialEq, Eq)]
pub struct SetPlatformAdmin {
    /// The caller, who must be the current admin.
    pub admin: Pubkey,
    pub platform: Platform,
}

#[derive(Clone, Copy, Debug, PartialEq, Eq)]
pub struct SetPlatformAdminArgs {
    pub admin_to_be_changed: Pubkey,
}

/// Hands the registry to a new admin; only the current admin may.
pub fn handler(ctx: &mut SetPlatformAdmin, args: SetPlatformAdminArgs) -> (r: Result<(), ErrorCode>)
    ensures
        old(ctx).admin@ != old(ctx).platform.admin@ ==> r == Err::<(), ErrorCode>(
            ErrorCode::Unauthorized,
        ) && *final(ctx) == *old(ctx),
        old(ctx).admin@ == old(ctx).platform.admin@ ==> r is Ok && *final(ctx) == (SetPlatformAdmin {
            platform: Platform { admin: args.admin_to_be_changed, ..old(ctx).platform },
            ..*old(ctx)
        }),
{
    if ctx.admin != ctx.platform.admin {
        return Err(ErrorCode::Unauthorized);
    }
    ctx.platform.admin = args.admin_to_be_changed;
    Ok(())
}

} // verus!
