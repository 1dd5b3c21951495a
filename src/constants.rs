use vstd::prelude::*;

verus! {

/// Shortest accepted campaign duration, in seconds: ten days.
pub const MIN_CAMPAIGN_DURATION: u64 = 60 * 60 * 24 * 10;

/// Namespace tag from which every campaign's escrow authority is derived.
pub const CAMPAIGN_AUTHORITY_SEED: &'static str = "campaign_authority";

} // verus!
