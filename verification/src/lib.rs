use vstd::prelude::*;

pub mod errors;
pub mod ledger;
pub mod relay;
pub mod state;

verus! {

/// Micro-degrees for 90 degrees of latitude.
pub const MAX_LATITUDE_MICRO: i64 = 90_000_000;

/// Micro-degrees for 180 degrees of longitude.
pub const MAX_LONGITUDE_MICRO: i64 = 180_000_000;

/// Seconds a user must wait between two accepted submissions.
pub const COOLDOWN_SECONDS: i64 = 3600;

/// Length of a day bucket, in seconds.
pub const SECONDS_PER_DAY: i64 = 86400;

/// Maximum number of accepted submissions within one day bucket.
pub const DAILY_SUBMISSION_CAP: u8 = 24;

/// Minimum age of a submission, in seconds, before it can be verified.
pub const MIN_VERIFICATION_AGE: i64 = 60;

/// Reward issued for one verified submission, in minor token units
/// (5 tokens at 6 decimal places).
pub const REWARD_AMOUNT: u64 = 5_000_000;

/// The day bucket that an epoch timestamp falls in.
pub open spec fn day_bucket(t: i64) -> int {
    t as int / SECONDS_PER_DAY as int
}

/// Exec counterpart of `day_bucket`.
pub fn day_of(t: i64) -> (d: i64)
    requires
        t >= 0,
    ensures
        d as int == day_bucket(t),
{
    t / SECONDS_PER_DAY
}

} // verus!
