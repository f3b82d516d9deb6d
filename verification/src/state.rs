use vstd::prelude::*;

use crate::errors::ErrorCode;

verus! {

/// A 32-byte account address, the identity of a user, an authority, a
/// token type, or a program in the host runtime.
#[derive(Clone, Copy, Debug)]
pub struct AccountId {
    pub bytes: [u8; 32],
}

impl AccountId {
    /// Byte-for-byte equality of two addresses.
    pub fn matches(&self, other: &AccountId) -> (r: bool)
        ensures
            r == (self.bytes@ == other.bytes@),
    {
        let mut i: usize = 0;
        while i < 32
            invariant
                i <= 32,
                forall|k: int| 0 <= k < i ==> self.bytes@[k] == other.bytes@[k],
            decreases 32 - i,
        {
            if self.bytes[i] != other.bytes[i] {
                return false;
            }
            i = i + 1;
        }
        proof {
            assert(self.bytes@ =~= other.bytes@);
        }
        true
    }
}

/// The singleton program-wide record, created once by `initialize`.
#[derive(Clone, Copy, Debug)]
pub struct ProgramState {
    /// The account permitted to administer the program.
    pub authority: AccountId,
    /// The token type issued as rewards.
    pub map_mint: AccountId,
    /// Lifetime total of reward units minted, monotonically non-decreasing.
    pub total_rewards_distributed: u64,
}

impl ProgramState {
    /// The record as `initialize` creates it: nothing distributed yet.
    pub open spec fn initial(authority: AccountId, map_mint: AccountId) -> ProgramState {
        ProgramState { authority, map_mint, total_rewards_distributed: 0 }
    }

    /// The record after one reward was issued: only the lifetime total
    /// grows, by exactly the reward amount.
    pub open spec fn credited(self) -> ProgramState {
        ProgramState {
            total_rewards_distributed: (self.total_rewards_distributed
                + crate::REWARD_AMOUNT) as u64,
            ..self
        }
    }
}

/// The per-user record, lazily created on a user's first submission.
///
/// Coordinates are stored in micro-degrees (one millionth of a degree),
/// so that the valid ranges are exact integer bounds.
#[derive(Clone, Copy, Debug)]
pub struct UserActivity {
    /// The owning user.
    pub user: AccountId,
    /// Last reported latitude, in micro-degrees.
    pub gps_lat_micro: i64,
    /// Last reported longitude, in micro-degrees.
    pub gps_long_micro: i64,
    /// Last reported signal strength, in dBm.
    pub signal_strength: i8,
    /// Epoch seconds of the most recent accepted submission; 0 means
    /// the user has never submitted.
    pub last_submission_timestamp: i64,
    /// Submissions accepted within the current day bucket.
    pub daily_submissions: u8,
    /// Lifetime count of accepted submissions.
    pub total_submissions: u64,
    /// Lifetime total of reward units earned.
    pub total_rewards_earned: u64,
    /// True from the moment a submission is accepted until a reward is
    /// issued for it.
    pub pending_verification: bool,
}

/// Latitude bounds: [-90, 90] degrees, in micro-degrees.
pub open spec fn valid_latitude(lat_micro: i64) -> bool {
    -crate::MAX_LATITUDE_MICRO <= lat_micro <= crate::MAX_LATITUDE_MICRO
}

/// Longitude bounds: [-180, 180] degrees, in micro-degrees.
pub open spec fn valid_longitude(long_micro: i64) -> bool {
    -crate::MAX_LONGITUDE_MICRO <= long_micro <= crate::MAX_LONGITUDE_MICRO
}

/// Signal strength bounds: [-100, 0] dBm.
pub open spec fn valid_signal(signal: i8) -> bool {
    -100 <= signal <= 0
}

impl UserActivity {
    /// Well-formedness of a record: the timestamp is a (possibly zero)
    /// epoch time, the daily counter respects the cap, and the stored
    /// measurements are within their ranges.
    pub open spec fn wf(self) -> bool {
        &&& 0 <= self.last_submission_timestamp
        &&& self.daily_submissions <= crate::DAILY_SUBMISSION_CAP
        &&& valid_latitude(self.gps_lat_micro)
        &&& valid_longitude(self.gps_long_micro)
        &&& valid_signal(self.signal_strength)
    }

    /// A blank record for a user who has never submitted.
    pub open spec fn blank(user: AccountId) -> UserActivity {
        UserActivity {
            user,
            gps_lat_micro: 0,
            gps_long_micro: 0,
            signal_strength: 0,
            last_submission_timestamp: 0,
            daily_submissions: 0,
            total_submissions: 0,
            total_rewards_earned: 0,
            pending_verification: false,
        }
    }

    /// The cooldown check: a user who has submitted before must wait the
    /// full cooldown period; the boundary itself passes.
    pub open spec fn cooldown_passed(self, now: i64) -> bool {
        self.last_submission_timestamp <= 0 || now - self.last_submission_timestamp
            >= crate::COOLDOWN_SECONDS
    }

    /// Whether `now` falls in the same day bucket as the last submission.
    pub open spec fn same_day(self, now: i64) -> bool {
        crate::day_bucket(now) == crate::day_bucket(self.last_submission_timestamp)
    }

    /// The daily-cap check: within the same day bucket the counter must
    /// still be below the cap; a new day bucket always passes.
    pub open spec fn cap_ok(self, now: i64) -> bool {
        !self.same_day(now) || self.daily_submissions < crate::DAILY_SUBMISSION_CAP
    }

    /// The first failing check of a submission, in evaluation order, or
    /// `None` when the submission is accepted.
    pub open spec fn submit_outcome(
        self,
        now: i64,
        gps_lat_micro: i64,
        gps_long_micro: i64,
        signal_strength: i8,
    ) -> Option<ErrorCode> {
        if !self.cooldown_passed(now) {
            Some(ErrorCode::CooldownNotMet)
        } else if !self.cap_ok(now) {
            Some(ErrorCode::DailyCapExceeded)
        } else if !(valid_latitude(gps_lat_micro) && valid_longitude(gps_long_micro)) {
            Some(ErrorCode::InvalidGpsCoordinates)
        } else if !valid_signal(signal_strength) {
            Some(ErrorCode::InvalidSignalStrength)
        } else {
            None
        }
    }

    /// The record after an accepted submission: measurements overwritten,
    /// timestamp advanced, daily counter incremented (from zero when the
    /// day bucket changed), lifetime counter incremented, and the record
    /// marked pending.
    pub open spec fn after_submit(
        self,
        now: i64,
        gps_lat_micro: i64,
        gps_long_micro: i64,
        signal_strength: i8,
    ) -> UserActivity {
        UserActivity {
            user: self.user,
            gps_lat_micro,
            gps_long_micro,
            signal_strength,
            last_submission_timestamp: now,
            daily_submissions: if self.same_day(now) {
                (self.daily_submissions + 1) as u8
            } else {
                1
            },
            total_submissions: (self.total_submissions + 1) as u64,
            total_rewards_earned: self.total_rewards_earned,
            pending_verification: true,
        }
    }

    /// The first failing check of a verification, in evaluation order, or
    /// `None` when the reward is owed.
    pub open spec fn verify_outcome(self, now: i64) -> Option<ErrorCode> {
        if !self.pending_verification {
            Some(ErrorCode::NoPendingVerification)
        } else if now - self.last_submission_timestamp < crate::MIN_VERIFICATION_AGE {
            Some(ErrorCode::VerificationTooSoon)
        } else {
            None
        }
    }

    /// The record after a reward was issued for its pending submission.
    pub open spec fn after_reward(self) -> UserActivity {
        UserActivity {
            pending_verification: false,
            total_rewards_earned: (self.total_rewards_earned + crate::REWARD_AMOUNT) as u64,
            ..self
        }
    }

    /// A blank record for a user who has never submitted.
    pub fn new(user: AccountId) -> (a: UserActivity)
        ensures
            a == UserActivity::blank(user),
    {
        UserActivity {
            user,
            gps_lat_micro: 0,
            gps_long_micro: 0,
            signal_strength: 0,
            last_submission_timestamp: 0,
            daily_submissions: 0,
            total_submissions: 0,
            total_rewards_earned: 0,
            pending_verification: false,
        }
    }

    /// One submission attempt against this record, at epoch time `now`.
    ///
    /// All checks are evaluated in order and the record changes only when
    /// every check passes; a rejected submission leaves it untouched.
    pub fn submit(
        &mut self,
        now: i64,
        gps_lat_micro: i64,
        gps_long_micro: i64,
        signal_strength: i8,
    ) -> (r: Result<(), ErrorCode>)
        requires
            old(self).wf(),
            0 <= now,
            old(self).total_submissions < u64::MAX,
        ensures
            final(self).wf(),
            match r {
                Ok(()) => old(self).submit_outcome(
                    now,
                    gps_lat_micro,
                    gps_long_micro,
                    signal_strength,
                ) is None && *final(self) == old(self).after_submit(
                    now,
                    gps_lat_micro,
                    gps_long_micro,
                    signal_strength,
                ),
                Err(e) => old(self).submit_outcome(
                    now,
                    gps_lat_micro,
                    gps_long_micro,
                    signal_strength,
                ) == Some(e) && *final(self) == *old(self),
            },
    {
        if self.last_submission_timestamp > 0 {
            let elapsed: i64 = now - self.last_submission_timestamp;
            if elapsed < crate::COOLDOWN_SECONDS {
                return Err(ErrorCode::CooldownNotMet);
            }
        }

        let current_day: i64 = crate::day_of(now);
        let last_day: i64 = crate::day_of(self.last_submission_timestamp);
        let in_same_day: bool = current_day == last_day;
        if in_same_day && self.daily_submissions >= crate::DAILY_SUBMISSION_CAP {
            return Err(ErrorCode::DailyCapExceeded);
        }

        if !(gps_lat_micro >= -crate::MAX_LATITUDE_MICRO && gps_lat_micro
            <= crate::MAX_LATITUDE_MICRO && gps_long_micro >= -crate::MAX_LONGITUDE_MICRO
            && gps_long_micro <= crate::MAX_LONGITUDE_MICRO) {
            return Err(ErrorCode::InvalidGpsCoordinates);
        }

        if !(signal_strength >= -100 && signal_strength <= 0) {
            return Err(ErrorCode::InvalidSignalStrength);
        }

        self.gps_lat_micro = gps_lat_micro;
        self.gps_long_micro = gps_long_micro;
        self.signal_strength = signal_strength;
        self.daily_submissions = if in_same_day {
            self.daily_submissions + 1
        } else {
            1
        };
        self.last_submission_timestamp = now;
        self.total_submissions = self.total_submissions + 1;
        self.pending_verification = true;
        Ok(())
    }
}

/// Law: a repeat submission strictly inside the cooldown window is
/// rejected as `CooldownNotMet`, whatever else the submission carries.
pub proof fn lemma_cooldown_rejects(
    a: UserActivity,
    now: i64,
    gps_lat_micro: i64,
    gps_long_micro: i64,
    signal_strength: i8,
)
    requires
        a.last_submission_timestamp > 0,
        now - a.last_submission_timestamp < crate::COOLDOWN_SECONDS,
    ensures
        a.submit_outcome(now, gps_lat_micro, gps_long_micro, signal_strength) == Some(
            ErrorCode::CooldownNotMet,
        ),
{
}

/// Law: a submission exactly at the cooldown boundary is not rejected for
/// cooldown; when its measurements are valid and the daily cap allows it,
/// it is accepted.
pub proof fn lemma_cooldown_boundary_accepts(
    a: UserActivity,
    now: i64,
    gps_lat_micro: i64,
    gps_long_micro: i64,
    signal_strength: i8,
)
    requires
        a.last_submission_timestamp > 0,
        now - a.last_submission_timestamp >= crate::COOLDOWN_SECONDS,
        a.cap_ok(now),
        valid_latitude(gps_lat_micro),
        valid_longitude(gps_long_micro),
        valid_signal(signal_strength),
    ensures
        a.submit_outcome(now, gps_lat_micro, gps_long_micro, signal_strength) is None,
{
}

/// Law: a record already at the daily cap rejects a further submission in
/// the same day bucket as `DailyCapExceeded`, provided the cooldown check
/// (which is evaluated first) passes.
pub proof fn lemma_daily_cap_rejects(
    a: UserActivity,
    now: i64,
    gps_lat_micro: i64,
    gps_long_micro: i64,
    signal_strength: i8,
)
    requires
        a.cooldown_passed(now),
        a.same_day(now),
        a.daily_submissions >= crate::DAILY_SUBMISSION_CAP,
    ensures
        a.submit_outcome(now, gps_lat_micro, gps_long_micro, signal_strength) == Some(
            ErrorCode::DailyCapExceeded,
        ),
{
}

/// Law: an accepted submission in a new day bucket restarts the daily
/// counter at exactly one, however many submissions the previous bucket
/// held.
pub proof fn lemma_day_rollover_resets(
    a: UserActivity,
    now: i64,
    gps_lat_micro: i64,
    gps_long_micro: i64,
    signal_strength: i8,
)
    requires
        !a.same_day(now),
    ensures
        a.after_submit(now, gps_lat_micro, gps_long_micro, signal_strength).daily_submissions
            == 1,
{
}

/// Law: an accepted submission never moves the record backwards — the
/// submission timestamp is non-decreasing and the lifetime counter grows
/// by exactly one, while the reward accumulator is untouched.
pub proof fn lemma_accepted_submission_monotone(
    a: UserActivity,
    now: i64,
    gps_lat_micro: i64,
    gps_long_micro: i64,
    signal_strength: i8,
)
    requires
        a.wf(),
        0 <= now,
        a.total_submissions < u64::MAX,
        a.submit_outcome(now, gps_lat_micro, gps_long_micro, signal_strength) is None,
    ensures
        a.after_submit(
            now,
            gps_lat_micro,
            gps_long_micro,
            signal_strength,
        ).last_submission_timestamp >= a.last_submission_timestamp,
        a.after_submit(now, gps_lat_micro, gps_long_micro, signal_strength).total_submissions
            == a.total_submissions + 1,
        a.after_submit(now, gps_lat_micro, gps_long_micro, signal_strength).total_rewards_earned
            == a.total_rewards_earned,
{
}

/// Law: a pending submission younger than the minimum verification age is
/// rejected as `VerificationTooSoon`; from the boundary on, the reward is
/// owed.
pub proof fn lemma_verification_timing(a: UserActivity, now: i64)
    requires
        a.pending_verification,
    ensures
        now - a.last_submission_timestamp < crate::MIN_VERIFICATION_AGE ==> a.verify_outcome(now)
            == Some(ErrorCode::VerificationTooSoon),
        now - a.last_submission_timestamp >= crate::MIN_VERIFICATION_AGE ==> a.verify_outcome(now)
            is None,
{
}

/// Law: once a reward has been issued for a pending submission, any later
/// verification attempt fails as `NoPendingVerification` until a new
/// submission is accepted — a reward cannot be issued twice for one
/// pending cycle.
pub proof fn lemma_no_double_reward(a: UserActivity, now: i64, later: i64)
    requires
        a.verify_outcome(now) is None,
    ensures
        a.after_reward().verify_outcome(later) == Some(ErrorCode::NoPendingVerification),
{
}

} // verus!
