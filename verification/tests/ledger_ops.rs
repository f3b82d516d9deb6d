use depin_lite::errors::ErrorCode;
use depin_lite::errors::LedgerError;
use depin_lite::ledger::Ledger;
use depin_lite::state::AccountId;
use depin_lite::state::UserActivity;
use depin_lite::DAILY_SUBMISSION_CAP;
use depin_lite::REWARD_AMOUNT;
use depin_lite::SECONDS_PER_DAY;

fn account(tag: u8) -> AccountId {
    AccountId { bytes: [tag; 32] }
}

fn fresh_initialized_ledger() -> Ledger {
    let mut ledger = Ledger::new();
    ledger.initialize(account(200), account(201)).unwrap();
    ledger
}

#[test]
fn cooldown_rejects_within_hour() {
    let mut ledger = fresh_initialized_ledger();
    let user = account(1);
    assert_eq!(ledger.submit_activity(user, 1000, 0, 0, -40), Ok(()));
    assert_eq!(
        ledger.submit_activity(user, 1000 + 3599, 0, 0, -40),
        Err(ErrorCode::CooldownNotMet)
    );
    // the rejected submission changed nothing
    assert_eq!(ledger.users[0].last_submission_timestamp, 1000);
    assert_eq!(ledger.users[0].total_submissions, 1);
}

#[test]
fn cooldown_boundary_succeeds() {
    let mut ledger = fresh_initialized_ledger();
    let user = account(1);
    assert_eq!(ledger.submit_activity(user, 1000, 0, 0, -40), Ok(()));
    assert_eq!(ledger.submit_activity(user, 1000 + 3600, 0, 0, -40), Ok(()));
    assert_eq!(ledger.users[0].last_submission_timestamp, 4600);
    assert_eq!(ledger.users[0].total_submissions, 2);
}

#[test]
fn daily_cap_allows_twenty_four() {
    let mut ledger = fresh_initialized_ledger();
    let user = account(1);
    let day_start: i64 = 10 * SECONDS_PER_DAY;
    for k in 0..24i64 {
        assert_eq!(ledger.submit_activity(user, day_start + k * 3600, 0, 0, -40), Ok(()));
    }
    assert_eq!(ledger.users[0].daily_submissions, DAILY_SUBMISSION_CAP);
}

#[test]
fn daily_cap_rejects_twenty_fifth_in_same_bucket() {
    // A record already at the cap, with the cooldown satisfied within the
    // same day bucket, rejects the next submission.
    let mut ledger = fresh_initialized_ledger();
    let day_start: i64 = 10 * SECONDS_PER_DAY;
    ledger.users.push(UserActivity {
        user: account(1),
        gps_lat_micro: 0,
        gps_long_micro: 0,
        signal_strength: -40,
        last_submission_timestamp: day_start,
        daily_submissions: 24,
        total_submissions: 24,
        total_rewards_earned: 0,
        pending_verification: true,
    });
    assert_eq!(
        ledger.submit_activity(account(1), day_start + 3600, 0, 0, -40),
        Err(ErrorCode::DailyCapExceeded)
    );
    assert_eq!(ledger.users[0].daily_submissions, 24);
}

#[test]
fn day_rollover_resets_counter_to_one() {
    let mut ledger = fresh_initialized_ledger();
    let day_start: i64 = 10 * SECONDS_PER_DAY;
    ledger.users.push(UserActivity {
        user: account(1),
        gps_lat_micro: 0,
        gps_long_micro: 0,
        signal_strength: -40,
        last_submission_timestamp: day_start + 5 * 3600,
        daily_submissions: 6,
        total_submissions: 6,
        total_rewards_earned: 0,
        pending_verification: true,
    });
    assert_eq!(ledger.submit_activity(account(1), day_start + SECONDS_PER_DAY, 0, 0, -40), Ok(()));
    assert_eq!(ledger.users[0].daily_submissions, 1);
    assert_eq!(ledger.users[0].total_submissions, 7);
}

#[test]
fn coordinates_out_of_range_rejected() {
    let mut ledger = fresh_initialized_ledger();
    // 90.0001 degrees north, in micro-degrees
    assert_eq!(
        ledger.submit_activity(account(1), 1000, 90_000_100, 0, -40),
        Err(ErrorCode::InvalidGpsCoordinates)
    );
    // -180.0001 degrees east, in micro-degrees
    assert_eq!(
        ledger.submit_activity(account(1), 1000, 0, -180_000_100, -40),
        Err(ErrorCode::InvalidGpsCoordinates)
    );
    // a rejected first submission creates no record
    assert_eq!(ledger.users.len(), 0);
}

#[test]
fn coordinate_boundaries_accepted() {
    let mut ledger = fresh_initialized_ledger();
    assert_eq!(
        ledger.submit_activity(account(1), 1000, -90_000_000, 180_000_000, -40),
        Ok(())
    );
    assert_eq!(ledger.users[0].gps_lat_micro, -90_000_000);
    assert_eq!(ledger.users[0].gps_long_micro, 180_000_000);
}

#[test]
fn signal_strength_validated() {
    let mut ledger = fresh_initialized_ledger();
    assert_eq!(
        ledger.submit_activity(account(1), 1000, 0, 0, 1),
        Err(ErrorCode::InvalidSignalStrength)
    );
    assert_eq!(ledger.submit_activity(account(1), 1000, 0, 0, 0), Ok(()));
    assert_eq!(ledger.submit_activity(account(2), 1000, 0, 0, -100), Ok(()));
}

#[test]
fn verification_too_soon_at_59_seconds() {
    let mut ledger = fresh_initialized_ledger();
    let user = account(1);
    assert_eq!(ledger.submit_activity(user, 1000, 0, 0, -40), Ok(()));
    assert_eq!(
        ledger.verify_and_reward(user, 1000 + 59),
        Err(LedgerError::Program(ErrorCode::VerificationTooSoon))
    );
    assert!(ledger.users[0].pending_verification);
    assert_eq!(ledger.users[0].total_rewards_earned, 0);
}

#[test]
fn verification_succeeds_at_60_seconds() {
    let mut ledger = fresh_initialized_ledger();
    let user = account(1);
    assert_eq!(ledger.submit_activity(user, 1000, 0, 0, -40), Ok(()));
    assert_eq!(ledger.verify_and_reward(user, 1000 + 60), Ok(REWARD_AMOUNT));
    assert!(!ledger.users[0].pending_verification);
    assert_eq!(ledger.users[0].total_rewards_earned, 5_000_000);
    assert_eq!(
        ledger.program_state.as_ref().unwrap().total_rewards_distributed,
        5_000_000
    );
}

#[test]
fn no_double_reward_for_one_pending_cycle() {
    let mut ledger = fresh_initialized_ledger();
    let user = account(1);
    assert_eq!(ledger.submit_activity(user, 1000, 0, 0, -40), Ok(()));
    assert_eq!(ledger.verify_and_reward(user, 1100), Ok(REWARD_AMOUNT));
    assert_eq!(
        ledger.verify_and_reward(user, 1101),
        Err(LedgerError::Program(ErrorCode::NoPendingVerification))
    );
    // minted exactly once
    assert_eq!(ledger.users[0].total_rewards_earned, 5_000_000);
    assert_eq!(
        ledger.program_state.as_ref().unwrap().total_rewards_distributed,
        5_000_000
    );
}

#[test]
fn verify_without_pending_submission_fails() {
    let mut ledger = fresh_initialized_ledger();
    // no record for the user at all
    assert_eq!(ledger.verify_and_reward(account(1), 1000), Err(LedgerError::NotFound));
}

#[test]
fn verify_before_initialize_fails() {
    let mut ledger = Ledger::new();
    assert_eq!(ledger.submit_activity(account(1), 1000, 0, 0, -40), Ok(()));
    assert_eq!(ledger.verify_and_reward(account(1), 1100), Err(LedgerError::NotFound));
}

#[test]
fn accounting_invariant_after_mixed_operations() {
    let mut ledger = fresh_initialized_ledger();
    assert_eq!(ledger.submit_activity(account(1), 1000, 1_000_000, 2_000_000, -40), Ok(()));
    assert_eq!(ledger.submit_activity(account(2), 1200, 3_000_000, 4_000_000, -50), Ok(()));
    assert_eq!(ledger.submit_activity(account(3), 1400, 5_000_000, 6_000_000, -60), Ok(()));
    assert_eq!(ledger.verify_and_reward(account(1), 2000), Ok(REWARD_AMOUNT));
    assert_eq!(ledger.verify_and_reward(account(3), 2000), Ok(REWARD_AMOUNT));
    // a later cycle for the first user
    assert_eq!(ledger.submit_activity(account(1), 1000 + 3600, 0, 0, -40), Ok(()));
    assert_eq!(ledger.verify_and_reward(account(1), 1000 + 3700), Ok(REWARD_AMOUNT));
    // one rejected operation on top
    assert_eq!(
        ledger.verify_and_reward(account(2), 1201),
        Err(LedgerError::Program(ErrorCode::VerificationTooSoon))
    );
    let earned_sum: u64 = ledger.users.iter().map(|u| u.total_rewards_earned).sum();
    assert_eq!(earned_sum, 3 * REWARD_AMOUNT);
    assert_eq!(
        ledger.program_state.as_ref().unwrap().total_rewards_distributed,
        earned_sum
    );
}

#[test]
fn reinitialization_fails_and_preserves_totals() {
    let mut ledger = fresh_initialized_ledger();
    assert_eq!(ledger.submit_activity(account(1), 1000, 0, 0, -40), Ok(()));
    assert_eq!(ledger.verify_and_reward(account(1), 1100), Ok(REWARD_AMOUNT));
    assert_eq!(
        ledger.initialize(account(210), account(211)),
        Err(LedgerError::AlreadyExists)
    );
    let state = ledger.program_state.as_ref().unwrap();
    assert_eq!(state.total_rewards_distributed, 5_000_000);
    assert_eq!(state.authority.bytes, account(200).bytes);
}

#[test]
fn create_map_mint_lifecycle() {
    let mut ledger = Ledger::new();
    // the program record the mint is bound to does not exist yet
    assert_eq!(ledger.create_map_mint(), Err(LedgerError::NotFound));
    ledger.initialize(account(200), account(201)).unwrap();
    assert_eq!(ledger.create_map_mint(), Ok(()));
    let mint = ledger.reward_mint.as_ref().unwrap();
    assert_eq!(mint.decimals, 6);
    assert!(mint.program_is_authority);
    assert_eq!(ledger.create_map_mint(), Err(LedgerError::AlreadyExists));
}

#[test]
fn error_messages_name_each_rule() {
    assert_eq!(
        ErrorCode::CooldownNotMet.message(),
        "Cooldown period not met. Wait 1 hour between submissions."
    );
    assert_eq!(
        ErrorCode::DailyCapExceeded.message(),
        "Daily submission cap exceeded. Maximum 24 submissions per day."
    );
    assert_eq!(
        ErrorCode::InvalidGpsCoordinates.message(),
        "Invalid GPS coordinates. Latitude must be -90 to 90, longitude -180 to 180."
    );
    assert_eq!(
        ErrorCode::InvalidSignalStrength.message(),
        "Invalid signal strength. Must be between -100 and 0 dBm."
    );
    assert_eq!(
        ErrorCode::NoPendingVerification.message(),
        "No pending verification for this user."
    );
    assert_eq!(
        ErrorCode::VerificationTooSoon.message(),
        "Verification too soon. Wait at least 1 minute after submission."
    );
}

#[test]
fn account_id_matches_compares_bytes() {
    let a = account(1);
    let b = account(1);
    let c = account(2);
    assert!(a.matches(&b));
    assert!(!a.matches(&c));
}
