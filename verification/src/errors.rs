use vstd::prelude::*;

verus! {

/// The rule violations that a ledger operation can report.
///
/// Each variant names exactly one failing check of the submission or
/// verification state machine; an operation reports the first one whose
/// check fails, in the order the checks are evaluated.
#[derive(Clone, Copy, Debug, PartialEq, Eq, Structural)]
pub enum ErrorCode {
    /// Less than the cooldown period has passed since the last accepted
    /// submission.
    CooldownNotMet,
    /// The daily submission cap was already reached within the current
    /// day bucket.
    DailyCapExceeded,
    /// Latitude outside [-90, 90] degrees or longitude outside
    /// [-180, 180] degrees.
    InvalidGpsCoordinates,
    /// Signal strength outside [-100, 0] dBm.
    InvalidSignalStrength,
    /// No submission is awaiting verification for this user.
    NoPendingVerification,
    /// The pending submission is younger than the minimum verification age.
    VerificationTooSoon,
}

impl ErrorCode {
    /// The human-readable description of the failure.
    pub fn message(&self) -> (m: &'static str)
        ensures
            m@ == match *self {
                ErrorCode::CooldownNotMet => "Cooldown period not met. Wait 1 hour between submissions."@,
                ErrorCode::DailyCapExceeded => "Daily submission cap exceeded. Maximum 24 submissions per day."@,
                ErrorCode::InvalidGpsCoordinates => "Invalid GPS coordinates. Latitude must be -90 to 90, longitude -180 to 180."@,
                ErrorCode::InvalidSignalStrength => "Invalid signal strength. Must be between -100 and 0 dBm."@,
                ErrorCode::NoPendingVerification => "No pending verification for this user."@,
                ErrorCode::VerificationTooSoon => "Verification too soon. Wait at least 1 minute after submission."@,
            },
    {
        match *self {
            ErrorCode::CooldownNotMet => "Cooldown period not met. Wait 1 hour between submissions.",
            ErrorCode::DailyCapExceeded => "Daily submission cap exceeded. Maximum 24 submissions per day.",
            ErrorCode::InvalidGpsCoordinates => "Invalid GPS coordinates. Latitude must be -90 to 90, longitude -180 to 180.",
            ErrorCode::InvalidSignalStrength => "Invalid signal strength. Must be between -100 and 0 dBm.",
            ErrorCode::NoPendingVerification => "No pending verification for this user.",
            ErrorCode::VerificationTooSoon => "Verification too soon. Wait at least 1 minute after submission.",
        }
    }
}

/// A failure of a ledger operation: either a storage-layer condition,
/// surfaced unchanged, or a rule violation of the state machine.
#[derive(Clone, Copy, Debug, PartialEq, Eq, Structural)]
pub enum LedgerError {
    /// The record to be created already exists at its derived address.
    AlreadyExists,
    /// The record to be read does not exist at its derived address.
    NotFound,
    /// A check of the state machine failed.
    Program(ErrorCode),
}

} // verus!
