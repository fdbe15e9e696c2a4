//! Business-profile configuration values with their own logic: the card
//! testing guard defaults and the revenue-recovery monitoring threshold.

use vstd::prelude::*;

verus! {

pub const DEFAULT_CARD_IP_BLOCKING_STATUS: bool = false;

pub const DEFAULT_CARD_IP_BLOCKING_THRESHOLD: i32 = 3;

pub const DEFAULT_GUEST_USER_CARD_BLOCKING_STATUS: bool = false;

pub const DEFAULT_GUEST_USER_CARD_BLOCKING_THRESHOLD: i32 = 10;

pub const DEFAULT_CUSTOMER_ID_BLOCKING_STATUS: bool = false;

pub const DEFAULT_CUSTOMER_ID_BLOCKING_THRESHOLD: i32 = 5;

pub const DEFAULT_CARD_TESTING_GUARD_EXPIRY_IN_SECS: i32 = 3600;

/// Switches and thresholds of the card-testing guard of a business profile.
#[derive(Clone, Copy, Debug, PartialEq, Eq)]
pub struct CardTestingGuardConfig {
    pub is_card_ip_blocking_enabled: bool,
    pub card_ip_blocking_threshold: i32,
    pub is_guest_user_card_blocking_enabled: bool,
    pub guest_user_card_blocking_threshold: i32,
    pub is_customer_id_blocking_enabled: bool,
    pub customer_id_blocking_threshold: i32,
    pub card_testing_guard_expiry: i32,
}

impl Default for CardTestingGuardConfig {
    /// All blocking disabled, with the platform's default thresholds and a
    /// one-hour guard expiry.
    fn default() -> (r: Self)
        ensures
            r.is_card_ip_blocking_enabled == DEFAULT_CARD_IP_BLOCKING_STATUS,
            r.card_ip_blocking_threshold == DEFAULT_CARD_IP_BLOCKING_THRESHOLD,
            r.is_guest_user_card_blocking_enabled == DEFAULT_GUEST_USER_CARD_BLOCKING_STATUS,
            r.guest_user_card_blocking_threshold == DEFAULT_GUEST_USER_CARD_BLOCKING_THRESHOLD,
            r.is_customer_id_blocking_enabled == DEFAULT_CUSTOMER_ID_BLOCKING_STATUS,
            r.customer_id_blocking_threshold == DEFAULT_CUSTOMER_ID_BLOCKING_THRESHOLD,
            r.card_testing_guard_expiry == DEFAULT_CARD_TESTING_GUARD_EXPIRY_IN_SECS,
    {
        CardTestingGuardConfig {
            is_card_ip_blocking_enabled: DEFAULT_CARD_IP_BLOCKING_STATUS,
            card_ip_blocking_threshold: DEFAULT_CARD_IP_BLOCKING_THRESHOLD,
            is_guest_user_card_blocking_enabled: DEFAULT_GUEST_USER_CARD_BLOCKING_STATUS,
            guest_user_card_blocking_threshold: DEFAULT_GUEST_USER_CARD_BLOCKING_THRESHOLD,
            is_customer_id_blocking_enabled: DEFAULT_CUSTOMER_ID_BLOCKING_STATUS,
            customer_id_blocking_threshold: DEFAULT_CUSTOMER_ID_BLOCKING_THRESHOLD,
            card_testing_guard_expiry: DEFAULT_CARD_TESTING_GUARD_EXPIRY_IN_SECS,
        }
    }
}

/// Relies on time::OffsetDateTime::now_utc and unix_timestamp: the current
/// wall-clock time as whole seconds since the unix epoch. Nothing more can
/// be promised of a clock reading.
#[verifier::external_body]
fn now_unix_seconds() -> i64 {
    time::OffsetDateTime::now_utc().unix_timestamp()
}

/// When revenue-recovery monitoring was configured for a profile, as a unix
/// timestamp in seconds.
#[derive(Clone, Copy, Debug, PartialEq, Eq)]
pub struct RevenueRecoveryAlgorithmData {
    pub monitoring_configured_timestamp: i64,
}

/// Whether a monitoring window that opened at `configured_unix` and lasts
/// `threshold_seconds` has closed by `now_unix`.
pub open spec fn spec_threshold_exceeded(
    now_unix: i64,
    configured_unix: i64,
    threshold_seconds: i64,
) -> bool {
    now_unix >= configured_unix + threshold_seconds
}

impl RevenueRecoveryAlgorithmData {
    /// Whether the monitoring window has closed by the given instant. The
    /// comparison is exact: the sum is taken over the full integers, never
    /// wrapped.
    pub fn threshold_exceeded_at(&self, now_unix: i64, threshold_seconds: i64) -> (r: bool)
        ensures
            r == spec_threshold_exceeded(
                now_unix,
                self.monitoring_configured_timestamp,
                threshold_seconds,
            ),
    {
        let total: i128 = self.monitoring_configured_timestamp as i128 + threshold_seconds as i128;
        now_unix as i128 >= total
    }

    /// Whether the monitoring window has closed by now. The clock reading is
    /// the one effect; the decision it feeds is `threshold_exceeded_at`,
    /// which is exact for every instant.
    pub fn has_exceeded_monitoring_threshold(&self, monitoring_threshold_in_seconds: i64) -> bool {
        let now = now_unix_seconds();
        self.threshold_exceeded_at(now, monitoring_threshold_in_seconds)
    }
}

} // verus!
