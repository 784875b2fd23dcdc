//! Health tracking over consecutive operation outcomes.

use vstd::prelude::*;

verus! {

/// The service's health as last assessed.
#[derive(Debug)]
pub struct HealthStatus {
    /// Whether the service counts as healthy.
    pub healthy: bool,
    /// When an operation last went through.
    pub last_success: Option<u64>,
    /// When an operation last failed.
    pub last_failure: Option<u64>,
    /// The last failure's description, if any.
    pub error: Option<String>,
    /// Failures since the last success.
    pub consecutive_failures: u32,
}

impl Default for HealthStatus {
    /// A fresh status: healthy, with nothing recorded.
    fn default() -> (r: Self)
        ensures
            r.healthy == true,
            r.last_success is None,
            r.last_failure is None,
            r.error is None,
            r.consecutive_failures == 0,
    {
        HealthStatus {
            healthy: true,
            last_success: None,
            last_failure: None,
            error: None,
            consecutive_failures: 0,
        }
    }
}

/// When the checker declares the service unhealthy.
#[derive(Debug, Clone, Copy, PartialEq, Eq, Structural)]
pub struct HealthConfig {
    /// Consecutive failures allowed before the service counts as unhealthy.
    pub max_consecutive_failures: u32,
    /// Longest time without a success, in seconds, before the service counts
    /// as unhealthy.
    pub max_time_without_success: u64,
}

impl Default for HealthConfig {
    /// The stock thresholds: three failures in a row, or a quarter hour
    /// without a success.
    fn default() -> (r: Self)
        ensures
            r.max_consecutive_failures == 3,
            r.max_time_without_success == 900,
    {
        HealthConfig { max_consecutive_failures: 3, max_time_without_success: 900 }
    }
}

/// The keeper of the health status.
#[derive(Debug)]
pub struct HealthChecker {
    /// The status as last assessed.
    pub status: HealthStatus,
    /// The thresholds in force.
    pub config: HealthConfig,
}

impl HealthChecker {
    /// A checker with the stock thresholds.
    pub fn new() -> (r: Self)
        ensures
            r.status.healthy == true,
            r.status.consecutive_failures == 0,
            r.config.max_consecutive_failures == 3,
            r.config.max_time_without_success == 900,
    {
        Self::with_config(HealthConfig::default())
    }

    /// A checker with the given thresholds.
    pub fn with_config(config: HealthConfig) -> (r: Self)
        ensures
            r.status.healthy == true,
            r.status.last_success is None,
            r.status.last_failure is None,
            r.status.error is None,
            r.status.consecutive_failures == 0,
            r.config == config,
    {
        HealthChecker { status: HealthStatus::default(), config }
    }

    /// An operation went through: the service is healthy again and the
    /// failure streak is over.
    pub fn record_success(&mut self, now: u64)
        ensures
            final(self).status.healthy == true,
            final(self).status.last_success == Some(now),
            final(self).status.consecutive_failures == 0,
            final(self).status.error is None,
            final(self).status.last_failure == old(self).status.last_failure,
            final(self).config == old(self).config,
    {
        self.status.healthy = true;
        self.status.last_success = Some(now);
        self.status.consecutive_failures = 0;
        self.status.error = None;
    }

    /// An operation failed: extend the streak, keep the description, and
    /// declare the service unhealthy once the streak or the time without a
    /// success crosses its threshold.
    pub fn record_failure(&mut self, error: String, now: u64)
        ensures
            final(self).config == old(self).config,
            final(self).status.last_failure == Some(now),
            final(self).status.last_success == old(self).status.last_success,
            final(self).status.consecutive_failures == (if old(self).status.consecutive_failures
                < u32::MAX {
                old(self).status.consecutive_failures + 1
            } else {
                old(self).status.consecutive_failures as int
            }),
            match final(self).status.error {
                Some(e) => e@ == error@,
                None => false,
            },
            final(self).status.healthy == (old(self).status.healthy
                && !(final(self).status.consecutive_failures
                >= old(self).config.max_consecutive_failures) && !(
            match old(self).status.last_success {
                Some(t) => now > t && now - t > old(self).config.max_time_without_success,
                None => false,
            })),
    {
        self.status.last_failure = Some(now);
        if self.status.consecutive_failures < u32::MAX {
            self.status.consecutive_failures = self.status.consecutive_failures + 1;
        }
        self.status.error = Some(error);
        if self.status.consecutive_failures >= self.config.max_consecutive_failures {
            self.status.healthy = false;
        }
        match self.status.last_success {
            Some(t) => {
                if now > t && now - t > self.config.max_time_without_success {
                    self.status.healthy = false;
                }
            },
            None => {},
        }
    }

    /// A copy of the current status.
    pub fn get_status(&self) -> (r: HealthStatus)
        ensures
            r.healthy == self.status.healthy,
            r.last_success == self.status.last_success,
            r.last_failure == self.status.last_failure,
            r.consecutive_failures == self.status.consecutive_failures,
            match (r.error, self.status.error) {
                (Some(a), Some(b)) => a@ == b@,
                (None, None) => true,
                _ => false,
            },
    {
        HealthStatus {
            healthy: self.status.healthy,
            last_success: self.status.last_success,
            last_failure: self.status.last_failure,
            error: match &self.status.error {
                Some(e) => Some(e.clone()),
                None => None,
            },
            consecutive_failures: self.status.consecutive_failures,
        }
    }

    /// Whether the service currently counts as healthy.
    pub fn is_healthy(&self) -> (r: bool)
        ensures
            r == self.status.healthy,
    {
        self.status.healthy
    }
}

} // verus!
