//! Counters describing how the update cycles have been going.

use vstd::prelude::*;

verus! {

/// Counters for one address family.
#[derive(Debug)]
pub struct IpVersionMetrics {
    /// Updates of this family that went through.
    pub successes: u64,
    /// Updates of this family that failed.
    pub failures: u64,
    /// The last address of this family written, as text.
    pub last_ip: Option<String>,
}

impl Default for IpVersionMetrics {
    /// Fresh counters.
    fn default() -> (r: Self)
        ensures
            r.successes == 0,
            r.failures == 0,
            r.last_ip is None,
    {
        IpVersionMetrics { successes: 0, failures: 0, last_ip: None }
    }
}

/// Counters over all record updates. Counters saturate at their type's limit
/// instead of wrapping.
#[derive(Debug)]
pub struct DnsMetrics {
    /// Updates attempted.
    pub update_attempts: u64,
    /// Updates that went through.
    pub update_successes: u64,
    /// Updates that failed.
    pub update_failures: u64,
    /// Records found already in line with the target.
    pub already_up_to_date: u64,
    /// Quota denials observed.
    pub rate_limit_hits: u64,
    /// Calls that ran out of time.
    pub timeouts: u64,
    /// When an update last went through.
    pub last_success: Option<u64>,
    /// When an update last failed.
    pub last_failure: Option<u64>,
    /// Counters of the 4th version's updates.
    pub ipv4: IpVersionMetrics,
    /// Counters of the 6th version's updates.
    pub ipv6: IpVersionMetrics,
}

impl Default for DnsMetrics {
    /// Fresh counters.
    fn default() -> (r: Self)
        ensures
            r.update_attempts == 0,
            r.update_successes == 0,
            r.update_failures == 0,
            r.already_up_to_date == 0,
            r.rate_limit_hits == 0,
            r.timeouts == 0,
            r.last_success is None,
            r.last_failure is None,
            r.ipv4.successes == 0 && r.ipv4.failures == 0 && r.ipv4.last_ip is None,
            r.ipv6.successes == 0 && r.ipv6.failures == 0 && r.ipv6.last_ip is None,
    {
        DnsMetrics {
            update_attempts: 0,
            update_successes: 0,
            update_failures: 0,
            already_up_to_date: 0,
            rate_limit_hits: 0,
            timeouts: 0,
            last_success: None,
            last_failure: None,
            ipv4: IpVersionMetrics::default(),
            ipv6: IpVersionMetrics::default(),
        }
    }
}

/// `a + 1` unless the counter is already at its limit.
pub open spec fn bump(a: u64) -> u64 {
    if a < u64::MAX {
        (a + 1) as u64
    } else {
        a
    }
}

fn bump_counter(a: u64) -> (r: u64)
    ensures
        r == bump(a),
{
    if a < u64::MAX {
        a + 1
    } else {
        a
    }
}

/// The keeper of the update counters.
#[derive(Debug)]
pub struct MetricsManager {
    /// The counters themselves.
    pub metrics: DnsMetrics,
}

impl MetricsManager {
    /// A manager with fresh counters.
    pub fn new() -> (r: Self)
        ensures
            r.metrics.update_attempts == 0,
            r.metrics.update_successes == 0,
            r.metrics.update_failures == 0,
            r.metrics.last_success is None,
            r.metrics.last_failure is None,
    {
        MetricsManager { metrics: DnsMetrics::default() }
    }

    /// Count one update that went through for the given family.
    pub fn record_success(&mut self, is_ipv6: bool, ip: String, now: u64)
        ensures
            final(self).metrics.update_attempts == bump(old(self).metrics.update_attempts),
            final(self).metrics.update_successes == bump(old(self).metrics.update_successes),
            final(self).metrics.update_failures == old(self).metrics.update_failures,
            final(self).metrics.last_success == Some(now),
            final(self).metrics.last_failure == old(self).metrics.last_failure,
            is_ipv6 ==> final(self).metrics.ipv6.successes == bump(old(self).metrics.ipv6.successes)
                && (match final(self).metrics.ipv6.last_ip {
                Some(s) => s@ == ip@,
                None => false,
            }) && final(self).metrics.ipv4 == old(self).metrics.ipv4,
            !is_ipv6 ==> final(self).metrics.ipv4.successes == bump(
                old(self).metrics.ipv4.successes,
            ) && (match final(self).metrics.ipv4.last_ip {
                Some(s) => s@ == ip@,
                None => false,
            }) && final(self).metrics.ipv6 == old(self).metrics.ipv6,
    {
        self.metrics.update_attempts = bump_counter(self.metrics.update_attempts);
        self.metrics.update_successes = bump_counter(self.metrics.update_successes);
        self.metrics.last_success = Some(now);
        if is_ipv6 {
            self.metrics.ipv6.successes = bump_counter(self.metrics.ipv6.successes);
            self.metrics.ipv6.last_ip = Some(ip);
        } else {
            self.metrics.ipv4.successes = bump_counter(self.metrics.ipv4.successes);
            self.metrics.ipv4.last_ip = Some(ip);
        }
    }

    /// Count one update that failed for the given family.
    pub fn record_failure(&mut self, is_ipv6: bool, now: u64)
        ensures
            final(self).metrics.update_attempts == bump(old(self).metrics.update_attempts),
            final(self).metrics.update_failures == bump(old(self).metrics.update_failures),
            final(self).metrics.update_successes == old(self).metrics.update_successes,
            final(self).metrics.last_failure == Some(now),
            final(self).metrics.last_success == old(self).metrics.last_success,
            is_ipv6 ==> final(self).metrics.ipv6.failures == bump(old(self).metrics.ipv6.failures)
                && final(self).metrics.ipv4 == old(self).metrics.ipv4,
            !is_ipv6 ==> final(self).metrics.ipv4.failures == bump(old(self).metrics.ipv4.failures)
                && final(self).metrics.ipv6 == old(self).metrics.ipv6,
    {
        self.metrics.update_attempts = bump_counter(self.metrics.update_attempts);
        self.metrics.update_failures = bump_counter(self.metrics.update_failures);
        self.metrics.last_failure = Some(now);
        if is_ipv6 {
            self.metrics.ipv6.failures = bump_counter(self.metrics.ipv6.failures);
        } else {
            self.metrics.ipv4.failures = bump_counter(self.metrics.ipv4.failures);
        }
    }

    /// Count one quota denial.
    pub fn record_rate_limit(&mut self)
        ensures
            final(self).metrics.rate_limit_hits == bump(old(self).metrics.rate_limit_hits),
            final(self).metrics.update_attempts == old(self).metrics.update_attempts,
            final(self).metrics.timeouts == old(self).metrics.timeouts,
    {
        self.metrics.rate_limit_hits = bump_counter(self.metrics.rate_limit_hits);
    }

    /// Count one call that ran out of time.
    pub fn record_timeout(&mut self)
        ensures
            final(self).metrics.timeouts == bump(old(self).metrics.timeouts),
            final(self).metrics.update_attempts == old(self).metrics.update_attempts,
            final(self).metrics.rate_limit_hits == old(self).metrics.rate_limit_hits,
    {
        self.metrics.timeouts = bump_counter(self.metrics.timeouts);
    }

    /// A copy of the current counters.
    pub fn get_snapshot(&self) -> (r: DnsMetrics)
        ensures
            r.update_attempts == self.metrics.update_attempts,
            r.update_successes == self.metrics.update_successes,
            r.update_failures == self.metrics.update_failures,
            r.already_up_to_date == self.metrics.already_up_to_date,
            r.rate_limit_hits == self.metrics.rate_limit_hits,
            r.timeouts == self.metrics.timeouts,
            r.last_success == self.metrics.last_success,
            r.last_failure == self.metrics.last_failure,
            r.ipv4.successes == self.metrics.ipv4.successes,
            r.ipv4.failures == self.metrics.ipv4.failures,
            r.ipv6.successes == self.metrics.ipv6.successes,
            r.ipv6.failures == self.metrics.ipv6.failures,
            match (r.ipv4.last_ip, self.metrics.ipv4.last_ip) {
                (Some(a), Some(b)) => a@ == b@,
                (None, None) => true,
                _ => false,
            },
            match (r.ipv6.last_ip, self.metrics.ipv6.last_ip) {
                (Some(a), Some(b)) => a@ == b@,
                (None, None) => true,
                _ => false,
            },
    {
        DnsMetrics {
            update_attempts: self.metrics.update_attempts,
            update_successes: self.metrics.update_successes,
            update_failures: self.metrics.update_failures,
            already_up_to_date: self.metrics.already_up_to_date,
            rate_limit_hits: self.metrics.rate_limit_hits,
            timeouts: self.metrics.timeouts,
            last_success: self.metrics.last_success,
            last_failure: self.metrics.last_failure,
            ipv4: IpVersionMetrics {
                successes: self.metrics.ipv4.successes,
                failures: self.metrics.ipv4.failures,
                last_ip: match &self.metrics.ipv4.last_ip {
                    Some(s) => Some(s.clone()),
                    None => None,
                },
            },
            ipv6: IpVersionMetrics {
                successes: self.metrics.ipv6.successes,
                failures: self.metrics.ipv6.failures,
                last_ip: match &self.metrics.ipv6.last_ip {
                    Some(s) => Some(s.clone()),
                    None => None,
                },
            },
        }
    }

    /// Count one record found already in line with the target.
    pub fn record_already_up_to_date(&mut self)
        ensures
            final(self).metrics.already_up_to_date == bump(old(self).metrics.already_up_to_date),
            final(self).metrics.update_attempts == old(self).metrics.update_attempts,
    {
        self.metrics.already_up_to_date = bump_counter(self.metrics.already_up_to_date);
    }
}

} // verus!
