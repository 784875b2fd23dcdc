//! The application settings and their validation.

use vstd::prelude::*;
use vstd::string::StringSliceAdditionalSpecFns;
use vstd::utf8::encode_utf8;

use crate::detector::{valid_ip_detection, IpDetection, IpDetectionValidationError};
use crate::rate_limiter::RateLimitConfig;
use crate::sync::{valid_cf_config, CfConfig, CfSubDomain, CloudflareValidationError};
use crate::text::{eq_ignore_case, str_eq_ignore_case};

verus! {

/// Logging configuration.
#[derive(Debug, Clone)]
pub struct Log {
    /// The log level name, matched case-insensitively.
    pub level: String,
}

/// Update scheduling configuration.
#[derive(Debug, Clone)]
pub struct Update {
    /// Seconds between detection cycles.
    pub interval: u64,
}

/// Everything the service is configured with.
#[derive(Debug)]
pub struct Settings {
    pub log: Log,
    pub update: Update,
    pub cloudflare: Vec<CfConfig>,
    pub ip_detection: IpDetection,
}

pub fn default_update_interval() -> (r: u64)
    ensures
        r == 300,
{
    300
}

pub fn default_log_level() -> (r: String)
    ensures
        r@ == "info"@,
{
    "info".to_owned()
}

/// What a rejected settings file was rejected for.
#[derive(Debug, Clone)]
pub enum ValidationError {
    InvalidLogLevel(String),
    InvalidUpdateInterval(u64),
    NoProvidersEnabled,
    CloudflareConfig(CloudflareValidationError),
    IpDetectionConfig(IpDetectionValidationError),
}

/// A known log level name, compared without regard to ASCII case.
pub open spec fn valid_log_level(level: Seq<u8>) -> bool {
    ||| eq_ignore_case(level, encode_utf8("error"@))
    ||| eq_ignore_case(level, encode_utf8("warn"@))
    ||| eq_ignore_case(level, encode_utf8("info"@))
    ||| eq_ignore_case(level, encode_utf8("debug"@))
    ||| eq_ignore_case(level, encode_utf8("trace"@))
}

/// Some configured zone takes part in updates.
pub open spec fn has_enabled_provider(configs: Seq<CfConfig>) -> bool {
    exists|i: int| 0 <= i < configs.len() && (#[trigger] configs[i]).enabled
}

/// Settings the service can run on: a known log level, a nonzero interval,
/// at least one enabled zone, and every enabled zone well-configured.
pub open spec fn valid_settings(s: Settings) -> bool {
    &&& valid_log_level(encode_utf8(s.log.level@))
    &&& s.update.interval > 0
    &&& has_enabled_provider(s.cloudflare@)
    &&& forall|i: int|
        0 <= i < s.cloudflare@.len() && (#[trigger] s.cloudflare@[i]).enabled ==> valid_cf_config(
            s.cloudflare@[i],
        )
}

impl Settings {
    /// The configured log level name, as written.
    pub fn get_log_level(&self) -> (r: String)
        ensures
            r@ == self.log.level@,
    {
        self.log.level.clone()
    }

    /// Seconds between detection cycles.
    pub fn get_update_interval(&self) -> (r: u64)
        ensures
            r == self.update.interval,
    {
        self.update.interval
    }

    /// Reject settings with an unknown log level, a zero interval, no enabled
    /// zone, or an enabled zone that is itself invalid.
    pub fn validate(&self) -> (r: Result<(), ValidationError>)
        ensures
            r is Ok <==> valid_settings(*self),
            match r {
                Ok(_) => valid_settings(*self),
                Err(ValidationError::InvalidLogLevel(_)) => !valid_log_level(
                    encode_utf8(self.log.level@),
                ),
                Err(ValidationError::InvalidUpdateInterval(v)) => valid_log_level(
                    encode_utf8(self.log.level@),
                ) && self.update.interval == 0 && v == self.update.interval,
                Err(ValidationError::NoProvidersEnabled) => valid_log_level(
                    encode_utf8(self.log.level@),
                ) && self.update.interval > 0 && !has_enabled_provider(self.cloudflare@),
                Err(ValidationError::CloudflareConfig(_)) => exists|i: int|
                    0 <= i < self.cloudflare@.len() && (#[trigger] self.cloudflare@[i]).enabled
                        && !valid_cf_config(self.cloudflare@[i]),
                Err(ValidationError::IpDetectionConfig(_)) => false,
            },
    {
        let lvl: &str = self.log.level.as_str();
        let known: bool = str_eq_ignore_case(lvl, "error") || str_eq_ignore_case(lvl, "warn")
            || str_eq_ignore_case(lvl, "info") || str_eq_ignore_case(lvl, "debug")
            || str_eq_ignore_case(lvl, "trace");
        if !known {
            return Err(ValidationError::InvalidLogLevel(self.log.level.clone()));
        }
        if self.update.interval == 0 {
            return Err(ValidationError::InvalidUpdateInterval(self.update.interval));
        }
        let mut any_enabled: bool = false;
        let mut i: usize = 0;
        while i < self.cloudflare.len()
            invariant
                0 <= i <= self.cloudflare@.len(),
                any_enabled == exists|j: int|
                    0 <= j < i && (#[trigger] self.cloudflare@[j]).enabled,
            decreases self.cloudflare@.len() - i,
        {
            if self.cloudflare[i].enabled {
                any_enabled = true;
            }
            i = i + 1;
        }
        if !any_enabled {
            return Err(ValidationError::NoProvidersEnabled);
        }
        let mut k: usize = 0;
        while k < self.cloudflare.len()
            invariant
                0 <= k <= self.cloudflare@.len(),
                forall|j: int|
                    0 <= j < k && (#[trigger] self.cloudflare@[j]).enabled ==> valid_cf_config(
                        self.cloudflare@[j],
                    ),
            decreases self.cloudflare@.len() - k,
        {
            if self.cloudflare[k].enabled {
                match self.cloudflare[k].validate() {
                    Ok(_) => {},
                    Err(e) => {
                        return Err(ValidationError::CloudflareConfig(e));
                    },
                }
            }
            k = k + 1;
        }
        Ok(())
    }
}

/// Zone configurations agree field by field.
pub open spec fn cf_config_eq(a: CfConfig, b: CfConfig) -> bool {
    &&& a.enabled == b.enabled
    &&& a.name@ == b.name@
    &&& a.zone_id@ == b.zone_id@
    &&& a.api_token@ == b.api_token@
    &&& a.rate_limit == b.rate_limit
    &&& a.subdomains@.len() == b.subdomains@.len()
    &&& forall|i: int|
        0 <= i < a.subdomains@.len() ==> (#[trigger] a.subdomains@[i]).name@
            == b.subdomains@[i].name@ && a.subdomains@[i].ip_version == b.subdomains@[i].ip_version
}

/// An exact copy of one zone configuration.
pub fn clone_cf_config(c: &CfConfig) -> (r: CfConfig)
    ensures
        cf_config_eq(r, *c),
{
    let mut subdomains: Vec<CfSubDomain> = Vec::new();
    let mut i: usize = 0;
    while i < c.subdomains.len()
        invariant
            0 <= i <= c.subdomains@.len(),
            subdomains@.len() == i,
            forall|j: int|
                0 <= j < i ==> (#[trigger] subdomains@[j]).name@ == c.subdomains@[j].name@
                    && subdomains@[j].ip_version == c.subdomains@[j].ip_version,
        decreases c.subdomains@.len() - i,
    {
        subdomains.push(
            CfSubDomain {
                name: c.subdomains[i].name.clone(),
                ip_version: c.subdomains[i].ip_version,
            },
        );
        i = i + 1;
    }
    CfConfig {
        enabled: c.enabled,
        name: c.name.clone(),
        zone_id: c.zone_id.clone(),
        api_token: c.api_token.clone(),
        rate_limit: RateLimitConfig {
            max_requests: c.rate_limit.max_requests,
            window_secs: c.rate_limit.window_secs,
        },
        subdomains,
    }
}

/// The zones that take part in updates, in configuration order.
pub open spec fn enabled_zones(s: Seq<CfConfig>) -> Seq<CfConfig>
    decreases s.len(),
{
    if s.len() == 0 {
        Seq::empty()
    } else {
        let rest = enabled_zones(s.drop_last());
        if s.last().enabled {
            rest.push(s.last())
        } else {
            rest
        }
    }
}

impl Settings {
    /// Copies of exactly the enabled zones, in configuration order, for the
    /// update loop to hold; disabled zones are never handed out.
    pub fn get_cloudflares(&self) -> (r: Vec<CfConfig>)
        ensures
            r@.len() == enabled_zones(self.cloudflare@).len(),
            forall|i: int|
                0 <= i < r@.len() ==> cf_config_eq(
                    #[trigger] r@[i],
                    enabled_zones(self.cloudflare@)[i],
                ) && r@[i].enabled,
    {
        let mut out: Vec<CfConfig> = Vec::new();
        let mut i: usize = 0;
        while i < self.cloudflare.len()
            invariant
                0 <= i <= self.cloudflare@.len(),
                out@.len() == enabled_zones(self.cloudflare@.take(i as int)).len(),
                forall|j: int|
                    0 <= j < out@.len() ==> cf_config_eq(
                        #[trigger] out@[j],
                        enabled_zones(self.cloudflare@.take(i as int))[j],
                    ) && out@[j].enabled,
            decreases self.cloudflare@.len() - i,
        {
            proof {
                assert(self.cloudflare@.take(i + 1).drop_last() =~= self.cloudflare@.take(i as int));
                assert(self.cloudflare@.take(i + 1).last() == self.cloudflare@[i as int]);
            }
            if self.cloudflare[i].enabled {
                out.push(clone_cf_config(&self.cloudflare[i]));
            }
            i = i + 1;
        }
        proof {
            assert(self.cloudflare@.take(i as int) =~= self.cloudflare@);
        }
        out
    }
}

} // verus!
