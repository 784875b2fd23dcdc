use fariba_ddns::detector::IpDetection;
use fariba_ddns::health::{HealthChecker, HealthConfig};
use fariba_ddns::ip::{IpAddress, IpVersion};
use fariba_ddns::metrics::MetricsManager;
use fariba_ddns::orchestrator::{needed_versions, UpdateTracker};
use fariba_ddns::rate_limiter::RateLimitConfig;
use fariba_ddns::settings::{
    default_log_level, default_update_interval, Log, Settings, Update, ValidationError,
};
use fariba_ddns::sync::{CfConfig, CfSubDomain};

fn zone(enabled: bool, sub_policy: fariba_ddns::sync::IpVersion) -> CfConfig {
    CfConfig {
        enabled,
        name: "example.com".to_string(),
        zone_id: "zone-1".to_string(),
        api_token: "token-1".to_string(),
        rate_limit: RateLimitConfig { max_requests: 30, window_secs: 60 },
        subdomains: vec![CfSubDomain { name: "www".to_string(), ip_version: sub_policy }],
    }
}

fn settings() -> Settings {
    Settings {
        log: Log { level: "info".to_string() },
        update: Update { interval: 300 },
        cloudflare: vec![zone(true, fariba_ddns::sync::IpVersion::Both)],
        ip_detection: IpDetection {
            max_requests_per_hour: 200,
            min_consensus: 2,
            network_retry_interval: 30,
        },
    }
}

#[test]
fn settings_validation_accepts_the_stock_shape() {
    assert!(settings().validate().is_ok());
    assert_eq!(default_update_interval(), 300);
    assert_eq!(default_log_level(), "info");
}

#[test]
fn settings_validation_rejects_each_bad_field() {
    let mut s = settings();
    s.log.level = "verbose".to_string();
    assert!(matches!(s.validate(), Err(ValidationError::InvalidLogLevel(_))));
    let mut s = settings();
    s.log.level = "WARN".to_string();
    assert!(s.validate().is_ok(), "level matching ignores case");
    let mut s = settings();
    s.update.interval = 0;
    assert!(matches!(s.validate(), Err(ValidationError::InvalidUpdateInterval(0))));
    let mut s = settings();
    s.cloudflare = vec![zone(false, fariba_ddns::sync::IpVersion::Both)];
    assert!(matches!(s.validate(), Err(ValidationError::NoProvidersEnabled)));
    let mut s = settings();
    let mut bad = zone(true, fariba_ddns::sync::IpVersion::Both);
    bad.zone_id = String::new();
    s.cloudflare = vec![bad];
    assert!(matches!(s.validate(), Err(ValidationError::CloudflareConfig(_))));
    // A disabled zone may be arbitrarily broken.
    let mut s = settings();
    let mut broken = zone(false, fariba_ddns::sync::IpVersion::Both);
    broken.api_token = String::new();
    s.cloudflare.push(broken);
    assert!(s.validate().is_ok());
}

#[test]
fn settings_getters_hand_out_only_the_enabled_zones() {
    let mut s = settings();
    let mut disabled = zone(false, fariba_ddns::sync::IpVersion::Both);
    disabled.name = "off.example".to_string();
    s.cloudflare.insert(0, disabled);
    assert_eq!(s.get_log_level(), "info");
    assert_eq!(s.get_update_interval(), 300);
    // Disabled zones are filtered out; order of the enabled ones is kept.
    let zones = s.get_cloudflares();
    assert_eq!(zones.len(), 1);
    assert!(zones[0].enabled);
    assert_eq!(zones[0].name, "example.com");
    assert_eq!(zones[0].subdomains[0].name, "www");
}

#[test]
fn tracker_asks_for_sync_only_on_change() {
    let mut t = UpdateTracker::new();
    assert!(t.on_detected(IpAddress::V4(5)));
    assert!(!t.on_detected(IpAddress::V4(5)));
    assert!(t.on_detected(IpAddress::V4(6)));
    // The families are tracked independently.
    assert!(t.on_detected(IpAddress::V6(1)));
    assert!(!t.on_detected(IpAddress::V6(1)));
    assert!(!t.on_detected(IpAddress::V4(6)));
}

#[test]
fn needed_versions_follow_enabled_subdomain_policies() {
    let both = vec![zone(true, fariba_ddns::sync::IpVersion::Both)];
    assert_eq!(needed_versions(&both), (true, true));
    let v4_only = vec![zone(true, fariba_ddns::sync::IpVersion::V4)];
    assert_eq!(needed_versions(&v4_only), (true, false));
    let v6_only = vec![zone(true, fariba_ddns::sync::IpVersion::V6)];
    assert_eq!(needed_versions(&v6_only), (false, true));
    let disabled = vec![zone(false, fariba_ddns::sync::IpVersion::Both)];
    assert_eq!(needed_versions(&disabled), (false, false));
    let mixed = vec![
        zone(false, fariba_ddns::sync::IpVersion::Both),
        zone(true, fariba_ddns::sync::IpVersion::V6),
    ];
    assert_eq!(needed_versions(&mixed), (false, true));
    assert_eq!(needed_versions(&Vec::new()), (false, false));
}

#[test]
fn metrics_count_successes_failures_and_noise() {
    let mut m = MetricsManager::new();
    m.record_success(false, "203.0.113.5".to_string(), 100);
    m.record_success(true, "2001:db8::1".to_string(), 110);
    m.record_failure(false, 120);
    m.record_rate_limit();
    m.record_timeout();
    m.record_already_up_to_date();
    assert_eq!(m.metrics.update_attempts, 3);
    assert_eq!(m.metrics.update_successes, 2);
    assert_eq!(m.metrics.update_failures, 1);
    assert_eq!(m.metrics.rate_limit_hits, 1);
    assert_eq!(m.metrics.timeouts, 1);
    assert_eq!(m.metrics.already_up_to_date, 1);
    assert_eq!(m.metrics.last_success, Some(110));
    assert_eq!(m.metrics.last_failure, Some(120));
    assert_eq!(m.metrics.ipv4.successes, 1);
    assert_eq!(m.metrics.ipv4.failures, 1);
    assert_eq!(m.metrics.ipv4.last_ip.as_deref(), Some("203.0.113.5"));
    assert_eq!(m.metrics.ipv6.successes, 1);
    assert_eq!(m.metrics.ipv6.failures, 0);
    assert_eq!(m.metrics.ipv6.last_ip.as_deref(), Some("2001:db8::1"));
}

#[test]
fn snapshots_copy_the_counters_and_the_status() {
    let mut m = MetricsManager::new();
    m.record_success(false, "203.0.113.5".to_string(), 100);
    let snap = m.get_snapshot();
    assert_eq!(snap.update_attempts, 1);
    assert_eq!(snap.update_successes, 1);
    assert_eq!(snap.ipv4.last_ip.as_deref(), Some("203.0.113.5"));
    let mut h = HealthChecker::new();
    h.record_failure("down".to_string(), 5);
    let status = h.get_status();
    assert!(status.healthy);
    assert_eq!(status.last_failure, Some(5));
    assert_eq!(status.consecutive_failures, 1);
    assert_eq!(status.error.as_deref(), Some("down"));
}

#[test]
fn health_goes_bad_after_the_failure_threshold_and_recovers() {
    let mut h = HealthChecker::new();
    assert!(h.is_healthy());
    h.record_failure("one".to_string(), 10);
    h.record_failure("two".to_string(), 20);
    assert!(h.is_healthy());
    h.record_failure("three".to_string(), 30);
    assert!(!h.is_healthy());
    assert_eq!(h.status.consecutive_failures, 3);
    assert_eq!(h.status.error.as_deref(), Some("three"));
    h.record_success(40);
    assert!(h.is_healthy());
    assert_eq!(h.status.consecutive_failures, 0);
    assert_eq!(h.status.last_success, Some(40));
}

#[test]
fn health_goes_bad_when_success_is_too_long_ago() {
    let mut h = HealthChecker::with_config(HealthConfig {
        max_consecutive_failures: 100,
        max_time_without_success: 900,
    });
    h.record_success(1000);
    h.record_failure("late".to_string(), 1901);
    assert!(!h.is_healthy());
    let mut h2 = HealthChecker::with_config(HealthConfig {
        max_consecutive_failures: 100,
        max_time_without_success: 900,
    });
    h2.record_success(1000);
    h2.record_failure("in time".to_string(), 1900);
    assert!(h2.is_healthy());
}
