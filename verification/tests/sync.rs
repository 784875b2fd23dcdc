use fariba_ddns::ip::IpAddress;
use fariba_ddns::rate_limiter::RateLimitConfig;
use fariba_ddns::sync::{
    arvan_reconcile, check_api_token, default_rate_limit_config, summarize_updates, zone_is_active,
    ArvanPlan, CfConfig, CfSubDomain,
    CloudflareError, CloudflareValidationError, DnsResponseResult, IpVersion, SyncAction,
    SyncEvent, ZoneSyncMachine, MAX_SYNC_RETRIES, SYNC_RETRY_DELAY_SECS,
};

fn zone_config() -> CfConfig {
    CfConfig {
        enabled: true,
        name: "example.com".to_string(),
        zone_id: "zone-1".to_string(),
        api_token: "token-1".to_string(),
        rate_limit: RateLimitConfig { max_requests: 30, window_secs: 60 },
        subdomains: vec![CfSubDomain { name: "www".to_string(), ip_version: IpVersion::Both }],
    }
}

fn target() -> IpAddress {
    // 203.0.113.9
    IpAddress::V4(u32::from_be_bytes([203, 0, 113, 9]))
}

fn rec(id: &str, content: &str) -> DnsResponseResult {
    DnsResponseResult {
        id: id.to_string(),
        content: content.to_string(),
        record_type: "A".to_string(),
    }
}

fn active_zone(m: &mut ZoneSyncMachine) -> SyncAction {
    let a = m.step(SyncEvent::Start, 0);
    assert!(matches!(a, SyncAction::CheckZoneStatus));
    m.step(
        SyncEvent::ZoneStatus { http_status: 200, zone_status: "active".to_string() },
        1,
    )
}

#[test]
fn pending_zone_aborts_without_any_write() {
    let mut m = ZoneSyncMachine::new(zone_config(), target(), 0);
    let a = m.step(SyncEvent::Start, 0);
    assert!(matches!(a, SyncAction::CheckZoneStatus));
    let a = m.step(
        SyncEvent::ZoneStatus { http_status: 200, zone_status: "pending".to_string() },
        1,
    );
    match a {
        SyncAction::Done(Err(CloudflareError::InactiveZone(zone, status))) => {
            assert_eq!(zone, "example.com");
            assert_eq!(status, "pending");
        },
        other => panic!("expected the inactive-zone failure, got {:?}", other),
    }
    assert_eq!(m.update_count, 0);
    assert!(!m.zone_active);
}

#[test]
fn unauthorized_zone_lookup_fails_the_zone() {
    let mut m = ZoneSyncMachine::new(zone_config(), target(), 0);
    m.step(SyncEvent::Start, 0);
    let a = m.step(
        SyncEvent::ZoneStatus { http_status: 401, zone_status: String::new() },
        1,
    );
    assert!(matches!(a, SyncAction::Done(Err(CloudflareError::InvalidApiToken(_)))));
}

#[test]
fn differing_record_gets_exactly_one_patch_then_the_cache_invalidation() {
    // Provider holds 203.0.113.5, the target is 203.0.113.9.
    let mut m = ZoneSyncMachine::new(zone_config(), target(), 0);
    let a = active_zone(&mut m);
    match a {
        SyncAction::GetCachedRecord { domain } => assert_eq!(domain, "www.example.com"),
        other => panic!("expected the cache lookup, got {:?}", other),
    }
    let a = m.step(SyncEvent::CacheMiss, 2);
    assert!(matches!(a, SyncAction::FetchRecords { .. }));
    let a = m.step(
        SyncEvent::FetchedRecords { http_status: 200, records: vec![rec("rid-7", "203.0.113.5")] },
        3,
    );
    // The engine first remembers what the provider has...
    match a {
        SyncAction::InsertCache { domain, record_id, content } => {
            assert_eq!(domain, "www.example.com");
            assert_eq!(record_id, "rid-7");
            assert_eq!(content, IpAddress::V4(u32::from_be_bytes([203, 0, 113, 5])));
        },
        other => panic!("expected the cache insert, got {:?}", other),
    }
    // ...then issues exactly one patch carrying the new content.
    let a = m.step(SyncEvent::CacheDone, 4);
    match a {
        SyncAction::PatchRecord { record_id, content, .. } => {
            assert_eq!(record_id, "rid-7");
            assert_eq!(content, target());
        },
        other => panic!("expected the patch, got {:?}", other),
    }
    // The successful write is followed by the cache invalidation.
    let a = m.step(SyncEvent::WriteDone { http_status: 200, body: String::new() }, 5);
    match a {
        SyncAction::InvalidateCache { domain } => assert_eq!(domain, "www.example.com"),
        other => panic!("expected the invalidation, got {:?}", other),
    }
    // No second patch: the zone finishes well.
    let a = m.step(SyncEvent::CacheDone, 6);
    assert!(matches!(a, SyncAction::Done(Ok(()))));
    assert_eq!(m.update_count, 1);
}

#[test]
fn matching_record_causes_no_write() {
    let mut m = ZoneSyncMachine::new(zone_config(), target(), 0);
    active_zone(&mut m);
    m.step(SyncEvent::CacheMiss, 2);
    let a = m.step(
        SyncEvent::FetchedRecords { http_status: 200, records: vec![rec("rid-7", "203.0.113.9")] },
        3,
    );
    assert!(matches!(a, SyncAction::InsertCache { .. }));
    let a = m.step(SyncEvent::CacheDone, 4);
    assert!(matches!(a, SyncAction::Done(Ok(()))));
    assert_eq!(m.update_count, 1);
}

#[test]
fn missing_record_is_created() {
    let mut m = ZoneSyncMachine::new(zone_config(), target(), 0);
    active_zone(&mut m);
    m.step(SyncEvent::CacheMiss, 2);
    let a = m.step(SyncEvent::FetchedRecords { http_status: 200, records: Vec::new() }, 3);
    match a {
        SyncAction::CreateRecord { domain, content, .. } => {
            assert_eq!(domain, "www.example.com");
            assert_eq!(content, target());
        },
        other => panic!("expected the creation, got {:?}", other),
    }
    let a = m.step(SyncEvent::WriteDone { http_status: 200, body: String::new() }, 4);
    assert!(matches!(a, SyncAction::Done(Ok(()))));
    assert_eq!(m.update_count, 1);
}

#[test]
fn cache_hit_at_target_skips_the_network_entirely() {
    let mut m = ZoneSyncMachine::new(zone_config(), target(), 0);
    active_zone(&mut m);
    let a = m.step(SyncEvent::CacheHit { ip: target(), record_id: "rid-1".to_string() }, 2);
    assert!(matches!(a, SyncAction::Done(Ok(()))));
    assert_eq!(m.update_count, 1);
    // The zone's quota was never touched.
    assert_eq!(m.limiter.available, 30);
}

#[test]
fn stale_cache_hit_is_patched_and_invalidated() {
    let mut m = ZoneSyncMachine::new(zone_config(), target(), 0);
    active_zone(&mut m);
    let a = m.step(
        SyncEvent::CacheHit {
            ip: IpAddress::V4(u32::from_be_bytes([203, 0, 113, 5])),
            record_id: "rid-1".to_string(),
        },
        2,
    );
    match a {
        SyncAction::PatchRecord { record_id, content, .. } => {
            assert_eq!(record_id, "rid-1");
            assert_eq!(content, target());
        },
        other => panic!("expected the patch, got {:?}", other),
    }
    let a = m.step(SyncEvent::WriteDone { http_status: 200, body: String::new() }, 3);
    assert!(matches!(a, SyncAction::InvalidateCache { .. }));
    let a = m.step(SyncEvent::CacheDone, 4);
    assert!(matches!(a, SyncAction::Done(Ok(()))));
}

#[test]
fn failures_are_retried_out_of_a_shared_budget_then_surfaced() {
    let mut m = ZoneSyncMachine::new(zone_config(), target(), 0);
    active_zone(&mut m);
    let mut now = 2;
    // Each attempt: cache miss, fetch, server error; three retries granted.
    for expected_retry in 1..=MAX_SYNC_RETRIES {
        let a = m.step(SyncEvent::CacheMiss, now);
        assert!(matches!(a, SyncAction::FetchRecords { .. }));
        let a = m.step(
            SyncEvent::FetchedRecords { http_status: 500, records: Vec::new() },
            now + 1,
        );
        match a {
            SyncAction::SleepRetry { delay_secs } => assert_eq!(delay_secs, SYNC_RETRY_DELAY_SECS),
            other => panic!("expected a retry, got {:?}", other),
        }
        assert_eq!(m.retry_count, expected_retry);
        let a = m.step(SyncEvent::Slept, now + 2);
        assert!(matches!(a, SyncAction::GetCachedRecord { .. }));
        now += 3;
    }
    // The budget is spent: the fourth failure ends the subdomain and, it
    // being the only one, the zone reports the failure.
    let a = m.step(SyncEvent::CacheMiss, now);
    assert!(matches!(a, SyncAction::FetchRecords { .. }));
    let a = m.step(SyncEvent::FetchedRecords { http_status: 500, records: Vec::new() }, now + 1);
    assert!(matches!(a, SyncAction::Done(Err(CloudflareError::FetchFailed { .. }))));
    assert_eq!(m.update_count, 0);
}

#[test]
fn subdomains_not_matching_the_family_are_skipped() {
    let mut config = zone_config();
    config.subdomains = vec![
        CfSubDomain { name: "six".to_string(), ip_version: IpVersion::V6 },
        CfSubDomain { name: "four".to_string(), ip_version: IpVersion::V4 },
    ];
    let mut m = ZoneSyncMachine::new(config, target(), 0);
    let a = active_zone(&mut m);
    // The first subdomain only follows the 6th version: it is skipped.
    match a {
        SyncAction::GetCachedRecord { domain } => assert_eq!(domain, "four.example.com"),
        other => panic!("expected the second subdomain, got {:?}", other),
    }
}

#[test]
fn apex_subdomain_uses_the_zone_name() {
    let mut config = zone_config();
    config.subdomains = vec![CfSubDomain { name: String::new(), ip_version: IpVersion::Both }];
    let mut m = ZoneSyncMachine::new(config, target(), 0);
    let a = active_zone(&mut m);
    match a {
        SyncAction::GetCachedRecord { domain } => assert_eq!(domain, "example.com"),
        other => panic!("expected the apex lookup, got {:?}", other),
    }
}

#[test]
fn exhausted_zone_quota_counts_as_a_failed_attempt() {
    let mut config = zone_config();
    config.rate_limit = RateLimitConfig { max_requests: 0, window_secs: 60 };
    let mut m = ZoneSyncMachine::new(config, target(), 0);
    active_zone(&mut m);
    let a = m.step(SyncEvent::CacheMiss, 2);
    assert!(matches!(a, SyncAction::SleepRetry { .. }));
}

#[test]
fn placeholder_or_missing_tokens_never_reach_the_wire() {
    assert!(check_api_token(&zone_config()).is_ok());
    let mut c = zone_config();
    c.api_token = String::new();
    assert!(matches!(
        check_api_token(&c),
        Err(CloudflareError::InvalidApiToken(zone)) if zone == "example.com"
    ));
    let mut c = zone_config();
    c.api_token = "your_api_token_here".to_string();
    assert!(matches!(check_api_token(&c), Err(CloudflareError::InvalidApiToken(_))));
}

#[test]
fn zone_with_no_covered_subdomain_finishes_well_without_requests() {
    // The only subdomain follows the 6th version; the target is of the 4th.
    let mut config = zone_config();
    config.subdomains = vec![CfSubDomain { name: "six".to_string(), ip_version: IpVersion::V6 }];
    let mut m = ZoneSyncMachine::new(config, target(), 0);
    let a = active_zone(&mut m);
    assert!(matches!(a, SyncAction::Done(Ok(()))));
    assert_eq!(m.update_count, 0);
    // No provider request was ever issued: the quota is untouched.
    assert_eq!(m.limiter.available, 30);
}

#[test]
fn zone_status_failures_are_classified() {
    let mut m = ZoneSyncMachine::new(zone_config(), target(), 0);
    m.step(SyncEvent::Start, 0);
    let a = m.step(SyncEvent::ZoneStatus { http_status: 500, zone_status: String::new() }, 1);
    assert!(matches!(
        a,
        SyncAction::Done(Err(CloudflareError::FetchFailed { zone, .. })) if zone == "example.com"
    ));
    let mut m = ZoneSyncMachine::new(zone_config(), target(), 0);
    m.step(SyncEvent::Start, 0);
    let a = m.step(SyncEvent::NetworkError { message: "refused".to_string() }, 1);
    assert!(matches!(
        a,
        SyncAction::Done(Err(CloudflareError::FetchFailed { message, .. })) if message == "refused"
    ));
    let mut m = ZoneSyncMachine::new(zone_config(), target(), 0);
    m.step(SyncEvent::Start, 0);
    let a = m.step(SyncEvent::Timeout, 1);
    assert!(matches!(a, SyncAction::Done(Err(CloudflareError::Timeout { .. }))));
}

#[test]
fn permits_are_taken_for_calls_and_returned_after_them() {
    let mut m = ZoneSyncMachine::new(zone_config(), target(), 0);
    active_zone(&mut m);
    assert_eq!(m.limiter.available, 30);
    // The fetch takes a permit...
    let a = m.step(SyncEvent::CacheMiss, 2);
    assert!(matches!(a, SyncAction::FetchRecords { .. }));
    assert_eq!(m.limiter.available, 29);
    // ...which comes back once its outcome is in, even on failure.
    let a = m.step(SyncEvent::FetchedRecords { http_status: 500, records: Vec::new() }, 3);
    assert!(matches!(a, SyncAction::SleepRetry { .. }));
    assert_eq!(m.limiter.available, 30);
}

#[test]
fn unauthorized_writes_are_retried_as_classified_failures() {
    let mut m = ZoneSyncMachine::new(zone_config(), target(), 0);
    active_zone(&mut m);
    m.step(SyncEvent::CacheMiss, 2);
    // An unauthorized fetch counts as a failed attempt and is retried.
    let a = m.step(SyncEvent::FetchedRecords { http_status: 401, records: Vec::new() }, 3);
    assert!(matches!(a, SyncAction::SleepRetry { delay_secs: SYNC_RETRY_DELAY_SECS }));
    m.step(SyncEvent::Slept, 4);
    // A failed patch likewise.
    let a = m.step(
        SyncEvent::CacheHit {
            ip: IpAddress::V4(u32::from_be_bytes([203, 0, 113, 5])),
            record_id: "rid-1".to_string(),
        },
        5,
    );
    assert!(matches!(a, SyncAction::PatchRecord { .. }));
    let a = m.step(SyncEvent::WriteDone { http_status: 502, body: "bad gateway".to_string() }, 6);
    assert!(matches!(a, SyncAction::SleepRetry { .. }));
    assert_eq!(m.retry_count, 2);
}

#[test]
fn arvan_reconcile_follows_the_engine_rule() {
    assert!(matches!(arvan_reconcile(None, "203.0.113.9"), ArvanPlan::Create));
    assert!(matches!(
        arvan_reconcile(Some(("rid-1".to_string(), "203.0.113.9".to_string())), "203.0.113.9"),
        ArvanPlan::UpToDate
    ));
    assert!(matches!(
        arvan_reconcile(Some(("rid-1".to_string(), "203.0.113.5".to_string())), "203.0.113.9"),
        ArvanPlan::Patch { record_id } if record_id == "rid-1"
    ));
}

#[test]
fn zone_status_matching_ignores_ascii_case() {
    assert!(zone_is_active("active"));
    assert!(zone_is_active("Active"));
    assert!(zone_is_active("ACTIVE"));
    assert!(!zone_is_active("pending"));
    assert!(!zone_is_active("activex"));
    assert!(!zone_is_active(""));
}

#[test]
fn zone_config_validation_reports_the_first_problem() {
    assert!(zone_config().validate().is_ok());
    let mut c = zone_config();
    c.zone_id = "  ".to_string();
    assert!(matches!(c.validate(), Err(CloudflareValidationError::MissingZoneId)));
    let mut c = zone_config();
    c.api_token = String::new();
    assert!(matches!(c.validate(), Err(CloudflareValidationError::MissingApiToken)));
    let mut c = zone_config();
    c.name = "\t".to_string();
    assert!(matches!(c.validate(), Err(CloudflareValidationError::MissingName)));
    let mut c = zone_config();
    c.subdomains = Vec::new();
    assert!(matches!(c.validate(), Err(CloudflareValidationError::NoSubdomains)));
    let mut c = zone_config();
    c.rate_limit.max_requests = 0;
    assert!(matches!(c.validate(), Err(CloudflareValidationError::InvalidRateLimit(_))));
    let mut c = zone_config();
    c.rate_limit.window_secs = 0;
    assert!(matches!(c.validate(), Err(CloudflareValidationError::InvalidRateLimit(_))));
}

#[test]
fn update_batches_summarize_like_the_update_loop() {
    let outcomes: Vec<Result<(), CloudflareError>> = vec![
        Err(CloudflareError::UpdateTimeout),
        Ok(()),
    ];
    assert_eq!(summarize_updates(&outcomes), Ok(1));
    let all_failed: Vec<Result<(), CloudflareError>> = vec![
        Err(CloudflareError::UpdateTimeout),
        Err(CloudflareError::RateLimitExceeded),
    ];
    assert_eq!(summarize_updates(&all_failed), Err(1));
    let none: Vec<Result<(), CloudflareError>> = Vec::new();
    assert_eq!(summarize_updates(&none), Ok(0));
    let d = default_rate_limit_config();
    assert_eq!(d.max_requests, 30);
    assert_eq!(d.window_secs, 60);
}
