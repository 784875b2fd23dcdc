use fariba_ddns::detector::{
    default_max_requests_per_hour, default_min_consensus, default_network_retry_interval,
    extract_ip, ipv4_services, ipv6_services, parse_ip_response, validate_ip_version, CycleStep,
    DetectionCycle, IpDetection, IpDetectionError, IpDetectionValidationError, IpDetector,
    IpResponse, IpService, VersionSuspension, MAX_CONSECUTIVE_FAILURES, RETRY_DELAY_MS,
    SUSPENSION_DURATION_SECS,
};
use fariba_ddns::ip::{IpAddress, IpVersion};

fn v4(a: u8, b: u8, c: u8, d: u8) -> IpAddress {
    IpAddress::V4(u32::from_be_bytes([a, b, c, d]))
}

fn service(url: &str, primary: bool) -> IpService {
    IpService { base_url: url.to_string(), path: String::new(), is_primary: primary }
}

/// A hand-built cycle: three primaries and two secondaries, threshold two.
fn test_cycle(min_consensus: u32) -> DetectionCycle {
    DetectionCycle {
        version: IpVersion::V4,
        min_consensus,
        services: vec![
            service("https://one.test", true),
            service("https://two.test", true),
            service("https://three.test", true),
            service("https://four.test", false),
            service("https://five.test", false),
        ],
        limiter_offset: 0,
        pos: 0,
        attempt: 0,
        responses: Vec::new(),
    }
}

#[test]
fn response_bodies_resolve_as_literals_or_json() {
    assert_eq!(extract_ip(b"203.0.113.5"), Some(v4(203, 0, 113, 5)));
    assert_eq!(extract_ip(b"  203.0.113.5\n"), Some(v4(203, 0, 113, 5)));
    assert_eq!(extract_ip(b"{\"ip\":\"203.0.113.5\"}"), Some(v4(203, 0, 113, 5)));
    assert_eq!(extract_ip(b"{\"address\":\"198.51.100.7\"}"), Some(v4(198, 51, 100, 7)));
    assert_eq!(extract_ip(b"{\"ipAddress\":\"192.0.2.1\"}"), Some(v4(192, 0, 2, 1)));
    assert_eq!(extract_ip(b"{\"query\":\"192.0.2.9\"}"), Some(v4(192, 0, 2, 9)));
    assert_eq!(extract_ip(b"{\"other\":\"192.0.2.9\"}"), None);
    assert_eq!(extract_ip(b"no address here"), None);
    // The earliest known field that parses wins.
    assert_eq!(
        extract_ip(b"{\"query\":\"192.0.2.9\",\"ip\":\"203.0.113.5\"}"),
        Some(v4(203, 0, 113, 5))
    );
    // A known field that does not parse falls through to the next.
    assert_eq!(
        extract_ip(b"{\"ip\":\"not-an-ip\",\"address\":\"192.0.2.1\"}"),
        Some(v4(192, 0, 2, 1))
    );
    // An unparseable JSON body falls back to the literal reading and fails.
    assert_eq!(extract_ip(b"{broken"), None);
    assert_eq!(extract_ip(b"{\"ip\": \"::1\"}"), Some(IpAddress::V6(1)));
}

#[test]
fn wrong_family_is_rejected_not_counted() {
    let r = parse_ip_response(b"::1", IpVersion::V4, "svc");
    match r {
        Err(IpDetectionError::VersionMismatch { service, expected, got }) => {
            assert_eq!(service, "svc");
            assert_eq!(expected, IpVersion::V4);
            assert_eq!(got, IpVersion::V6);
        },
        _ => panic!("expected a family mismatch"),
    }
    assert!(matches!(
        validate_ip_version(IpAddress::V6(1), IpVersion::V4, "svc"),
        Err(IpDetectionError::VersionMismatch { .. })
    ));
    assert!(matches!(
        validate_ip_version(v4(1, 2, 3, 4), IpVersion::V4, "svc"),
        Ok(ip) if ip == v4(1, 2, 3, 4)
    ));
}

#[test]
fn unreadable_body_is_a_parse_error() {
    assert!(matches!(
        parse_ip_response(b"junk", IpVersion::V4, "svc"),
        Err(IpDetectionError::ParseError { .. })
    ));
}

#[test]
fn consensus_two_of_three_primaries_without_secondaries() {
    // Three primaries, threshold two: two agree, one times out. Detection
    // succeeds without ever reaching a secondary service.
    let mut cycle = test_cycle(2);
    assert_eq!(cycle.on_response_body(b"203.0.113.5"), CycleStep::NextService);
    // The second primary times out twice and is given up on.
    assert_eq!(cycle.on_query_failure(), CycleStep::Retry { delay_ms: RETRY_DELAY_MS });
    assert_eq!(cycle.on_query_failure(), CycleStep::NextService);
    // The third primary agrees: consensus, immediately.
    match cycle.on_response_body(b"203.0.113.5") {
        CycleStep::Consensus(ip) => assert_eq!(ip, v4(203, 0, 113, 5)),
        other => panic!("expected consensus, got {:?}", other),
    }
    // Only the three primaries were consulted.
    assert_eq!(cycle.pos, 2);
    assert!(!cycle.exhausted());
    assert!(cycle.services[cycle.pos].is_primary);
}

#[test]
fn wrong_family_answers_never_win_consensus() {
    let mut cycle = test_cycle(2);
    // Two services answer with the same address of the wrong family: each is
    // treated as a failed attempt, and nothing enters the tally.
    assert_eq!(cycle.on_response_body(b"::1"), CycleStep::Retry { delay_ms: RETRY_DELAY_MS });
    assert_eq!(cycle.on_response_body(b"::1"), CycleStep::NextService);
    assert_eq!(cycle.on_response_body(b"::1"), CycleStep::Retry { delay_ms: RETRY_DELAY_MS });
    assert_eq!(cycle.on_response_body(b"::1"), CycleStep::NextService);
    assert_eq!(cycle.responses.len(), 0);
}

#[test]
fn rate_limited_services_are_skipped_without_retry() {
    let mut cycle = test_cycle(2);
    cycle.on_rate_limited();
    assert_eq!(cycle.pos, 1);
    assert_eq!(cycle.attempt, 0);
}

#[test]
fn exhausted_cycle_reports_what_it_saw() {
    let mut cycle = test_cycle(2);
    cycle.services = vec![service("https://one.test", true), service("https://two.test", true)];
    assert_eq!(cycle.on_response_body(b"203.0.113.5"), CycleStep::NextService);
    assert_eq!(cycle.on_response_body(b"203.0.113.9"), CycleStep::NextService);
    assert!(cycle.exhausted());
    match cycle.outcome() {
        IpDetectionError::ConsensusNotReached { responses, required } => {
            assert_eq!(responses, 2);
            assert_eq!(required, 2);
        },
        other => panic!("expected a consensus failure, got {:?}", other),
    }
    let mut empty = test_cycle(2);
    empty.services = Vec::new();
    assert!(empty.exhausted());
    assert!(matches!(empty.outcome(), IpDetectionError::NoServicesAvailable));
}

#[test]
fn five_failed_cycles_suspend_detection_until_the_window_elapses() {
    let mut detector = IpDetector::new(
        IpDetection {
            max_requests_per_hour: 100,
            min_consensus: 2,
            network_retry_interval: 30,
        },
        1000,
    );
    assert_eq!(MAX_CONSECUTIVE_FAILURES, 3);
    // Three consecutive failed cycles escalate; two further calls fail fast.
    detector.record_failure(IpVersion::V6, 1010);
    assert!(detector.begin_cycle(IpVersion::V6, 1011).is_ok());
    detector.record_failure(IpVersion::V6, 1020);
    assert!(detector.begin_cycle(IpVersion::V6, 1021).is_ok());
    detector.record_failure(IpVersion::V6, 1030);
    for now in [1031u64, 1040] {
        match detector.begin_cycle(IpVersion::V6, now) {
            Err(IpDetectionError::VersionSuspended { version, remaining_secs }) => {
                assert_eq!(version, IpVersion::V6);
                assert_eq!(remaining_secs, SUSPENSION_DURATION_SECS - (now - 1030));
            },
            other => panic!("expected fail-fast suspension, got {:?}", other.map(|_| ())),
        }
    }
    // The other family is untouched.
    assert!(detector.begin_cycle(IpVersion::V4, 1040).is_ok());
    // Once the window elapses, detection proceeds again.
    let after = 1030 + SUSPENSION_DURATION_SECS;
    let cycle = detector.begin_cycle(IpVersion::V6, after).unwrap();
    assert_eq!(cycle.services.len(), 10);
    assert_eq!(cycle.limiter_offset, 12);
    // And the stale failure record is gone: one new failure starts from one.
    detector.record_failure(IpVersion::V6, after + 1);
    assert!(detector.begin_cycle(IpVersion::V6, after + 2).is_ok());
}

#[test]
fn success_clears_the_failure_streak() {
    let mut detector = IpDetector::new(
        IpDetection { max_requests_per_hour: 10, min_consensus: 2, network_retry_interval: 30 },
        0,
    );
    detector.record_failure(IpVersion::V4, 1);
    detector.record_failure(IpVersion::V4, 2);
    detector.record_success(IpVersion::V4);
    detector.record_failure(IpVersion::V4, 3);
    detector.record_failure(IpVersion::V4, 4);
    detector.record_failure(IpVersion::V4, 5);
    // Only now does the streak reach the threshold.
    assert!(matches!(
        detector.begin_cycle(IpVersion::V4, 6),
        Err(IpDetectionError::VersionSuspended { .. })
    ));
}

#[test]
fn detector_rate_limiters_cover_every_service() {
    let mut detector = IpDetector::new(
        IpDetection { max_requests_per_hour: 1, min_consensus: 2, network_retry_interval: 30 },
        0,
    );
    assert_eq!(detector.rate_limiters.len(), 22);
    assert!(detector.acquire_service(0, 1));
    assert!(!detector.acquire_service(0, 2));
    detector.release_service(0);
    assert!(detector.acquire_service(0, 3));
    assert!(detector.acquire_service(21, 1));
}

#[test]
fn check_consensus_returns_the_first_quorate_address() {
    let detector = IpDetector::new(
        IpDetection { max_requests_per_hour: 10, min_consensus: 2, network_retry_interval: 30 },
        0,
    );
    let responses = vec![
        IpResponse { ip: v4(1, 1, 1, 1), is_primary: true },
        IpResponse { ip: v4(2, 2, 2, 2), is_primary: true },
        IpResponse { ip: v4(2, 2, 2, 2), is_primary: false },
        IpResponse { ip: v4(1, 1, 1, 1), is_primary: false },
    ];
    match detector.check_consensus(&responses, 2) {
        Ok(ip) => assert_eq!(ip, v4(2, 2, 2, 2)),
        Err(e) => panic!("expected consensus, got {:?}", e),
    }
    assert!(matches!(
        detector.check_consensus(&responses[..2], 2),
        Err(IpDetectionError::ConsensusNotReached { responses: 2, required: 2 })
    ));
}

#[test]
fn detection_config_is_validated() {
    let good = IpDetection { max_requests_per_hour: 10, min_consensus: 2, network_retry_interval: 30 };
    assert!(good.validate().is_ok());
    let no_quota = IpDetection { max_requests_per_hour: 0, ..good.clone() };
    assert!(matches!(
        no_quota.validate(),
        Err(IpDetectionValidationError::InvalidMaxRequests(_))
    ));
    let no_consensus = IpDetection { min_consensus: 0, ..good.clone() };
    assert!(matches!(
        no_consensus.validate(),
        Err(IpDetectionValidationError::InvalidMinConsensus(_))
    ));
    let too_many = IpDetection { min_consensus: 23, ..good.clone() };
    assert!(matches!(
        too_many.validate(),
        Err(IpDetectionValidationError::InvalidMinConsensus(_))
    ));
    let no_interval = IpDetection { network_retry_interval: 0, ..good.clone() };
    assert!(matches!(
        no_interval.validate(),
        Err(IpDetectionValidationError::InvalidRetryInterval(_))
    ));
    let long_interval = IpDetection { network_retry_interval: 31, ..good };
    assert!(matches!(
        long_interval.validate(),
        Err(IpDetectionValidationError::InvalidRetryInterval(_))
    ));
}

#[test]
fn service_tables_and_defaults_match_the_configuration() {
    let v4s = ipv4_services();
    let v6s = ipv6_services();
    assert_eq!(v4s.len(), 12);
    assert_eq!(v6s.len(), 10);
    for (i, s) in v4s.iter().enumerate() {
        assert_eq!(s.is_primary, i < 3);
    }
    for (i, s) in v6s.iter().enumerate() {
        assert_eq!(s.is_primary, i < 3);
    }
    assert_eq!(v4s[0].base_url, "https://api.ipify.org");
    assert_eq!(v4s[0].path, "?format=text");
    assert_eq!(v6s[0].base_url, "https://api6.ipify.org");
    assert_eq!(default_max_requests_per_hour(), 200);
    assert_eq!(default_min_consensus(), 4);
    assert_eq!(default_network_retry_interval(), 30);
    let d = IpDetection::default();
    assert_eq!(d.max_requests_per_hour, 200);
    assert_eq!(d.min_consensus, 4);
    assert_eq!(d.network_retry_interval, 30);
    let s = VersionSuspension::new(7);
    assert_eq!(s.suspended_since, 7);
    assert_eq!(s.consecutive_failures, 1);
}
