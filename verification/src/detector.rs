//! Consensus-based public-address detection.
//!
//! A detection cycle queries a tiered list of lookup services, one at a time
//! and primaries first, validates every answer against the requested address
//! family, and accepts an address as soon as it has been seen from at least
//! `min_consensus` services. Repeated failed cycles for one family open a
//! suspension window during which detection for that family fails fast.
//!
//! The cycle itself is a state machine: the caller performs the HTTP queries
//! and feeds each outcome back in, and every decision — rate-limit skips,
//! retries, family validation, the consensus tally, suspension — is made and
//! verified here.

use vstd::prelude::*;

use crate::ip::{spec_parse_ip, parse_ip, IpAddress, IpVersion};
use crate::json::{json_string_field, json_string_field_of};
use crate::rate_limiter::{spec_acquire, RateLimitConfig, TokenBucketRateLimiter};
use crate::text::{spec_trim, trim_bytes};

verus! {

/// Number of primary address-lookup services per family.
pub const PRIMARY_SERVICE_COUNT: usize = 3;

/// Number of lookup services for the 4th version of the protocol.
pub const IPV4_SERVICE_COUNT: usize = 12;

/// Number of lookup services for the 6th version of the protocol.
pub const IPV6_SERVICE_COUNT: usize = 10;

/// Total number of lookup services over both families.
pub const TOTAL_SERVICE_COUNT: usize = 22;

pub const DEFAULT_MAX_REQUESTS_PER_HOUR: u32 = 200;

pub const DEFAULT_MIN_CONSENSUS: u32 = 4;

pub const DEFAULT_MAX_NETWORK_RETRY_INTERVAL: u64 = 30;

/// Seconds in the rate-limit window of each lookup service.
pub const SERVICE_WINDOW_SECS: u64 = 3600;

/// Attempts made against one service within one cycle.
pub const MAX_RETRIES: u32 = 2;

/// Delay before a retry against the same service.
pub const RETRY_DELAY_MS: u64 = 500;

/// Bound on one HTTP query against a lookup service.
pub const REQUEST_TIMEOUT_SECS: u64 = 5;

/// Consecutive failed cycles after which a family's detection is suspended.
pub const MAX_CONSECUTIVE_FAILURES: u32 = 3;

/// Length of a suspension window.
pub const SUSPENSION_DURATION_SECS: u64 = 300;

pub fn default_max_requests_per_hour() -> (r: u32)
    ensures
        r == DEFAULT_MAX_REQUESTS_PER_HOUR,
{
    DEFAULT_MAX_REQUESTS_PER_HOUR
}

pub fn default_min_consensus() -> (r: u32)
    ensures
        r == DEFAULT_MIN_CONSENSUS,
{
    DEFAULT_MIN_CONSENSUS
}

pub fn default_network_retry_interval() -> (r: u64)
    ensures
        r == DEFAULT_MAX_NETWORK_RETRY_INTERVAL,
{
    DEFAULT_MAX_NETWORK_RETRY_INTERVAL
}

/// Detection configuration.
#[derive(Debug, Clone)]
pub struct IpDetection {
    /// Maximum requests per hour to each lookup service
    pub max_requests_per_hour: u32,
    /// Minimum number of services that must agree on the address
    pub min_consensus: u32,
    /// Network check interval when connectivity is lost (in seconds)
    pub network_retry_interval: u64,
}

/// What a rejected detection configuration was rejected for.
#[derive(Debug, Clone)]
pub enum IpDetectionValidationError {
    InvalidMaxRequests(String),
    InvalidMinConsensus(String),
    InvalidRetryInterval(String),
}

/// A detection configuration every field of which is in range.
pub open spec fn valid_ip_detection(c: IpDetection) -> bool {
    &&& c.max_requests_per_hour > 0
    &&& 1 <= c.min_consensus as int <= TOTAL_SERVICE_COUNT as int
    &&& 1 <= c.network_retry_interval <= DEFAULT_MAX_NETWORK_RETRY_INTERVAL
}

impl IpDetection {
    /// Reject a configuration with a zero quota, a zero or unreachable
    /// consensus threshold, or a zero or excessive retry interval.
    pub fn validate(&self) -> (r: Result<(), IpDetectionValidationError>)
        ensures
            r is Ok <==> valid_ip_detection(*self),
            match r {
                Ok(_) => valid_ip_detection(*self),
                Err(IpDetectionValidationError::InvalidMaxRequests(_)) => self.max_requests_per_hour
                    == 0,
                Err(IpDetectionValidationError::InvalidMinConsensus(_)) => self.max_requests_per_hour
                    > 0 && !(1 <= self.min_consensus as int <= TOTAL_SERVICE_COUNT as int),
                Err(IpDetectionValidationError::InvalidRetryInterval(_)) => self.max_requests_per_hour
                    > 0 && 1 <= self.min_consensus as int <= TOTAL_SERVICE_COUNT as int && !(1
                    <= self.network_retry_interval <= DEFAULT_MAX_NETWORK_RETRY_INTERVAL),
            },
    {
        if self.max_requests_per_hour == 0 {
            return Err(IpDetectionValidationError::InvalidMaxRequests(
                "must be greater than 0".to_owned(),
            ));
        }
        if self.min_consensus == 0 || self.min_consensus as usize > TOTAL_SERVICE_COUNT {
            return Err(IpDetectionValidationError::InvalidMinConsensus(
                "must be between 1 and the total number of services".to_owned(),
            ));
        }
        if self.network_retry_interval == 0 || self.network_retry_interval
            > DEFAULT_MAX_NETWORK_RETRY_INTERVAL {
            return Err(IpDetectionValidationError::InvalidRetryInterval(
                "must be between 1 and the maximum allowed".to_owned(),
            ));
        }
        Ok(())
    }
}

impl Default for IpDetection {
    /// The stock configuration.
    fn default() -> (r: Self)
        ensures
            r.max_requests_per_hour == DEFAULT_MAX_REQUESTS_PER_HOUR,
            r.min_consensus == DEFAULT_MIN_CONSENSUS,
            r.network_retry_interval == DEFAULT_MAX_NETWORK_RETRY_INTERVAL,
    {
        IpDetection {
            max_requests_per_hour: DEFAULT_MAX_REQUESTS_PER_HOUR,
            min_consensus: DEFAULT_MIN_CONSENSUS,
            network_retry_interval: DEFAULT_MAX_NETWORK_RETRY_INTERVAL,
        }
    }
}

/// What one detection attempt failed with.
#[derive(Debug, Clone)]
pub enum IpDetectionError {
    NetworkError { service: String, error: String },
    InvalidResponse { service: String, response: String },
    VersionMismatch { service: String, expected: IpVersion, got: IpVersion },
    RateLimitExceeded { service: String },
    ParseError { service: String, error: String },
    ConsensusNotReached { responses: usize, required: u32 },
    NoServicesAvailable,
    VersionSuspended { version: IpVersion, remaining_secs: u64 },
    Validation(IpDetectionValidationError),
}

/// One lookup service: a base URL, a per-family query path, and its tier.
#[derive(Debug, Clone)]
pub struct IpService {
    pub base_url: String,
    pub path: String,
    pub is_primary: bool,
}

/// One answer that passed family validation, with the tier it came from.
#[derive(Debug, Clone, Copy, PartialEq, Eq, Structural)]
pub struct IpResponse {
    pub ip: IpAddress,
    pub is_primary: bool,
}

/// Suspension bookkeeping for one address family: consecutive failed cycles,
/// and when the count last escalated.
#[derive(Debug, Clone, Copy, PartialEq, Eq, Structural)]
pub struct VersionSuspension {
    pub suspended_since: u64,
    pub consecutive_failures: u32,
}

impl VersionSuspension {
    /// The record created by a family's first failed cycle.
    pub fn new(now: u64) -> (r: Self)
        ensures
            r.suspended_since == now,
            r.consecutive_failures == 1,
    {
        VersionSuspension { suspended_since: now, consecutive_failures: 1 }
    }
}

fn push_source(out: &mut Vec<(String, String)>, base_url: &str, path: &str)
    ensures
        final(out)@.len() == old(out)@.len() + 1,
        final(out)@.take(old(out)@.len() as int) == old(out)@,
        final(out)@.last().0@ == base_url@,
        final(out)@.last().1@ == path@,
{
    let entry: (String, String) = (base_url.to_owned(), path.to_owned());
    out.push(entry);
    proof {
        assert(out@.take(out@.len() - 1) =~= old(out)@);
    }
}

fn sources_to_services(sources: Vec<(String, String)>) -> (r: Vec<IpService>)
    ensures
        r@.len() == sources@.len(),
        forall|i: int|
            0 <= i < r@.len() ==> ((#[trigger] r@[i]).is_primary <==> i < PRIMARY_SERVICE_COUNT),
        forall|i: int|
            0 <= i < r@.len() ==> (#[trigger] r@[i]).base_url@ == sources@[i].0@ && r@[i].path@
                == sources@[i].1@,
{
    let mut r: Vec<IpService> = Vec::new();
    let mut i: usize = 0;
    while i < sources.len()
        invariant
            0 <= i <= sources@.len(),
            r@.len() == i,
            forall|j: int|
                0 <= j < i ==> ((#[trigger] r@[j]).is_primary <==> j < PRIMARY_SERVICE_COUNT),
            forall|j: int|
                0 <= j < i ==> (#[trigger] r@[j]).base_url@ == sources@[j].0@ && r@[j].path@
                    == sources@[j].1@,
        decreases sources@.len() - i,
    {
        let base: String = sources[i].0.clone();
        let path: String = sources[i].1.clone();
        r.push(IpService { base_url: base, path, is_primary: i < PRIMARY_SERVICE_COUNT });
        i = i + 1;
    }
    r
}

/// The lookup services for the 4th version of the protocol, primaries first.
pub fn ipv4_services() -> (r: Vec<IpService>)
    ensures
        r@.len() == IPV4_SERVICE_COUNT,
        forall|i: int|
            0 <= i < r@.len() ==> ((#[trigger] r@[i]).is_primary <==> i < PRIMARY_SERVICE_COUNT),
        r@[0].base_url@ == "https://api.ipify.org"@ && r@[0].path@ == "?format=text"@,
        r@[1].base_url@ == "https://v4.ident.me"@ && r@[1].path@ == ""@,
        r@[2].base_url@ == "https://api4.my-ip.io"@ && r@[2].path@ == "/v2/ip.txt"@,
        r@[3].base_url@ == "https://ipv4.icanhazip.com"@ && r@[3].path@ == ""@,
        r@[4].base_url@ == "https://ip4.seeip.org"@ && r@[4].path@ == ""@,
        r@[5].base_url@ == "https://api4.ipaddress.com"@ && r@[5].path@ == "/myip"@,
        r@[6].base_url@ == "https://ipecho.net"@ && r@[6].path@ == "/plain"@,
        r@[7].base_url@ == "https://checkip.amazonaws.com"@ && r@[7].path@ == ""@,
        r@[8].base_url@ == "https://ipinfo.io"@ && r@[8].path@ == "/ip"@,
        r@[9].base_url@ == "https://wtfismyip.com"@ && r@[9].path@ == "/text"@,
        r@[10].base_url@ == "https://ip.tyk.nu"@ && r@[10].path@ == ""@,
        r@[11].base_url@ == "https://diagnostic.opendns.com"@ && r@[11].path@ == "/myip"@,
{
    let mut s: Vec<(String, String)> = Vec::new();
    push_source(&mut s, "https://api.ipify.org", "?format=text");
    push_source(&mut s, "https://v4.ident.me", "");
    push_source(&mut s, "https://api4.my-ip.io", "/v2/ip.txt");
    push_source(&mut s, "https://ipv4.icanhazip.com", "");
    push_source(&mut s, "https://ip4.seeip.org", "");
    push_source(&mut s, "https://api4.ipaddress.com", "/myip");
    push_source(&mut s, "https://ipecho.net", "/plain");
    push_source(&mut s, "https://checkip.amazonaws.com", "");
    push_source(&mut s, "https://ipinfo.io", "/ip");
    push_source(&mut s, "https://wtfismyip.com", "/text");
    push_source(&mut s, "https://ip.tyk.nu", "");
    push_source(&mut s, "https://diagnostic.opendns.com", "/myip");
    sources_to_services(s)
}

/// The lookup services for the 6th version of the protocol, primaries first.
pub fn ipv6_services() -> (r: Vec<IpService>)
    ensures
        r@.len() == IPV6_SERVICE_COUNT,
        forall|i: int|
            0 <= i < r@.len() ==> ((#[trigger] r@[i]).is_primary <==> i < PRIMARY_SERVICE_COUNT),
        r@[0].base_url@ == "https://api6.ipify.org"@ && r@[0].path@ == "?format=text"@,
        r@[1].base_url@ == "https://v6.ident.me"@ && r@[1].path@ == ""@,
        r@[2].base_url@ == "https://api6.my-ip.io"@ && r@[2].path@ == "/ip"@,
        r@[3].base_url@ == "https://ipv6.icanhazip.com"@ && r@[3].path@ == ""@,
        r@[4].base_url@ == "https://ip6.seeip.org"@ && r@[4].path@ == ""@,
        r@[5].base_url@ == "https://v6.ipv6-test.com"@ && r@[5].path@ == "/api/myip.php"@,
        r@[6].base_url@ == "https://ipv6.wtfismyip.com"@ && r@[6].path@ == "/text"@,
        r@[7].base_url@ == "https://ipv6.ip.tyk.nu"@ && r@[7].path@ == ""@,
        r@[8].base_url@ == "https://v6.ident.me"@ && r@[8].path@ == "/raw"@,
        r@[9].base_url@ == "https://ipv6.test-ipv6.com"@ && r@[9].path@ == "/ip/"@,
{
    let mut s: Vec<(String, String)> = Vec::new();
    push_source(&mut s, "https://api6.ipify.org", "?format=text");
    push_source(&mut s, "https://v6.ident.me", "");
    push_source(&mut s, "https://api6.my-ip.io", "/ip");
    push_source(&mut s, "https://ipv6.icanhazip.com", "");
    push_source(&mut s, "https://ip6.seeip.org", "");
    push_source(&mut s, "https://v6.ipv6-test.com", "/api/myip.php");
    push_source(&mut s, "https://ipv6.wtfismyip.com", "/text");
    push_source(&mut s, "https://ipv6.ip.tyk.nu", "");
    push_source(&mut s, "https://v6.ident.me", "/raw");
    push_source(&mut s, "https://ipv6.test-ipv6.com", "/ip/");
    sources_to_services(s)
}

/// Per-family selection of the service table and the rate-limiter slots.
pub trait IpVersionOps {
    /// The services for this family, primaries first.
    fn get_services() -> (r: Vec<IpService>);

    /// Where this family's rate limiters start in the detector's pool.
    fn rate_limiter_offset() -> (r: usize);

    /// The family as a plain value.
    fn version() -> (r: IpVersion);
}

/// The 4th version of the protocol, as a table selector.
pub struct V4;

/// The 6th version of the protocol, as a table selector.
pub struct V6;

impl IpVersionOps for V4 {
    fn get_services() -> (r: Vec<IpService>)
        ensures
            r@.len() == IPV4_SERVICE_COUNT,
    {
        ipv4_services()
    }

    fn rate_limiter_offset() -> (r: usize)
        ensures
            r == 0,
    {
        0
    }

    fn version() -> (r: IpVersion)
        ensures
            r == IpVersion::V4,
    {
        IpVersion::V4
    }
}

impl IpVersionOps for V6 {
    fn get_services() -> (r: Vec<IpService>)
        ensures
            r@.len() == IPV6_SERVICE_COUNT,
    {
        ipv6_services()
    }

    fn rate_limiter_offset() -> (r: usize)
        ensures
            r == IPV4_SERVICE_COUNT,
    {
        IPV4_SERVICE_COUNT
    }

    fn version() -> (r: IpVersion)
        ensures
            r == IpVersion::V6,
    {
        IpVersion::V6
    }
}

/// How often `ip` occurs in `s`.
pub open spec fn count_ip(s: Seq<IpAddress>, ip: IpAddress) -> int
    decreases s.len(),
{
    if s.len() == 0 {
        0
    } else {
        count_ip(s.drop_last(), ip) + if s.last() == ip {
            1int
        } else {
            0int
        }
    }
}

/// The first address whose running tally reaches `min`, scanning `s` from the
/// front; the tie-break of the consensus rule is positional, not by total
/// frequency.
pub open spec fn spec_first_consensus(s: Seq<IpAddress>, min: int) -> Option<IpAddress>
    decreases s.len(),
{
    if s.len() == 0 {
        None
    } else {
        match spec_first_consensus(s.drop_last(), min) {
            Some(ip) => Some(ip),
            None => if count_ip(s, s.last()) >= min {
                Some(s.last())
            } else {
                None
            },
        }
    }
}

proof fn lemma_count_prefix_le(s: Seq<IpAddress>, k: int, ip: IpAddress)
    requires
        0 <= k <= s.len(),
    ensures
        count_ip(s.take(k), ip) <= count_ip(s, ip),
    decreases s.len() - k,
{
    if k < s.len() {
        lemma_count_prefix_le(s, k + 1, ip);
        assert(s.take(k + 1).drop_last() =~= s.take(k));
    } else {
        assert(s.take(k) =~= s);
    }
}

/// Once a prefix of the tally has settled on an address, the whole tally has.
proof fn lemma_consensus_prefix(s: Seq<IpAddress>, k: int, min: int)
    requires
        0 <= k <= s.len(),
        spec_first_consensus(s.take(k), min) is Some,
    ensures
        spec_first_consensus(s, min) == spec_first_consensus(s.take(k), min),
    decreases s.len() - k,
{
    if k < s.len() {
        assert(s.take(k + 1).drop_last() =~= s.take(k));
        lemma_consensus_prefix(s, k + 1, min);
    } else {
        assert(s.take(k) =~= s);
    }
}

/// Law: an address is only returned by the consensus rule once at least `min`
/// of the collected responses carry exactly that address.
pub proof fn lemma_consensus_requires_quorum(s: Seq<IpAddress>, min: int, ip: IpAddress)
    requires
        spec_first_consensus(s, min) == Some(ip),
    ensures
        count_ip(s, ip) >= min,
    decreases s.len(),
{
    if s.len() > 0 {
        if spec_first_consensus(s.drop_last(), min) is Some {
            lemma_consensus_requires_quorum(s.drop_last(), min, ip);
            lemma_count_prefix_le(s, s.len() - 1, ip);
            assert(s.take(s.len() - 1) =~= s.drop_last());
        }
    }
}

/// Law: a winning address was seen in the tally; together with the tally's
/// family invariant this is why an answer of the wrong family can never win.
pub proof fn lemma_consensus_member(s: Seq<IpAddress>, min: int, ip: IpAddress)
    requires
        spec_first_consensus(s, min) == Some(ip),
    ensures
        exists|i: int| 0 <= i < s.len() && s[i] == ip,
    decreases s.len(),
{
    if s.len() > 0 {
        if spec_first_consensus(s.drop_last(), min) is Some {
            lemma_consensus_member(s.drop_last(), min, ip);
            let i = choose|i: int| 0 <= i < s.drop_last().len() && s.drop_last()[i] == ip;
            assert(s[i] == ip);
        } else {
            assert(s[s.len() - 1] == ip);
        }
    }
}

/// The first address of the tally `responses` seen at least `min` times, if
/// any; `None` means the tally has not reached consensus.
fn first_consensus(responses: &[IpResponse], min: usize) -> (r: Option<IpAddress>)
    ensures
        r == spec_first_consensus(responses@.map_values(|x: IpResponse| x.ip), min as int),
{
    let ghost ips = responses@.map_values(|x: IpResponse| x.ip);
    let mut i: usize = 0;
    while i < responses.len()
        invariant
            0 <= i <= responses@.len(),
            ips == responses@.map_values(|x: IpResponse| x.ip),
            spec_first_consensus(ips.take(i as int), min as int) is None,
        decreases responses@.len() - i,
    {
        let target: IpAddress = responses[i].ip;
        let mut cnt: usize = 0;
        let mut j: usize = 0;
        while j <= i
            invariant
                0 <= j <= i + 1 <= responses@.len(),
                i < responses@.len(),
                ips == responses@.map_values(|x: IpResponse| x.ip),
                cnt == count_ip(ips.take(j as int), target),
                cnt <= j,
            decreases i + 1 - j,
        {
            proof {
                assert(ips.take(j + 1).drop_last() =~= ips.take(j as int));
                assert(ips.take(j + 1).last() == ips[j as int]);
                assert(ips[j as int] == responses@[j as int].ip);
            }
            if responses[j].ip == target {
                cnt = cnt + 1;
            }
            j = j + 1;
        }
        proof {
            assert(ips.take(i + 1).drop_last() =~= ips.take(i as int));
            assert(ips.take(i + 1).last() == ips[i as int]);
            assert(ips[i as int] == responses@[i as int].ip);
        }
        if cnt >= min {
            proof {
                assert(spec_first_consensus(ips.take(i + 1), min as int) == Some(target));
                lemma_consensus_prefix(ips, i + 1, min as int);
            }
            return Some(target);
        }
        i = i + 1;
    }
    proof {
        assert(ips.take(i as int) =~= ips);
    }
    None
}

/// The address a response body names, if any: a JSON document is searched for
/// the known field names in order, anything else is read as a bare address
/// literal after trimming.
pub open spec fn json_candidate(body: Seq<u8>, field: Seq<char>) -> Option<IpAddress> {
    match json_string_field_of(body, field) {
        Some(b) => spec_parse_ip(b),
        None => None,
    }
}

/// The first known JSON field of `body` that holds a parseable address.
pub open spec fn spec_json_ip(body: Seq<u8>) -> Option<IpAddress> {
    if json_candidate(body, "ip"@) is Some {
        json_candidate(body, "ip"@)
    } else if json_candidate(body, "address"@) is Some {
        json_candidate(body, "address"@)
    } else if json_candidate(body, "ipAddress"@) is Some {
        json_candidate(body, "ipAddress"@)
    } else if json_candidate(body, "query"@) is Some {
        json_candidate(body, "query"@)
    } else {
        None
    }
}

/// What a lookup service's response body resolves to: a JSON answer when the
/// trimmed body opens a JSON object and a known field parses, else the trimmed
/// body read as a bare address literal.
pub open spec fn spec_extract_ip(body: Seq<u8>) -> Option<IpAddress> {
    let t = spec_trim(body);
    if t.len() > 0 && t[0] == 123 && spec_json_ip(body) is Some {
        spec_json_ip(body)
    } else {
        spec_parse_ip(t)
    }
}

/// Resolve a response body to the address it names, if any.
pub fn extract_ip(body: &[u8]) -> (r: Option<IpAddress>)
    ensures
        r == spec_extract_ip(body@),
{
    let t: Vec<u8> = trim_bytes(body);
    if t.len() > 0 && t[0] == 123 {
        match json_string_field(body, "ip") {
            Some(b) => {
                match parse_ip(b.as_slice()) {
                    Some(ip) => { return Some(ip) },
                    None => {},
                }
            },
            None => {},
        }
        match json_string_field(body, "address") {
            Some(b) => {
                match parse_ip(b.as_slice()) {
                    Some(ip) => { return Some(ip) },
                    None => {},
                }
            },
            None => {},
        }
        match json_string_field(body, "ipAddress") {
            Some(b) => {
                match parse_ip(b.as_slice()) {
                    Some(ip) => { return Some(ip) },
                    None => {},
                }
            },
            None => {},
        }
        match json_string_field(body, "query") {
            Some(b) => {
                match parse_ip(b.as_slice()) {
                    Some(ip) => { return Some(ip) },
                    None => {},
                }
            },
            None => {},
        }
    }
    parse_ip(t.as_slice())
}

/// Accept an address only when it belongs to the requested family.
pub fn validate_ip_version(ip: IpAddress, expected_version: IpVersion, service: &str) -> (r:
    Result<IpAddress, IpDetectionError>)
    ensures
        ip.spec_family() == expected_version ==> r == Result::<
            IpAddress,
            IpDetectionError,
        >::Ok(ip),
        ip.spec_family() != expected_version ==> match r {
            Err(IpDetectionError::VersionMismatch { service: sv, expected, got }) => sv@
                == service@ && expected == expected_version && got == ip.spec_family(),
            _ => false,
        },
{
    let fam: IpVersion = ip.family();
    if fam == expected_version {
        Ok(ip)
    } else {
        Err(IpDetectionError::VersionMismatch {
            service: service.to_owned(),
            expected: expected_version,
            got: fam,
        })
    }
}

/// Read a lookup service's response body and accept its address only when it
/// belongs to the requested family; a body naming no address at all is a
/// parse error.
pub fn parse_ip_response(body: &[u8], expected_version: IpVersion, service: &str) -> (r: Result<
    IpAddress,
    IpDetectionError,
>)
    ensures
        match spec_extract_ip(body@) {
            Some(ip) => if ip.spec_family() == expected_version {
                r == Result::<IpAddress, IpDetectionError>::Ok(ip)
            } else {
                match r {
                    Err(IpDetectionError::VersionMismatch { service: sv, expected, got }) => sv@
                        == service@ && expected == expected_version && got == ip.spec_family(),
                    _ => false,
                }
            },
            None => match r {
                Err(IpDetectionError::ParseError { service: sv, error: _ }) => sv@ == service@,
                _ => false,
            },
        },
{
    match extract_ip(body) {
        Some(ip) => validate_ip_version(ip, expected_version, service),
        None => Err(
            IpDetectionError::ParseError {
                service: service.to_owned(),
                error: "response names no address".to_owned(),
            },
        ),
    }
}

/// What the caller must do next after handing one query outcome to a cycle.
#[derive(Debug, Clone, Copy, PartialEq, Eq, Structural)]
pub enum CycleStep {
    /// Consensus reached; the cycle is over. Release the service's permit.
    Consensus(IpAddress),
    /// Query the same service once more after the delay; keep its permit.
    Retry { delay_ms: u64 },
    /// Give up on this service and move on. Release its permit.
    NextService,
}

/// One detection cycle for one address family, as a state machine.
///
/// The caller walks the service list: it acquires the rate-limit permit of the
/// service at `pos` (or reports the denial), performs the HTTP query, and
/// hands the outcome back in. The cycle validates, tallies, decides on
/// retries, and stops the walk the moment the tally reaches consensus.
pub struct DetectionCycle {
    /// The address family being detected.
    pub version: IpVersion,
    /// How many services must agree.
    pub min_consensus: u32,
    /// The services to walk, primaries first.
    pub services: Vec<IpService>,
    /// Where this family's rate limiters start in the detector's pool.
    pub limiter_offset: usize,
    /// The service currently being queried.
    pub pos: usize,
    /// Attempts already made against that service.
    pub attempt: u32,
    /// Every answer accepted into the tally so far.
    pub responses: Vec<IpResponse>,
}

impl DetectionCycle {
    /// The tally as a sequence of bare addresses.
    pub open spec fn ips(self) -> Seq<IpAddress> {
        self.responses@.map_values(|x: IpResponse| x.ip)
    }

    /// The cycle's invariant: the walk is within bounds and nothing of the
    /// wrong family has ever entered the tally.
    pub open spec fn wf(self) -> bool {
        &&& self.pos <= self.services@.len()
        &&& self.attempt < MAX_RETRIES
        &&& self.limiter_offset as int + self.services@.len() <= TOTAL_SERVICE_COUNT as int
        &&& (forall|i: int|
            0 <= i < self.responses@.len() ==> (#[trigger] self.responses@[i]).ip.spec_family()
                == self.version)
    }

    /// Whether every service has been walked without reaching consensus.
    pub fn exhausted(&self) -> (r: bool)
        ensures
            r == (self.pos == self.services@.len()),
    {
        self.pos == self.services.len()
    }

    /// The service to query next, while any is left.
    pub fn current_service(&self) -> (r: Option<IpService>)
        ensures
            match r {
                Some(s) => self.pos < self.services@.len() && s.base_url@
                    == self.services@[self.pos as int].base_url@ && s.path@
                    == self.services@[self.pos as int].path@ && s.is_primary
                    == self.services@[self.pos as int].is_primary,
                None => self.pos >= self.services@.len(),
            },
    {
        if self.pos < self.services.len() {
            let s: &IpService = &self.services[self.pos];
            Some(
                IpService {
                    base_url: s.base_url.clone(),
                    path: s.path.clone(),
                    is_primary: s.is_primary,
                },
            )
        } else {
            None
        }
    }

    /// The rate-limiter slot of the service to query next.
    pub fn limiter_index(&self) -> (r: usize)
        requires
            self.wf(),
            self.pos < self.services@.len(),
        ensures
            r == self.limiter_offset + self.pos,
    {
        self.limiter_offset + self.pos
    }

    /// A permit for the current service was denied: skip it, with no retry.
    pub fn on_rate_limited(&mut self)
        requires
            old(self).wf(),
            old(self).pos < old(self).services@.len(),
        ensures
            final(self).wf(),
            final(self).pos == old(self).pos + 1,
            final(self).attempt == 0,
            final(self).responses == old(self).responses,
            final(self).version == old(self).version,
            final(self).min_consensus == old(self).min_consensus,
            final(self).services == old(self).services,
            final(self).limiter_offset == old(self).limiter_offset,
    {
        self.pos = self.pos + 1;
        self.attempt = 0;
    }

    /// The current query failed (network error, or a body naming no valid
    /// address): retry the same service until its attempts are spent, then
    /// move on.
    pub fn on_query_failure(&mut self) -> (r: CycleStep)
        requires
            old(self).wf(),
            old(self).pos < old(self).services@.len(),
        ensures
            final(self).wf(),
            final(self).responses == old(self).responses,
            final(self).version == old(self).version,
            final(self).min_consensus == old(self).min_consensus,
            final(self).services == old(self).services,
            final(self).limiter_offset == old(self).limiter_offset,
            if old(self).attempt + 1 < MAX_RETRIES {
                &&& r == (CycleStep::Retry { delay_ms: RETRY_DELAY_MS })
                &&& final(self).pos == old(self).pos
                &&& final(self).attempt == old(self).attempt + 1
            } else {
                &&& r == CycleStep::NextService
                &&& final(self).pos == old(self).pos + 1
                &&& final(self).attempt == 0
            },
    {
        if self.attempt + 1 < MAX_RETRIES {
            self.attempt = self.attempt + 1;
            CycleStep::Retry { delay_ms: RETRY_DELAY_MS }
        } else {
            self.pos = self.pos + 1;
            self.attempt = 0;
            CycleStep::NextService
        }
    }

    /// The current query answered with `body`. An answer naming an address of
    /// the requested family joins the tally and the tally is checked at once;
    /// anything else counts as a failed attempt. The returned address, if
    /// any, is the first to have been seen from `min_consensus` services, and
    /// is always of the requested family.
    pub fn on_response_body(&mut self, body: &[u8]) -> (r: CycleStep)
        requires
            old(self).wf(),
            old(self).pos < old(self).services@.len(),
        ensures
            final(self).wf(),
            final(self).version == old(self).version,
            final(self).min_consensus == old(self).min_consensus,
            final(self).services == old(self).services,
            final(self).limiter_offset == old(self).limiter_offset,
            match spec_extract_ip(body@) {
                Some(ip) => if ip.spec_family() == old(self).version {
                    &&& final(self).responses@ == old(self).responses@.push(
                        IpResponse {
                            ip,
                            is_primary: old(self).services@[old(self).pos as int].is_primary,
                        },
                    )
                    &&& (match spec_first_consensus(
                        final(self).ips(),
                        old(self).min_consensus as int,
                    ) {
                        Some(c) => r == CycleStep::Consensus(c),
                        None => r == CycleStep::NextService && final(self).pos == old(self).pos + 1
                            && final(self).attempt == 0,
                    })
                } else {
                    final(self).responses == old(self).responses && failure_step_of(
                        *old(self),
                        *final(self),
                        r,
                    )
                },
                None => final(self).responses == old(self).responses && failure_step_of(
                    *old(self),
                    *final(self),
                    r,
                ),
            },
            match r {
                CycleStep::Consensus(c) => {
                    &&& count_ip(final(self).ips(), c) >= old(self).min_consensus
                    &&& c.spec_family() == old(self).version
                    &&& spec_first_consensus(final(self).ips(), old(self).min_consensus as int)
                        == Some(c)
                },
                _ => true,
            },
    {
        match extract_ip(body) {
            Some(ip) => {
                let fam: IpVersion = ip.family();
                if fam == self.version {
                    let primary: bool = self.services[self.pos].is_primary;
                    self.responses.push(IpResponse { ip, is_primary: primary });
                    match first_consensus(self.responses.as_slice(), self.min_consensus as usize) {
                        Some(c) => {
                            proof {
                                lemma_consensus_requires_quorum(
                                    self.ips(),
                                    self.min_consensus as int,
                                    c,
                                );
                                lemma_consensus_member(self.ips(), self.min_consensus as int, c);
                                let i = choose|i: int|
                                    0 <= i < self.ips().len() && self.ips()[i] == c;
                                assert(self.responses@[i].ip == c);
                            }
                            CycleStep::Consensus(c)
                        },
                        None => {
                            self.pos = self.pos + 1;
                            self.attempt = 0;
                            CycleStep::NextService
                        },
                    }
                } else {
                    self.on_query_failure()
                }
            },
            None => self.on_query_failure(),
        }
    }

    /// What an exhausted cycle failed with: no usable answer at all, or a
    /// tally that never reached the threshold.
    pub fn outcome(&self) -> (r: IpDetectionError)
        requires
            self.wf(),
            self.pos == self.services@.len(),
        ensures
            self.responses@.len() == 0 ==> r == IpDetectionError::NoServicesAvailable,
            self.responses@.len() > 0 ==> r == (IpDetectionError::ConsensusNotReached {
                responses: self.responses@.len() as usize,
                required: self.min_consensus,
            }),
    {
        if self.responses.len() == 0 {
            IpDetectionError::NoServicesAvailable
        } else {
            IpDetectionError::ConsensusNotReached {
                responses: self.responses.len(),
                required: self.min_consensus,
            }
        }
    }
}

/// The pos/attempt bookkeeping of a failed attempt, shared by the two failure
/// shapes of `on_response_body`.
pub open spec fn failure_step_of(pre: DetectionCycle, post: DetectionCycle, r: CycleStep) -> bool {
    if pre.attempt + 1 < MAX_RETRIES {
        &&& r == (CycleStep::Retry { delay_ms: RETRY_DELAY_MS })
        &&& post.pos == pre.pos
        &&& post.attempt == pre.attempt + 1
    } else {
        &&& r == CycleStep::NextService
        &&& post.pos == pre.pos + 1
        &&& post.attempt == 0
    }
}

/// How one failed cycle at time `now` moves a family's suspension record.
pub open spec fn spec_record_failure(s: Option<VersionSuspension>, now: u64) -> Option<
    VersionSuspension,
> {
    match s {
        None => Some(VersionSuspension { suspended_since: now, consecutive_failures: 1 }),
        Some(s) => {
            let n: u32 = if s.consecutive_failures < u32::MAX {
                (s.consecutive_failures + 1) as u32
            } else {
                s.consecutive_failures
            };
            Some(
                VersionSuspension {
                    consecutive_failures: n,
                    suspended_since: if n >= MAX_CONSECUTIVE_FAILURES {
                        now
                    } else {
                        s.suspended_since
                    },
                },
            )
        },
    }
}

/// A family's suspension record after a run of consecutive failed cycles.
pub open spec fn spec_record_failures_all(s: Option<VersionSuspension>, times: Seq<u64>) -> Option<
    VersionSuspension,
>
    decreases times.len(),
{
    if times.len() == 0 {
        s
    } else {
        spec_record_failure(spec_record_failures_all(s, times.drop_last()), times.last())
    }
}

/// The consensus-based detector: the per-service rate-limiter pool and the
/// suspension bookkeeping of both families.
pub struct IpDetector {
    /// The detection configuration.
    pub config: IpDetection,
    /// One rate limiter per lookup service; the slots of the 4th version's
    /// services come first.
    pub rate_limiters: Vec<TokenBucketRateLimiter>,
    /// Suspension record of the 4th version's detection.
    pub suspension_v4: Option<VersionSuspension>,
    /// Suspension record of the 6th version's detection.
    pub suspension_v6: Option<VersionSuspension>,
}

impl IpDetector {
    /// The detector's invariant: a rate-limiter slot for every service.
    pub open spec fn wf(self) -> bool {
        self.rate_limiters@.len() == TOTAL_SERVICE_COUNT
    }

    /// The suspension record of one family.
    pub open spec fn suspension_of(self, version: IpVersion) -> Option<VersionSuspension> {
        match version {
            IpVersion::V4 => self.suspension_v4,
            IpVersion::V6 => self.suspension_v6,
        }
    }

    /// A family's detection is skipped while its failure count has escalated
    /// and the window opened then has not yet elapsed.
    pub open spec fn suspension_active(self, version: IpVersion, now: u64) -> bool {
        match self.suspension_of(version) {
            Some(s) => s.consecutive_failures >= MAX_CONSECUTIVE_FAILURES && (now as int) < (
            s.suspended_since as int) + (SUSPENSION_DURATION_SECS as int),
            None => false,
        }
    }

    /// A detector with a full permit pool for every service and no suspension.
    pub fn new(config: IpDetection, now: u64) -> (r: Self)
        ensures
            r.wf(),
            r.config == config,
            r.suspension_v4 is None,
            r.suspension_v6 is None,
            forall|i: int|
                0 <= i < TOTAL_SERVICE_COUNT ==> {
                    let l = (#[trigger] r.rate_limiters@[i]);
                    &&& l.max_requests == config.max_requests_per_hour
                    &&& l.window_secs == SERVICE_WINDOW_SECS
                    &&& l.available == config.max_requests_per_hour
                    &&& l.last_refill == now
                },
    {
        let mut limiters: Vec<TokenBucketRateLimiter> = Vec::new();
        let mut i: usize = 0;
        while i < TOTAL_SERVICE_COUNT
            invariant
                0 <= i <= TOTAL_SERVICE_COUNT,
                limiters@.len() == i,
                forall|j: int|
                    0 <= j < i ==> {
                        let l = (#[trigger] limiters@[j]);
                        &&& l.max_requests == config.max_requests_per_hour
                        &&& l.window_secs == SERVICE_WINDOW_SECS
                        &&& l.available == config.max_requests_per_hour
                        &&& l.last_refill == now
                    },
            decreases TOTAL_SERVICE_COUNT - i,
        {
            limiters.push(
                TokenBucketRateLimiter::new(
                    &RateLimitConfig {
                        max_requests: config.max_requests_per_hour,
                        window_secs: SERVICE_WINDOW_SECS,
                    },
                    now,
                ),
            );
            i = i + 1;
        }
        IpDetector { config, rate_limiters: limiters, suspension_v4: None, suspension_v6: None }
    }

    /// Start a detection cycle for one family: fail fast while the family is
    /// suspended, clear a suspension whose window has elapsed, and otherwise
    /// hand out a fresh cycle over the family's service table.
    pub fn begin_cycle(&mut self, version: IpVersion, now: u64) -> (r: Result<
        DetectionCycle,
        IpDetectionError,
    >)
        requires
            old(self).wf(),
        ensures
            final(self).wf(),
            final(self).config == old(self).config,
            final(self).rate_limiters == old(self).rate_limiters,
            final(self).suspension_of(other_version(version)) == old(self).suspension_of(
                other_version(version),
            ),
            r is Ok <==> !old(self).suspension_active(version, now),
            old(self).suspension_active(version, now) ==> {
                &&& final(self).suspension_of(version) == old(self).suspension_of(version)
                &&& match r {
                    Err(IpDetectionError::VersionSuspended { version: v, remaining_secs }) => v
                        == version && remaining_secs as int == (SUSPENSION_DURATION_SECS as int)
                        - suspension_elapsed(old(self).suspension_of(version)->0, now),
                    _ => false,
                }
            },
            !old(self).suspension_active(version, now) ==> {
                &&& final(self).suspension_of(version) == (match old(self).suspension_of(version) {
                    Some(s) => if s.consecutive_failures >= MAX_CONSECUTIVE_FAILURES {
                        None
                    } else {
                        Some(s)
                    },
                    None => None,
                })
                &&& match r {
                    Ok(c) => {
                        &&& c.wf()
                        &&& c.version == version
                        &&& c.min_consensus == old(self).config.min_consensus
                        &&& c.pos == 0
                        &&& c.attempt == 0
                        &&& c.responses@.len() == 0
                        &&& c.limiter_offset == (if version == IpVersion::V4 {
                            0int
                        } else {
                            IPV4_SERVICE_COUNT as int
                        })
                        &&& c.services@.len() == (if version == IpVersion::V4 {
                            IPV4_SERVICE_COUNT as int
                        } else {
                            IPV6_SERVICE_COUNT as int
                        })
                        &&& forall|i: int|
                            0 <= i < c.services@.len() ==> ((#[trigger] c.services@[i]).is_primary
                                <==> i < PRIMARY_SERVICE_COUNT)
                    },
                    _ => false,
                }
            },
    {
        let susp: &Option<VersionSuspension> = match version {
            IpVersion::V4 => &self.suspension_v4,
            IpVersion::V6 => &self.suspension_v6,
        };
        if let Some(s) = susp {
            if s.consecutive_failures >= MAX_CONSECUTIVE_FAILURES {
                let elapsed: u64 = if now >= s.suspended_since {
                    now - s.suspended_since
                } else {
                    0
                };
                if elapsed < SUSPENSION_DURATION_SECS {
                    return Err(
                        IpDetectionError::VersionSuspended {
                            version,
                            remaining_secs: SUSPENSION_DURATION_SECS - elapsed,
                        },
                    );
                }
                // The window has elapsed: clear the record and proceed.
                match version {
                    IpVersion::V4 => {
                        self.suspension_v4 = None;
                    },
                    IpVersion::V6 => {
                        self.suspension_v6 = None;
                    },
                }
            }
        }
        let services: Vec<IpService> = match version {
            IpVersion::V4 => ipv4_services(),
            IpVersion::V6 => ipv6_services(),
        };
        let limiter_offset: usize = match version {
            IpVersion::V4 => 0,
            IpVersion::V6 => IPV4_SERVICE_COUNT,
        };
        Ok(
            DetectionCycle {
                version,
                min_consensus: self.config.min_consensus,
                services,
                limiter_offset,
                pos: 0,
                attempt: 0,
                responses: Vec::new(),
            },
        )
    }

    /// A cycle for `version` failed: count it, and open the suspension window
    /// once the count escalates.
    pub fn record_failure(&mut self, version: IpVersion, now: u64)
        requires
            old(self).wf(),
        ensures
            final(self).wf(),
            final(self).config == old(self).config,
            final(self).rate_limiters == old(self).rate_limiters,
            final(self).suspension_of(other_version(version)) == old(self).suspension_of(
                other_version(version),
            ),
            final(self).suspension_of(version) == spec_record_failure(
                old(self).suspension_of(version),
                now,
            ),
    {
        let current: Option<VersionSuspension> = match version {
            IpVersion::V4 => self.suspension_v4,
            IpVersion::V6 => self.suspension_v6,
        };
        let updated: VersionSuspension = match current {
            None => VersionSuspension::new(now),
            Some(s) => {
                let n: u32 = if s.consecutive_failures < u32::MAX {
                    s.consecutive_failures + 1
                } else {
                    s.consecutive_failures
                };
                VersionSuspension {
                    consecutive_failures: n,
                    suspended_since: if n >= MAX_CONSECUTIVE_FAILURES {
                        now
                    } else {
                        s.suspended_since
                    },
                }
            },
        };
        match version {
            IpVersion::V4 => {
                self.suspension_v4 = Some(updated);
            },
            IpVersion::V6 => {
                self.suspension_v6 = Some(updated);
            },
        }
    }

    /// A cycle for `version` succeeded: the family's failure record is wiped.
    pub fn record_success(&mut self, version: IpVersion)
        requires
            old(self).wf(),
        ensures
            final(self).wf(),
            final(self).config == old(self).config,
            final(self).rate_limiters == old(self).rate_limiters,
            final(self).suspension_of(other_version(version)) == old(self).suspension_of(
                other_version(version),
            ),
            final(self).suspension_of(version) is None,
    {
        match version {
            IpVersion::V4 => {
                self.suspension_v4 = None;
            },
            IpVersion::V6 => {
                self.suspension_v6 = None;
            },
        }
    }

    /// Try to take a permit from one service's rate limiter.
    pub fn acquire_service(&mut self, index: usize, now: u64) -> (granted: bool)
        requires
            old(self).wf(),
            index < TOTAL_SERVICE_COUNT,
        ensures
            final(self).wf(),
            final(self).config == old(self).config,
            final(self).suspension_v4 == old(self).suspension_v4,
            final(self).suspension_v6 == old(self).suspension_v6,
            final(self).rate_limiters@ == old(self).rate_limiters@.update(
                index as int,
                spec_acquire(old(self).rate_limiters@[index as int], now).0,
            ),
            granted == spec_acquire(old(self).rate_limiters@[index as int], now).1,
    {
        let mut limiter: TokenBucketRateLimiter = self.rate_limiters[index];
        let granted: bool = limiter.acquire(now);
        self.rate_limiters.set(index, limiter);
        granted
    }

    /// Return a permit to one service's rate limiter.
    pub fn release_service(&mut self, index: usize)
        requires
            old(self).wf(),
            index < TOTAL_SERVICE_COUNT,
        ensures
            final(self).wf(),
            final(self).config == old(self).config,
            final(self).suspension_v4 == old(self).suspension_v4,
            final(self).suspension_v6 == old(self).suspension_v6,
            final(self).rate_limiters@.len() == TOTAL_SERVICE_COUNT,
            final(self).rate_limiters@[index as int].available == (if old(
                self,
            ).rate_limiters@[index as int].available < u32::MAX {
                (old(self).rate_limiters@[index as int].available + 1) as u32
            } else {
                old(self).rate_limiters@[index as int].available
            }),
            forall|i: int|
                0 <= i < TOTAL_SERVICE_COUNT && i != index ==> final(self).rate_limiters@[i] == old(
                    self,
                ).rate_limiters@[i],
    {
        let mut limiter: TokenBucketRateLimiter = self.rate_limiters[index];
        limiter.release();
        self.rate_limiters.set(index, limiter);
    }

    /// The consensus decision over a finished tally: the first address seen
    /// from enough services, or a failure carrying the count of what was
    /// collected.
    pub fn check_consensus(&self, responses: &[IpResponse], min_consensus: usize) -> (r: Result<
        IpAddress,
        IpDetectionError,
    >)
        ensures
            match spec_first_consensus(
                responses@.map_values(|x: IpResponse| x.ip),
                min_consensus as int,
            ) {
                Some(ip) => r == Result::<IpAddress, IpDetectionError>::Ok(ip),
                None => r == Result::<IpAddress, IpDetectionError>::Err(
                    IpDetectionError::ConsensusNotReached {
                        responses: responses@.len() as usize,
                        required: self.config.min_consensus,
                    },
                ),
            },
    {
        match first_consensus(responses, min_consensus) {
            Some(ip) => Ok(ip),
            None => Err(
                IpDetectionError::ConsensusNotReached {
                    responses: responses.len(),
                    required: self.config.min_consensus,
                },
            ),
        }
    }

    /// The configured interval between connectivity probes.
    pub fn get_network_retry_interval(&self) -> (r: u64)
        ensures
            r == self.config.network_retry_interval,
    {
        self.config.network_retry_interval
    }
}

/// How long a suspension has been standing, clamped below at zero against a
/// clock that stepped backwards.
pub open spec fn suspension_elapsed(s: VersionSuspension, now: u64) -> int {
    if now >= s.suspended_since {
        now - s.suspended_since
    } else {
        0
    }
}

/// The family that is not `version`.
pub open spec fn other_version(version: IpVersion) -> IpVersion {
    match version {
        IpVersion::V4 => IpVersion::V6,
        IpVersion::V6 => IpVersion::V4,
    }
}

/// Law: starting from a clean record, a run of at least
/// `MAX_CONSECUTIVE_FAILURES` consecutive failed cycles leaves the family
/// escalated, with the window stamped at the last failure; detection within
/// that window then fails fast.
pub proof fn lemma_failures_escalate(times: Seq<u64>)
    requires
        times.len() >= MAX_CONSECUTIVE_FAILURES,
        times.len() <= u32::MAX,
    ensures
        match spec_record_failures_all(None, times) {
            Some(s) => s.consecutive_failures >= MAX_CONSECUTIVE_FAILURES && s.suspended_since
                == times.last(),
            None => false,
        },
{
    lemma_failures_count(times);
}

proof fn lemma_failures_count(times: Seq<u64>)
    requires
        1 <= times.len() <= u32::MAX,
    ensures
        match spec_record_failures_all(None, times) {
            Some(s) => s.consecutive_failures == times.len() && (times.len()
                >= MAX_CONSECUTIVE_FAILURES ==> s.suspended_since == times.last()),
            None => false,
        },
    decreases times.len(),
{
    if times.len() == 1 {
        assert(times.drop_last().len() == 0);
        assert(spec_record_failures_all(None, times.drop_last()) is None);
    } else {
        lemma_failures_count(times.drop_last());
    }
}

} // verus!



