//! The zone synchronization engine.
//!
//! Given a target address and a zone's configuration, the engine reconciles
//! the provider's records against the target: it verifies that the zone is
//! active, walks the configured subdomains whose family policy matches the
//! target, consults the record cache before fetching, creates a missing
//! record, patches every record whose content differs, and retries failed
//! attempts out of a bounded per-zone budget. It is a state machine: the
//! caller performs each emitted action (an HTTP exchange, a cache operation,
//! a delay) and feeds the outcome back in; every decision is made and
//! verified here.

use vstd::prelude::*;
use vstd::string::StringSliceAdditionalSpecFns;
use vstd::string::StringExecFns;
use vstd::utf8::encode_utf8;

use crate::ip::{spec_parse_ip, parse_ip, IpAddress};
use crate::rate_limiter::{spec_acquire, RateLimitConfig, TokenBucketRateLimiter};
use crate::text::{eq_ignore_case, is_blank, str_eq_ignore_case, str_is_blank};

verus! {

/// Retry budget shared by all subdomains of one zone run.
pub const MAX_SYNC_RETRIES: u32 = 3;

/// Delay before a retried subdomain attempt.
pub const SYNC_RETRY_DELAY_SECS: u64 = 2;

/// Bound on a whole multi-zone update batch.
pub const UPDATE_TIMEOUT_SECS: u64 = 30;

/// Bound on one record fetch.
pub const FETCH_TIMEOUT_SECS: u64 = 10;

/// Which address families a subdomain is kept in sync for.
#[derive(Debug, Clone, Copy, PartialEq, Eq, Structural)]
pub enum IpVersion {
    V4,
    V6,
    Both,
}

impl Default for IpVersion {
    /// Subdomains follow both families unless configured otherwise.
    fn default() -> (r: Self)
        ensures
            r == IpVersion::Both,
    {
        IpVersion::Both
    }
}

/// Whether a subdomain policy covers a target of the given family.
pub open spec fn policy_matches(policy: IpVersion, family: crate::ip::IpVersion) -> bool {
    match policy {
        IpVersion::Both => true,
        IpVersion::V4 => family == crate::ip::IpVersion::V4,
        IpVersion::V6 => family == crate::ip::IpVersion::V6,
    }
}

/// One managed subdomain; an empty name stands for the zone apex.
#[derive(Debug, Clone)]
pub struct CfSubDomain {
    /// The subdomain label, empty for the zone apex.
    pub name: String,
    /// Which address families to keep in sync.
    pub ip_version: IpVersion,
}

/// One zone's configuration.
#[derive(Debug, Clone)]
pub struct CfConfig {
    /// Whether this zone takes part in updates.
    pub enabled: bool,
    /// The zone's domain name.
    pub name: String,
    /// The provider's zone identifier.
    pub zone_id: String,
    /// The bearer token used against the provider.
    pub api_token: String,
    /// The zone's request quota.
    pub rate_limit: RateLimitConfig,
    /// The subdomains to manage.
    pub subdomains: Vec<CfSubDomain>,
}

/// The provider's stock quota: a burst of requests per minute.
pub fn default_rate_limit_config() -> (r: RateLimitConfig)
    ensures
        r.max_requests == 30,
        r.window_secs == 60,
{
    RateLimitConfig { max_requests: 30, window_secs: 60 }
}

/// What a rejected zone configuration was rejected for.
#[derive(Debug, Clone)]
pub enum CloudflareValidationError {
    MissingZoneId,
    MissingApiToken,
    MissingName,
    NoSubdomains,
    InvalidRateLimit(String),
    InvalidIpVersion(String),
}

/// What a zone operation failed with.
#[derive(Debug, Clone)]
pub enum CloudflareError {
    InvalidApiToken(String),
    InvalidZoneId(String),
    NoSubdomains(String),
    HttpClientBuild(String),
    InvalidHeaderValue(String),
    UpdateFailed { zone: String, message: String },
    FetchFailed { zone: String, message: String },
    CreateFailed { zone: String, domain: String, message: String },
    RateLimited(String),
    InvalidRateLimit { zone: String, reason: String },
    InvalidSubdomain { zone: String, subdomain: String },
    InactiveZone(String, String),
    Timeout { zone: String, message: String },
    RetryExhausted { zone: String, retries: u32, message: String },
    UpdateTimeout,
    Api(String),
    RateLimitExceeded,
    Network(String),
    InvalidResponse(String),
    Validation(CloudflareValidationError),
}

/// One record as the provider reports it.
#[derive(Debug, Clone)]
pub struct DnsResponseResult {
    /// The provider's record identifier.
    pub id: String,
    /// The record content: the address as text.
    pub content: String,
    /// The record type name.
    pub record_type: String,
}

/// A record listing as the provider reports it.
#[derive(Debug)]
pub struct DnsResponse {
    pub result: Vec<DnsResponseResult>,
}

/// A zone's state as the provider reports it.
#[derive(Debug, Clone)]
pub struct ZoneResponseResult {
    /// The zone status, `"active"` when it is serving.
    pub status: String,
}

/// A zone lookup as the provider reports it.
#[derive(Debug, Clone)]
pub struct ZoneResponse {
    pub result: ZoneResponseResult,
    pub success: bool,
}

/// A zone configuration every field of which is usable.
pub open spec fn valid_cf_config(c: CfConfig) -> bool {
    &&& !is_blank(encode_utf8(c.zone_id@))
    &&& !is_blank(encode_utf8(c.api_token@))
    &&& !is_blank(encode_utf8(c.name@))
    &&& c.subdomains@.len() > 0
    &&& c.rate_limit.max_requests > 0
    &&& c.rate_limit.window_secs > 0
}

impl CfConfig {
    /// Reject a configuration with a blank zone id, token or name, no
    /// subdomains, or a zero quota. With at least one subdomain some family
    /// is always covered, so the family check at the end can never fire.
    pub fn validate(&self) -> (r: Result<(), CloudflareValidationError>)
        ensures
            r is Ok <==> valid_cf_config(*self),
            match r {
                Ok(_) => valid_cf_config(*self),
                Err(CloudflareValidationError::MissingZoneId) => is_blank(encode_utf8(self.zone_id@)),
                Err(CloudflareValidationError::MissingApiToken) => !is_blank(
                    encode_utf8(self.zone_id@),
                ) && is_blank(encode_utf8(self.api_token@)),
                Err(CloudflareValidationError::MissingName) => !is_blank(encode_utf8(self.zone_id@))
                    && !is_blank(encode_utf8(self.api_token@)) && is_blank(encode_utf8(self.name@)),
                Err(CloudflareValidationError::NoSubdomains) => !is_blank(encode_utf8(self.zone_id@))
                    && !is_blank(encode_utf8(self.api_token@)) && !is_blank(encode_utf8(self.name@))
                    && self.subdomains@.len() == 0,
                Err(CloudflareValidationError::InvalidRateLimit(_)) => !is_blank(
                    encode_utf8(self.zone_id@),
                ) && !is_blank(encode_utf8(self.api_token@)) && !is_blank(encode_utf8(self.name@))
                    && self.subdomains@.len() > 0 && (self.rate_limit.max_requests == 0
                    || self.rate_limit.window_secs == 0),
                Err(CloudflareValidationError::InvalidIpVersion(_)) => false,
            },
    {
        if str_is_blank(self.zone_id.as_str()) {
            return Err(CloudflareValidationError::MissingZoneId);
        }
        if str_is_blank(self.api_token.as_str()) {
            return Err(CloudflareValidationError::MissingApiToken);
        }
        if str_is_blank(self.name.as_str()) {
            return Err(CloudflareValidationError::MissingName);
        }
        if self.subdomains.len() == 0 {
            return Err(CloudflareValidationError::NoSubdomains);
        }
        if self.rate_limit.max_requests == 0 {
            return Err(
                CloudflareValidationError::InvalidRateLimit(
                    "max_requests must be greater than 0".to_owned(),
                ),
            );
        }
        if self.rate_limit.window_secs == 0 {
            return Err(
                CloudflareValidationError::InvalidRateLimit(
                    "window_secs must be greater than 0".to_owned(),
                ),
            );
        }
        let mut has_ipv4: bool = false;
        let mut has_ipv6: bool = false;
        let mut i: usize = 0;
        while i < self.subdomains.len()
            invariant
                0 <= i <= self.subdomains@.len(),
                i > 0 ==> (has_ipv4 || has_ipv6),
            decreases self.subdomains@.len() - i,
        {
            match self.subdomains[i].ip_version {
                IpVersion::V4 => {
                    has_ipv4 = true;
                },
                IpVersion::V6 => {
                    has_ipv6 = true;
                },
                IpVersion::Both => {
                    has_ipv4 = true;
                    has_ipv6 = true;
                },
            }
            i = i + 1;
        }
        if !has_ipv4 && !has_ipv6 {
            return Err(
                CloudflareValidationError::InvalidIpVersion(
                    "at least one subdomain must cover some address family".to_owned(),
                ),
            );
        }
        Ok(())
    }
}

/// A token the provider client may be built with: present and not the
/// configuration template's placeholder.
pub open spec fn usable_api_token(token: Seq<char>) -> bool {
    token.len() > 0 && encode_utf8(token) != encode_utf8("your_api_token_here"@)
}

/// The decision half of building the provider client: a missing or
/// placeholder token is refused before any request would carry it.
pub fn check_api_token(config: &CfConfig) -> (r: Result<(), CloudflareError>)
    ensures
        r is Ok <==> usable_api_token(config.api_token@),
        match r {
            Ok(_) => usable_api_token(config.api_token@),
            Err(CloudflareError::InvalidApiToken(zone)) => zone@ == config.name@,
            Err(_) => false,
        },
{
    let token: &str = config.api_token.as_str();
    if token.is_empty() || crate::text::bytes_equal(
        token.as_bytes(),
        "your_api_token_here".as_bytes(),
    ) {
        return Err(CloudflareError::InvalidApiToken(config.name.clone()));
    }
    Ok(())
}

/// What the second provider's record store needs done.
#[derive(Debug)]
pub enum ArvanPlan {
    /// No record exists yet: create one holding the target.
    Create,
    /// The record differs from the target: overwrite it.
    Patch { record_id: String },
    /// The record already carries the target: no write.
    UpToDate,
}

/// The reconcile rule of the second provider's flow, over what its lookup
/// returned: the first record's provider id and address text, if any record
/// exists. No record means create, differing content means patch, equal
/// content means nothing — the same rule the zone machine proves.
pub fn arvan_reconcile(existing: Option<(String, String)>, target: &str) -> (r: ArvanPlan)
    ensures
        match existing {
            None => r is Create,
            Some((record_id, content)) => if encode_utf8(content@) == encode_utf8(target@) {
                r is UpToDate
            } else {
                match r {
                    ArvanPlan::Patch { record_id: rid } => rid@ == record_id@,
                    _ => false,
                }
            },
        },
{
    match existing {
        None => ArvanPlan::Create,
        Some((record_id, content)) => {
            if crate::text::bytes_equal(content.as_str().as_bytes(), target.as_bytes()) {
                ArvanPlan::UpToDate
            } else {
                ArvanPlan::Patch { record_id }
            }
        },
    }
}

/// Whether a reported zone status means the zone is serving.
pub fn zone_is_active(status: &str) -> (r: bool)
    ensures
        r == eq_ignore_case(status.spec_bytes(), "active".spec_bytes()),
{
    str_eq_ignore_case(status, "active")
}

/// A record's content names exactly the target address.
pub open spec fn content_matches(r: DnsResponseResult, target: IpAddress) -> bool {
    spec_parse_ip(encode_utf8(r.content@)) == Some(target)
}

/// The first record at or after `from` whose content differs from the target
/// and therefore needs a patch.
pub open spec fn first_differing(records: Seq<DnsResponseResult>, from: int, target: IpAddress) -> Option<int>
    decreases records.len() - from,
{
    if from < 0 || from >= records.len() {
        None
    } else if content_matches(records[from], target) {
        first_differing(records, from + 1, target)
    } else {
        Some(from)
    }
}

/// What the caller must do next for a zone run.
#[derive(Debug)]
pub enum SyncAction {
    /// Ask the provider for the zone's status.
    CheckZoneStatus,
    /// Look the name up in the shared record cache.
    GetCachedRecord { domain: String },
    /// Fetch the name's records of the target's family from the provider.
    FetchRecords { domain: String, family: crate::ip::IpVersion },
    /// Create a record holding the target address.
    CreateRecord { domain: String, family: crate::ip::IpVersion, content: IpAddress },
    /// Patch an existing record over to the target address.
    PatchRecord { record_id: String, family: crate::ip::IpVersion, content: IpAddress },
    /// Drop the name from the shared record cache.
    InvalidateCache { domain: String },
    /// Remember the name's current record in the shared record cache.
    InsertCache { domain: String, record_id: String, content: IpAddress },
    /// Wait before retrying the current subdomain.
    SleepRetry { delay_secs: u64 },
    /// The zone run is over.
    Done(Result<(), CloudflareError>),
}

/// What the caller observed while carrying out the last action.
#[derive(Debug)]
pub enum SyncEvent {
    /// Begin the run.
    Start,
    /// The zone status call answered; `zone_status` is the parsed status
    /// string and is only read when the call succeeded.
    ZoneStatus { http_status: u16, zone_status: String },
    /// The transport failed.
    NetworkError { message: String },
    /// The call ran out of time.
    Timeout,
    /// The cache held a fresh record for the name.
    CacheHit { ip: IpAddress, record_id: String },
    /// The cache held nothing fresh for the name.
    CacheMiss,
    /// The record fetch answered; `records` is only read when it succeeded.
    FetchedRecords { http_status: u16, records: Vec<DnsResponseResult> },
    /// The create or patch call answered; `body` retains the response text
    /// for diagnostics.
    WriteDone { http_status: u16, body: String },
    /// The retry delay has passed.
    Slept,
    /// The cache operation was carried out.
    CacheDone,
}

/// Where a zone run stands.
#[derive(Debug)]
pub enum SyncState {
    /// The zone's status has not been confirmed yet.
    VerifyZone,
    /// Waiting for the cache's answer about `domain`.
    CacheLookup { domain: String },
    /// Waiting for the patch issued from a cache hit.
    AwaitCachePatch { domain: String },
    /// Waiting for the provider's record listing.
    AwaitFetch { domain: String },
    /// Waiting for the fetched record to be remembered in the cache.
    CachingFetched { domain: String, records: Vec<DnsResponseResult> },
    /// Waiting for the record creation to answer.
    AwaitCreate { domain: String },
    /// Waiting for a patch to answer; `next` is where reconciliation resumes.
    AwaitPatch { domain: String, records: Vec<DnsResponseResult>, next: usize },
    /// Waiting for the cache invalidation that follows a successful patch.
    AwaitInvalidate { domain: String, records: Vec<DnsResponseResult>, next: usize },
    /// Waiting out the delay before the current subdomain is retried.
    Sleeping { domain: String },
    /// The run is over.
    Finished,
}

/// The events a state is prepared to take.
pub open spec fn event_fits(state: SyncState, event: SyncEvent) -> bool {
    match (state, event) {
        (SyncState::VerifyZone, SyncEvent::Start) => true,
        (SyncState::VerifyZone, SyncEvent::ZoneStatus { .. }) => true,
        (SyncState::VerifyZone, SyncEvent::NetworkError { .. }) => true,
        (SyncState::VerifyZone, SyncEvent::Timeout) => true,
        (SyncState::CacheLookup { .. }, SyncEvent::CacheHit { .. }) => true,
        (SyncState::CacheLookup { .. }, SyncEvent::CacheMiss) => true,
        (SyncState::AwaitFetch { .. }, SyncEvent::FetchedRecords { .. }) => true,
        (SyncState::AwaitFetch { .. }, SyncEvent::NetworkError { .. }) => true,
        (SyncState::AwaitFetch { .. }, SyncEvent::Timeout) => true,
        (SyncState::CachingFetched { .. }, SyncEvent::CacheDone) => true,
        (SyncState::AwaitCreate { .. }, SyncEvent::WriteDone { .. }) => true,
        (SyncState::AwaitCreate { .. }, SyncEvent::NetworkError { .. }) => true,
        (SyncState::AwaitCreate { .. }, SyncEvent::Timeout) => true,
        (SyncState::AwaitPatch { .. }, SyncEvent::WriteDone { .. }) => true,
        (SyncState::AwaitPatch { .. }, SyncEvent::NetworkError { .. }) => true,
        (SyncState::AwaitPatch { .. }, SyncEvent::Timeout) => true,
        (SyncState::AwaitCachePatch { .. }, SyncEvent::WriteDone { .. }) => true,
        (SyncState::AwaitCachePatch { .. }, SyncEvent::NetworkError { .. }) => true,
        (SyncState::AwaitCachePatch { .. }, SyncEvent::Timeout) => true,
        (SyncState::AwaitInvalidate { .. }, SyncEvent::CacheDone) => true,
        (SyncState::Sleeping { .. }, SyncEvent::Slept) => true,
        _ => false,
    }
}

/// Actions that change a record at the provider; everything else is a read,
/// a cache operation, a delay, or the end of the run.
pub open spec fn is_write_action(a: SyncAction) -> bool {
    match a {
        SyncAction::CreateRecord { .. } => true,
        SyncAction::PatchRecord { .. } => true,
        _ => false,
    }
}

/// The event that proves the zone active: a successful status call whose
/// status string says so, case-insensitively.
pub open spec fn event_declares_active(e: SyncEvent) -> bool {
    match e {
        SyncEvent::ZoneStatus { http_status, zone_status } => 200 <= http_status < 300
            && eq_ignore_case(encode_utf8(zone_status@), encode_utf8("active"@)),
        _ => false,
    }
}

/// The domain a waiting state is about.
pub open spec fn state_domain(s: SyncState) -> Seq<char> {
    match s {
        SyncState::CacheLookup { domain } => domain@,
        SyncState::AwaitCachePatch { domain } => domain@,
        SyncState::AwaitFetch { domain } => domain@,
        SyncState::CachingFetched { domain, .. } => domain@,
        SyncState::AwaitCreate { domain } => domain@,
        SyncState::AwaitPatch { domain, .. } => domain@,
        SyncState::AwaitInvalidate { domain, .. } => domain@,
        SyncState::Sleeping { domain } => domain@,
        _ => Seq::empty(),
    }
}

/// An HTTP status that counts as success.
pub open spec fn spec_http_success(status: u16) -> bool {
    200 <= status < 300
}

fn http_success(status: u16) -> (r: bool)
    ensures
        r == spec_http_success(status),
{
    200 <= status && status < 300
}

/// A released permit pool.
pub open spec fn spec_release(l: TokenBucketRateLimiter) -> TokenBucketRateLimiter {
    TokenBucketRateLimiter {
        available: if l.available < u32::MAX {
            (l.available + 1) as u32
        } else {
            l.available
        },
        ..l
    }
}

/// How many of a batch's zone runs ended well.
pub open spec fn count_ok(outcomes: Seq<Result<(), CloudflareError>>) -> int
    decreases outcomes.len(),
{
    if outcomes.len() == 0 {
        0
    } else {
        count_ok(outcomes.drop_last()) + if outcomes.last() is Ok {
            1int
        } else {
            0int
        }
    }
}

/// The batch decision over all zones of one update round: well if any zone
/// run ended well or none failed, else the last failure is surfaced.
pub fn summarize_updates(outcomes: &Vec<Result<(), CloudflareError>>) -> (r: Result<usize, usize>)
    ensures
        match r {
            Ok(successes) => successes == count_ok(outcomes@) && (successes > 0 || forall|i: int|
                0 <= i < outcomes@.len() ==> !((#[trigger] outcomes@[i]) is Err)),
            Err(last_err) => {
                &&& count_ok(outcomes@) == 0
                &&& 0 <= last_err < outcomes@.len()
                &&& outcomes@[last_err as int] is Err
                &&& forall|i: int| last_err < i < outcomes@.len() ==> !((#[trigger] outcomes@[i]) is Err)
            },
        },
{
    let mut successes: usize = 0;
    let mut last_err: Option<usize> = None;
    let mut i: usize = 0;
    while i < outcomes.len()
        invariant
            0 <= i <= outcomes@.len(),
            successes == count_ok(outcomes@.take(i as int)),
            successes <= i,
            match last_err {
                Some(k) => 0 <= k < i && outcomes@[k as int] is Err && forall|j: int|
                    k < j < i ==> !((#[trigger] outcomes@[j]) is Err),
                None => forall|j: int| 0 <= j < i ==> !((#[trigger] outcomes@[j]) is Err),
            },
        decreases outcomes@.len() - i,
    {
        proof {
            assert(outcomes@.take(i + 1).drop_last() =~= outcomes@.take(i as int));
            assert(outcomes@.take(i + 1).last() == outcomes@[i as int]);
        }
        match &outcomes[i] {
            Ok(_) => {
                successes = successes + 1;
            },
            Err(_) => {
                last_err = Some(i);
            },
        }
        i = i + 1;
    }
    proof {
        assert(outcomes@.take(i as int) =~= outcomes@);
    }
    if successes > 0 {
        Ok(successes)
    } else {
        match last_err {
            Some(k) => Err(k),
            None => Ok(successes),
        }
    }
}

/// One zone's synchronization run against one target address.
pub struct ZoneSyncMachine {
    /// The zone being reconciled.
    pub config: CfConfig,
    /// The address every matching subdomain is brought to.
    pub target: IpAddress,
    /// The zone's request quota.
    pub limiter: TokenBucketRateLimiter,
    /// Where the run stands.
    pub state: SyncState,
    /// The subdomain currently being processed.
    pub sub_idx: usize,
    /// Retries spent so far, shared across the zone's subdomains.
    pub retry_count: u32,
    /// Subdomains brought in line so far.
    pub update_count: usize,
    /// Whether the provider has confirmed the zone active.
    pub zone_active: bool,
    /// The last failure that exhausted its retries.
    pub last_error: Option<CloudflareError>,
}

/// The full name a subdomain is synchronized under: the label dotted onto the
/// zone name, or the zone name alone for the apex.
pub open spec fn spec_full_name(sub: Seq<char>, zone: Seq<char>) -> Seq<char> {
    if sub.len() == 0 {
        zone
    } else {
        sub + "."@ + zone
    }
}

/// The walk from subdomain `from` onward: every subdomain whose policy does
/// not cover the target's family is skipped with no provider request; the
/// next covered subdomain's cache lookup follows, under its full name; and
/// the run finishes when no covered subdomain is left.
pub open spec fn spec_walk(
    cfg: CfConfig,
    target: IpAddress,
    from: int,
    post: ZoneSyncMachine,
    action: SyncAction,
) -> bool {
    &&& from <= post.sub_idx as int
    &&& (forall|j: int|
        from <= j < post.sub_idx ==> !policy_matches(
            (#[trigger] cfg.subdomains@[j]).ip_version,
            target.spec_family(),
        ))
    &&& match action {
        SyncAction::GetCachedRecord { domain } => {
            &&& post.state is CacheLookup
            &&& post.sub_idx < cfg.subdomains@.len()
            &&& policy_matches(
                cfg.subdomains@[post.sub_idx as int].ip_version,
                target.spec_family(),
            )
            &&& domain@ == spec_full_name(cfg.subdomains@[post.sub_idx as int].name@, cfg.name@)
        },
        SyncAction::Done(_) => post.state is Finished && post.sub_idx == cfg.subdomains@.len(),
        _ => false,
    }
}

/// The run's verdict surfaces the recorded failures: well exactly when none
/// survived its retries, and the last recorded failure otherwise.
pub open spec fn spec_run_result(prev_error: Option<CloudflareError>, action: SyncAction) -> bool {
    match action {
        SyncAction::Done(res) => match prev_error {
            Some(e) => res == Result::<(), CloudflareError>::Err(e),
            None => res == Result::<(), CloudflareError>::Ok(()),
        },
        _ => true,
    }
}

/// One subdomain settled with no unresolved failure: it is counted, the walk
/// moves past it, the retry budget is untouched, and an earlier recorded
/// failure is carried unchanged — so a failed subdomain never stops the rest.
pub open spec fn spec_subdomain_complete(
    pre: ZoneSyncMachine,
    post: ZoneSyncMachine,
    action: SyncAction,
) -> bool {
    &&& !is_write_action(action)
    &&& post.update_count == pre.update_count + 1
    &&& post.retry_count == pre.retry_count
    &&& spec_walk(pre.config, pre.target, pre.sub_idx + 1, post, action)
    &&& spec_run_result(pre.last_error, action)
    &&& (match action {
        SyncAction::GetCachedRecord { .. } => post.last_error == pre.last_error,
        _ => true,
    })
}

/// A failed attempt at the current subdomain, its failure classified by
/// `err_is`: within the shared budget the same subdomain is retried after the
/// fixed delay and nothing is written meanwhile; out of budget the classified
/// failure is recorded and the walk moves on, surfacing that failure if the
/// run ends.
pub open spec fn spec_fail_followup(
    pre: ZoneSyncMachine,
    post: ZoneSyncMachine,
    action: SyncAction,
    err_is: spec_fn(CloudflareError) -> bool,
) -> bool {
    &&& !is_write_action(action)
    &&& post.update_count == pre.update_count
    &&& if pre.retry_count < MAX_SYNC_RETRIES {
        &&& action == (SyncAction::SleepRetry { delay_secs: SYNC_RETRY_DELAY_SECS })
        &&& post.state is Sleeping
        &&& post.retry_count == pre.retry_count + 1
        &&& post.sub_idx == pre.sub_idx
        &&& post.last_error == pre.last_error
    } else {
        &&& post.retry_count == pre.retry_count
        &&& spec_walk(pre.config, pre.target, pre.sub_idx + 1, post, action)
        &&& match action {
            SyncAction::Done(res) => match res {
                Err(e) => err_is(e),
                Ok(_) => false,
            },
            SyncAction::GetCachedRecord { .. } => match post.last_error {
                Some(e) => err_is(e),
                None => false,
            },
            _ => false,
        }
    }
}

/// The reconcile decision over fetched records from index `from` on, with the
/// zone's quota standing at `limiter`: the first record whose content differs
/// is patched if a permit is granted, a denial counts as a failed
/// (rate-limited) attempt, and a tally with nothing left to patch settles the
/// subdomain.
pub open spec fn spec_reconcile(
    pre: ZoneSyncMachine,
    limiter: TokenBucketRateLimiter,
    post: ZoneSyncMachine,
    action: SyncAction,
    records: Seq<DnsResponseResult>,
    from: int,
    now: u64,
) -> bool {
    match first_differing(records, from, pre.target) {
        Some(i) => if spec_acquire(limiter, now).1 {
            match action {
                SyncAction::PatchRecord { record_id, family, content } => record_id@
                    == records[i].id@ && content == pre.target && family
                    == pre.target.spec_family() && post.state is AwaitPatch,
                _ => false,
            }
        } else {
            spec_fail_followup(
                pre,
                post,
                action,
                (|e: CloudflareError|
                    e matches CloudflareError::RateLimited(z) && z@ == pre.config.name@),
            )
        },
        None => spec_subdomain_complete(pre, post, action),
    }
}

/// How one step moves the zone's permit pool: a permit is taken before each
/// fetch, create or patch, and handed back once that call's outcome is in.
pub open spec fn spec_limiter_after(pre: ZoneSyncMachine, event: SyncEvent, now: u64) -> TokenBucketRateLimiter {
    match (pre.state, event) {
        (SyncState::CacheLookup { .. }, SyncEvent::CacheHit { ip, .. }) => if ip == pre.target {
            pre.limiter
        } else {
            spec_acquire(pre.limiter, now).0
        },
        (SyncState::CacheLookup { .. }, SyncEvent::CacheMiss) => spec_acquire(pre.limiter, now).0,
        (SyncState::AwaitFetch { .. }, SyncEvent::FetchedRecords { http_status, records }) => {
            let released = spec_release(pre.limiter);
            if spec_http_success(http_status) {
                if records@.len() == 0 {
                    spec_acquire(released, now).0
                } else {
                    match spec_parse_ip(encode_utf8(records@[0].content@)) {
                        Some(_) => released,
                        None => match first_differing(records@, 0, pre.target) {
                            Some(_) => spec_acquire(released, now).0,
                            None => released,
                        },
                    }
                }
            } else {
                released
            }
        },
        (SyncState::AwaitFetch { .. }, SyncEvent::NetworkError { .. }) => spec_release(pre.limiter),
        (SyncState::AwaitFetch { .. }, SyncEvent::Timeout) => spec_release(pre.limiter),
        (SyncState::AwaitCreate { .. }, SyncEvent::WriteDone { .. }) => spec_release(pre.limiter),
        (SyncState::AwaitCreate { .. }, SyncEvent::NetworkError { .. }) => spec_release(pre.limiter),
        (SyncState::AwaitCreate { .. }, SyncEvent::Timeout) => spec_release(pre.limiter),
        (SyncState::AwaitPatch { .. }, SyncEvent::WriteDone { .. }) => spec_release(pre.limiter),
        (SyncState::AwaitPatch { .. }, SyncEvent::NetworkError { .. }) => spec_release(pre.limiter),
        (SyncState::AwaitPatch { .. }, SyncEvent::Timeout) => spec_release(pre.limiter),
        (SyncState::AwaitCachePatch { .. }, SyncEvent::WriteDone { .. }) => spec_release(pre.limiter),
        (SyncState::AwaitCachePatch { .. }, SyncEvent::NetworkError { .. }) => spec_release(
            pre.limiter,
        ),
        (SyncState::AwaitCachePatch { .. }, SyncEvent::Timeout) => spec_release(pre.limiter),
        (SyncState::CachingFetched { records, .. }, SyncEvent::CacheDone) => match first_differing(
            records@,
            0,
            pre.target,
        ) {
            Some(_) => spec_acquire(pre.limiter, now).0,
            None => pre.limiter,
        },
        (SyncState::AwaitInvalidate { records, next, .. }, SyncEvent::CacheDone) => match first_differing(
            records@,
            next as int,
            pre.target,
        ) {
            Some(_) => spec_acquire(pre.limiter, now).0,
            None => pre.limiter,
        },
        _ => pre.limiter,
    }
}

impl ZoneSyncMachine {
    /// The run's invariant: indices in bounds, the retry budget respected,
    /// and no subdomain ever processed before the zone was confirmed active.
    pub open spec fn wf(self) -> bool {
        &&& self.sub_idx <= self.config.subdomains@.len()
        &&& self.update_count <= self.sub_idx
        &&& self.retry_count <= MAX_SYNC_RETRIES
        &&& match self.state {
            SyncState::VerifyZone => self.sub_idx == 0 && self.update_count == 0
                && self.retry_count == 0 && self.last_error is None,
            SyncState::Finished => true,
            SyncState::AwaitPatch { records, next, .. } => self.zone_active && self.sub_idx
                < self.config.subdomains@.len() && next <= records@.len(),
            SyncState::AwaitInvalidate { records, next, .. } => self.zone_active && self.sub_idx
                < self.config.subdomains@.len() && next <= records@.len(),
            _ => self.zone_active && self.sub_idx < self.config.subdomains@.len(),
        }
    }

    /// A fresh run over `config`, aiming every matching subdomain at
    /// `target`, with a full permit pool.
    pub fn new(config: CfConfig, target: IpAddress, now: u64) -> (m: Self)
        ensures
            m.wf(),
            m.config == config,
            m.target == target,
            m.state is VerifyZone,
            m.sub_idx == 0,
            m.retry_count == 0,
            m.update_count == 0,
            m.zone_active == false,
            m.last_error is None,
            m.limiter.max_requests == config.rate_limit.max_requests,
            m.limiter.window_secs == config.rate_limit.window_secs,
            m.limiter.available == config.rate_limit.max_requests,
            m.limiter.last_refill == now,
    {
        let limiter = TokenBucketRateLimiter::new(&config.rate_limit, now);
        ZoneSyncMachine {
            config,
            target,
            limiter,
            state: SyncState::VerifyZone,
            sub_idx: 0,
            retry_count: 0,
            update_count: 0,
            zone_active: false,
            last_error: None,
        }
    }

    /// Move on to the next subdomain covering the target's family, or finish
    /// the run: well exactly when no failure survived its retries.
    fn next_subdomain(&mut self) -> (action: SyncAction)
        requires
            old(self).wf(),
            old(self).zone_active,
        ensures
            final(self).wf(),
            final(self).config == old(self).config,
            final(self).target == old(self).target,
            final(self).zone_active == old(self).zone_active,
            final(self).limiter == old(self).limiter,
            final(self).update_count == old(self).update_count,
            final(self).retry_count == old(self).retry_count,
            !is_write_action(action),
            spec_walk(
                old(self).config,
                old(self).target,
                old(self).sub_idx as int,
                *final(self),
                action,
            ),
            spec_run_result(old(self).last_error, action),
            match action {
                SyncAction::GetCachedRecord { .. } => final(self).last_error == old(
                    self,
                ).last_error,
                SyncAction::Done(_) => true,
                _ => false,
            },
    {
        self.state = SyncState::Finished;
        loop
            invariant_except_break
                self.wf(),
                self.zone_active,
                self.zone_active == old(self).zone_active,
                self.config == old(self).config,
                self.target == old(self).target,
                self.limiter == old(self).limiter,
                self.last_error == old(self).last_error,
                self.retry_count == old(self).retry_count,
                self.update_count == old(self).update_count,
                self.state is Finished,
                old(self).sub_idx <= self.sub_idx,
                forall|j: int|
                    old(self).sub_idx <= j < self.sub_idx ==> !policy_matches(
                        (#[trigger] self.config.subdomains@[j]).ip_version,
                        self.target.spec_family(),
                    ),
            ensures
                self.wf(),
                self.zone_active,
                self.zone_active == old(self).zone_active,
                self.config == old(self).config,
                self.target == old(self).target,
                self.limiter == old(self).limiter,
                self.last_error == old(self).last_error,
                self.update_count == old(self).update_count,
                self.retry_count == old(self).retry_count,
                old(self).sub_idx <= self.sub_idx,
                self.state is Finished,
                self.sub_idx < self.config.subdomains@.len(),
                policy_matches(
                    self.config.subdomains@[self.sub_idx as int].ip_version,
                    self.target.spec_family(),
                ),
                forall|j: int|
                    old(self).sub_idx <= j < self.sub_idx ==> !policy_matches(
                        (#[trigger] self.config.subdomains@[j]).ip_version,
                        self.target.spec_family(),
                    ),
            decreases self.config.subdomains@.len() - self.sub_idx,
        {
            if self.sub_idx >= self.config.subdomains.len() {
                // Every subdomain has been handled: surface the outcome.
                let mut taken: Option<CloudflareError> = None;
                core::mem::swap(&mut taken, &mut self.last_error);
                return match taken {
                    Some(e) => SyncAction::Done(Err(e)),
                    None => SyncAction::Done(Ok(())),
                };
            }
            let policy: IpVersion = self.config.subdomains[self.sub_idx].ip_version;
            let fam: crate::ip::IpVersion = self.target.family();
            let matches_policy: bool = match policy {
                IpVersion::Both => true,
                IpVersion::V4 => fam == crate::ip::IpVersion::V4,
                IpVersion::V6 => fam == crate::ip::IpVersion::V6,
            };
            if matches_policy {
                break ;
            }
            self.sub_idx = self.sub_idx + 1;
        }
        // Build the fully-qualified name for the current subdomain.
        let sub_name: String = self.config.subdomains[self.sub_idx].name.clone();
        let domain: String = if sub_name.as_str().is_empty() {
            self.config.name.clone()
        } else {
            sub_name.concat(".").concat(self.config.name.as_str())
        };
        self.state = SyncState::CacheLookup { domain: domain.clone() };
        SyncAction::GetCachedRecord { domain }
    }

    /// The current subdomain is in line with the target: count it and move
    /// on.
    fn subdomain_done(&mut self) -> (action: SyncAction)
        requires
            old(self).wf(),
            old(self).zone_active,
            old(self).sub_idx < old(self).config.subdomains@.len(),
        ensures
            final(self).wf(),
            final(self).config == old(self).config,
            final(self).target == old(self).target,
            final(self).zone_active == old(self).zone_active,
            final(self).limiter == old(self).limiter,
            spec_subdomain_complete(*old(self), *final(self), action),
    {
        // Reading the length as a machine word bounds the counters below.
        let total: usize = self.config.subdomains.len();
        proof {
            assert(self.config.subdomains@.len() == total);
        }
        self.state = SyncState::Finished;
        self.update_count = self.update_count + 1;
        self.sub_idx = self.sub_idx + 1;
        self.next_subdomain()
    }

    /// The current attempt at a subdomain failed: retry it out of the shared
    /// budget after a delay, or record the failure and move on.
    fn fail_attempt(&mut self, err: CloudflareError, domain: String) -> (action: SyncAction)
        requires
            old(self).wf(),
            old(self).zone_active,
            old(self).sub_idx < old(self).config.subdomains@.len(),
        ensures
            final(self).wf(),
            final(self).config == old(self).config,
            final(self).target == old(self).target,
            final(self).zone_active == old(self).zone_active,
            final(self).limiter == old(self).limiter,
            final(self).update_count == old(self).update_count,
            !is_write_action(action),
            if old(self).retry_count < MAX_SYNC_RETRIES {
                &&& action == (SyncAction::SleepRetry { delay_secs: SYNC_RETRY_DELAY_SECS })
                &&& final(self).retry_count == old(self).retry_count + 1
                &&& final(self).sub_idx == old(self).sub_idx
                &&& final(self).last_error == old(self).last_error
                &&& match final(self).state {
                    SyncState::Sleeping { domain: d } => d@ == domain@,
                    _ => false,
                }
            } else {
                &&& final(self).retry_count == old(self).retry_count
                &&& spec_walk(
                    old(self).config,
                    old(self).target,
                    old(self).sub_idx + 1,
                    *final(self),
                    action,
                )
                &&& match action {
                    SyncAction::Done(res) => res == Result::<(), CloudflareError>::Err(err),
                    SyncAction::GetCachedRecord { .. } => final(self).last_error == Some(err),
                    _ => false,
                }
            },
    {
        if self.retry_count < MAX_SYNC_RETRIES {
            self.retry_count = self.retry_count + 1;
            self.state = SyncState::Sleeping { domain };
            SyncAction::SleepRetry { delay_secs: SYNC_RETRY_DELAY_SECS }
        } else {
            // Reading the length as a machine word bounds the index below.
            let total: usize = self.config.subdomains.len();
            proof {
                assert(self.config.subdomains@.len() == total);
            }
            self.state = SyncState::Finished;
            self.last_error = Some(err);
            self.sub_idx = self.sub_idx + 1;
            self.next_subdomain()
        }
    }

    /// Reconcile the fetched records from `next` on: skip records already at
    /// the target, patch the first that differs, and finish the subdomain
    /// when none is left. A write happens only when the zone's quota grants a
    /// permit; a denial counts as a failed attempt.
    fn plan_records(
        &mut self,
        domain: String,
        records: Vec<DnsResponseResult>,
        next: usize,
        now: u64,
    ) -> (action: SyncAction)
        requires
            old(self).wf(),
            old(self).zone_active,
            old(self).sub_idx < old(self).config.subdomains@.len(),
            next <= records@.len(),
        ensures
            final(self).wf(),
            final(self).config == old(self).config,
            final(self).target == old(self).target,
            final(self).zone_active == old(self).zone_active,
            action is Done ==> final(self).state is Finished,
            final(self).limiter == (match first_differing(records@, next as int, old(self).target) {
                Some(_) => spec_acquire(old(self).limiter, now).0,
                None => old(self).limiter,
            }),
            spec_reconcile(
                *old(self),
                old(self).limiter,
                *final(self),
                action,
                records@,
                next as int,
                now,
            ),
    {
        let mut k: usize = next;
        loop
            invariant_except_break
                *self == *old(self),
                next <= k <= records@.len(),
                first_differing(records@, next as int, old(self).target) == first_differing(
                    records@,
                    k as int,
                    old(self).target,
                ),
            ensures
                *self == *old(self),
                next <= k <= records@.len(),
                match first_differing(records@, next as int, old(self).target) {
                    Some(i) => k < records@.len() && i == k,
                    None => k >= records@.len(),
                },
            decreases records@.len() - k,
        {
            if k >= records.len() {
                break ;
            }
            let matches_target: bool = match parse_ip(records[k].content.as_str().as_bytes()) {
                Some(ip) => ip == self.target,
                None => false,
            };
            if !matches_target {
                break ;
            }
            k = k + 1;
        }
        if k < records.len() {
            let granted: bool = self.limiter.acquire(now);
            if granted {
                let record_id: String = records[k].id.clone();
                let family: crate::ip::IpVersion = self.target.family();
                let content: IpAddress = self.target;
                self.state = SyncState::AwaitPatch { domain, records, next: k + 1 };
                SyncAction::PatchRecord { record_id, family, content }
            } else {
                let zone: String = self.config.name.clone();
                self.fail_attempt(CloudflareError::RateLimited(zone), domain)
            }
        } else {
            self.subdomain_done()
        }
    }

    /// Drive the run one step: take in what the last action observed, decide,
    /// and hand out the next action. A record is only ever written against a
    /// zone the provider confirmed active, every write carries exactly the
    /// target address, and a successful patch is followed by the cache
    /// invalidation for its name.
    pub fn step(&mut self, event: SyncEvent, now: u64) -> (action: SyncAction)
        requires
            old(self).wf(),
            event_fits(old(self).state, event),
        ensures
            final(self).wf(),
            final(self).config == old(self).config,
            final(self).target == old(self).target,
            is_write_action(action) ==> final(self).zone_active,
            final(self).zone_active ==> old(self).zone_active || event_declares_active(event),
            // a permit is taken before each fetch, create or patch, and handed
            // back once that call's outcome is in
            final(self).limiter == spec_limiter_after(*old(self), event, now),
            // every write carries exactly the target
            match action {
                SyncAction::CreateRecord { content, family, .. } => content == old(self).target
                    && family == old(self).target.spec_family(),
                SyncAction::PatchRecord { content, family, .. } => content == old(self).target
                    && family == old(self).target.spec_family(),
                _ => true,
            },
            action is Done ==> final(self).state is Finished,
            // the zone gate: every answer to the status call classified
            (match (old(self).state, event) {
                (SyncState::VerifyZone, SyncEvent::Start) => action is CheckZoneStatus
                    && final(self).state is VerifyZone,
                (SyncState::VerifyZone, SyncEvent::ZoneStatus { http_status, zone_status }) => {
                    &&& (http_status == 401 ==> (match action {
                        SyncAction::Done(Err(CloudflareError::InvalidApiToken(z))) => z@ == old(
                            self,
                        ).config.name@,
                        _ => false,
                    }))
                    &&& (!spec_http_success(http_status) && http_status != 401 ==> (match action {
                        SyncAction::Done(Err(CloudflareError::FetchFailed { zone, .. })) => zone@
                            == old(self).config.name@,
                        _ => false,
                    }))
                    &&& (spec_http_success(http_status) && !eq_ignore_case(
                        encode_utf8(zone_status@),
                        encode_utf8("active"@),
                    ) ==> (match action {
                        SyncAction::Done(Err(CloudflareError::InactiveZone(z, st))) => z@ == old(
                            self,
                        ).config.name@ && st@ == zone_status@,
                        _ => false,
                    }))
                    &&& (spec_http_success(http_status) && eq_ignore_case(
                        encode_utf8(zone_status@),
                        encode_utf8("active"@),
                    ) ==> {
                        &&& final(self).zone_active
                        &&& spec_walk(old(self).config, old(self).target, 0, *final(self), action)
                        &&& spec_run_result(None, action)
                    })
                },
                (SyncState::VerifyZone, SyncEvent::NetworkError { message }) => match action {
                    SyncAction::Done(Err(CloudflareError::FetchFailed { zone, message: m })) => zone@
                        == old(self).config.name@ && m@ == message@,
                    _ => false,
                },
                (SyncState::VerifyZone, SyncEvent::Timeout) => match action {
                    SyncAction::Done(Err(CloudflareError::Timeout { zone, .. })) => zone@ == old(
                        self,
                    ).config.name@,
                    _ => false,
                },
                _ => true,
            }),
            // the cache consult: a fresh hit at the target settles the
            // subdomain with no provider traffic, a stale hit is patched under
            // the cached record id, a miss fetches — each write behind a
            // permit, each denial a failed (rate-limited) attempt
            (match (old(self).state, event) {
                (SyncState::CacheLookup { .. }, SyncEvent::CacheHit { ip, record_id }) => {
                    if ip == old(self).target {
                        spec_subdomain_complete(*old(self), *final(self), action)
                    } else if spec_acquire(old(self).limiter, now).1 {
                        match action {
                            SyncAction::PatchRecord { record_id: rid, .. } => rid@ == record_id@
                                && final(self).state is AwaitCachePatch,
                            _ => false,
                        }
                    } else {
                        spec_fail_followup(
                            *old(self),
                            *final(self),
                            action,
                            (|e: CloudflareError|
                                e matches CloudflareError::RateLimited(z) && z@ == old(
                                    self,
                                ).config.name@),
                        )
                    }
                },
                (SyncState::CacheLookup { domain }, SyncEvent::CacheMiss) => {
                    if spec_acquire(old(self).limiter, now).1 {
                        match action {
                            SyncAction::FetchRecords { domain: d, family } => d@ == domain@
                                && family == old(self).target.spec_family() && final(self).state is AwaitFetch,
                            _ => false,
                        }
                    } else {
                        spec_fail_followup(
                            *old(self),
                            *final(self),
                            action,
                            (|e: CloudflareError|
                                e matches CloudflareError::RateLimited(z) && z@ == old(
                                    self,
                                ).config.name@),
                        )
                    }
                },
                _ => true,
            }),
            // the record fetch: failures classified and retried out of the
            // budget, an empty listing leads to the create, a nonempty one is
            // remembered in the cache and then reconciled
            (match (old(self).state, event) {
                (
                    SyncState::AwaitFetch { domain },
                    SyncEvent::FetchedRecords { http_status, records },
                ) => {
                    if http_status == 401 {
                        spec_fail_followup(
                            *old(self),
                            *final(self),
                            action,
                            (|e: CloudflareError|
                                e matches CloudflareError::InvalidApiToken(z) && z@ == old(
                                    self,
                                ).config.name@),
                        )
                    } else if !spec_http_success(http_status) {
                        spec_fail_followup(
                            *old(self),
                            *final(self),
                            action,
                            (|e: CloudflareError|
                                e matches CloudflareError::FetchFailed { zone, .. } && zone@ == old(
                                    self,
                                ).config.name@),
                        )
                    } else if records@.len() == 0 {
                        if spec_acquire(spec_release(old(self).limiter), now).1 {
                            match action {
                                SyncAction::CreateRecord { domain: d, .. } => d@ == domain@
                                    && final(self).state is AwaitCreate,
                                _ => false,
                            }
                        } else {
                            spec_fail_followup(
                                *old(self),
                                *final(self),
                                action,
                                (|e: CloudflareError|
                                    e matches CloudflareError::RateLimited(z) && z@ == old(
                                        self,
                                    ).config.name@),
                            )
                        }
                    } else {
                        match spec_parse_ip(encode_utf8(records@[0].content@)) {
                            Some(seen) => match action {
                                SyncAction::InsertCache { domain: d, record_id, content } => d@
                                    == domain@ && record_id@ == records@[0].id@ && content == seen
                                    && final(self).state is CachingFetched,
                                _ => false,
                            },
                            None => spec_reconcile(
                                *old(self),
                                spec_release(old(self).limiter),
                                *final(self),
                                action,
                                records@,
                                0,
                                now,
                            ),
                        }
                    }
                },
                (SyncState::AwaitFetch { .. }, SyncEvent::NetworkError { message }) => spec_fail_followup(
                    *old(self),
                    *final(self),
                    action,
                    (|e: CloudflareError|
                        e matches CloudflareError::FetchFailed { zone, message: m } && zone@ == old(
                            self,
                        ).config.name@ && m@ == message@),
                ),
                (SyncState::AwaitFetch { .. }, SyncEvent::Timeout) => spec_fail_followup(
                    *old(self),
                    *final(self),
                    action,
                    (|e: CloudflareError|
                        e matches CloudflareError::Timeout { zone, .. } && zone@ == old(
                            self,
                        ).config.name@),
                ),
                _ => true,
            }),
            // the write answers: an accepted create settles the subdomain, an
            // accepted patch is followed by the cache invalidation for its
            // name, and failures are classified and retried
            (match (old(self).state, event) {
                (SyncState::AwaitCreate { domain }, SyncEvent::WriteDone { http_status, body }) => {
                    if http_status == 401 {
                        spec_fail_followup(
                            *old(self),
                            *final(self),
                            action,
                            (|e: CloudflareError|
                                e matches CloudflareError::InvalidApiToken(z) && z@ == old(
                                    self,
                                ).config.name@),
                        )
                    } else if !spec_http_success(http_status) {
                        spec_fail_followup(
                            *old(self),
                            *final(self),
                            action,
                            (|e: CloudflareError|
                                e matches CloudflareError::CreateFailed { zone, domain: d, message }
                                    && zone@ == old(self).config.name@ && d@ == domain@ && message@
                                    == body@),
                        )
                    } else {
                        spec_subdomain_complete(*old(self), *final(self), action)
                    }
                },
                (SyncState::AwaitCreate { domain }, SyncEvent::NetworkError { message }) => spec_fail_followup(
                    *old(self),
                    *final(self),
                    action,
                    (|e: CloudflareError|
                        e matches CloudflareError::CreateFailed { zone, domain: d, message: m }
                            && zone@ == old(self).config.name@ && d@ == domain@ && m@ == message@),
                ),
                (SyncState::AwaitCreate { domain }, SyncEvent::Timeout) => spec_fail_followup(
                    *old(self),
                    *final(self),
                    action,
                    (|e: CloudflareError|
                        e matches CloudflareError::CreateFailed { zone, domain: d, .. } && zone@
                            == old(self).config.name@ && d@ == domain@),
                ),
                (SyncState::AwaitPatch { domain, .. }, SyncEvent::WriteDone { http_status, body }) => {
                    if http_status == 401 {
                        spec_fail_followup(
                            *old(self),
                            *final(self),
                            action,
                            (|e: CloudflareError|
                                e matches CloudflareError::InvalidApiToken(z) && z@ == old(
                                    self,
                                ).config.name@),
                        )
                    } else if !spec_http_success(http_status) {
                        spec_fail_followup(
                            *old(self),
                            *final(self),
                            action,
                            (|e: CloudflareError|
                                e matches CloudflareError::UpdateFailed { zone, message } && zone@
                                    == old(self).config.name@ && message@ == body@),
                        )
                    } else {
                        match action {
                            SyncAction::InvalidateCache { domain: d } => d@ == domain@ && final(self).state is AwaitInvalidate,
                            _ => false,
                        }
                    }
                },
                (SyncState::AwaitPatch { .. }, SyncEvent::NetworkError { message }) => spec_fail_followup(
                    *old(self),
                    *final(self),
                    action,
                    (|e: CloudflareError|
                        e matches CloudflareError::UpdateFailed { zone, message: m } && zone@ == old(
                            self,
                        ).config.name@ && m@ == message@),
                ),
                (SyncState::AwaitPatch { .. }, SyncEvent::Timeout) => spec_fail_followup(
                    *old(self),
                    *final(self),
                    action,
                    (|e: CloudflareError|
                        e matches CloudflareError::UpdateFailed { zone, .. } && zone@ == old(
                            self,
                        ).config.name@),
                ),
                (SyncState::AwaitCachePatch { domain }, SyncEvent::WriteDone { http_status, body }) => {
                    if http_status == 401 {
                        spec_fail_followup(
                            *old(self),
                            *final(self),
                            action,
                            (|e: CloudflareError|
                                e matches CloudflareError::InvalidApiToken(z) && z@ == old(
                                    self,
                                ).config.name@),
                        )
                    } else if !spec_http_success(http_status) {
                        spec_fail_followup(
                            *old(self),
                            *final(self),
                            action,
                            (|e: CloudflareError|
                                e matches CloudflareError::UpdateFailed { zone, message } && zone@
                                    == old(self).config.name@ && message@ == body@),
                        )
                    } else {
                        match action {
                            SyncAction::InvalidateCache { domain: d } => d@ == domain@ && final(self).state is AwaitInvalidate,
                            _ => false,
                        }
                    }
                },
                (SyncState::AwaitCachePatch { .. }, SyncEvent::NetworkError { message }) => spec_fail_followup(
                    *old(self),
                    *final(self),
                    action,
                    (|e: CloudflareError|
                        e matches CloudflareError::UpdateFailed { zone, message: m } && zone@ == old(
                            self,
                        ).config.name@ && m@ == message@),
                ),
                (SyncState::AwaitCachePatch { .. }, SyncEvent::Timeout) => spec_fail_followup(
                    *old(self),
                    *final(self),
                    action,
                    (|e: CloudflareError|
                        e matches CloudflareError::UpdateFailed { zone, .. } && zone@ == old(
                            self,
                        ).config.name@),
                ),
                _ => true,
            }),
            // the reconcile continuation after each cache operation
            (match (old(self).state, event) {
                (SyncState::CachingFetched { records, .. }, SyncEvent::CacheDone) => spec_reconcile(
                    *old(self),
                    old(self).limiter,
                    *final(self),
                    action,
                    records@,
                    0,
                    now,
                ),
                (
                    SyncState::AwaitInvalidate { records, next, .. },
                    SyncEvent::CacheDone,
                ) => spec_reconcile(
                    *old(self),
                    old(self).limiter,
                    *final(self),
                    action,
                    records@,
                    next as int,
                    now,
                ),
                _ => true,
            }),
            // a finished delay resumes the same subdomain at its cache lookup
            (match (old(self).state, event) {
                (SyncState::Sleeping { domain }, SyncEvent::Slept) => match action {
                    SyncAction::GetCachedRecord { domain: d } => d@ == domain@ && final(self).state is CacheLookup,
                    _ => false,
                },
                _ => true,
            }),
    {
        let mut st: SyncState = SyncState::Finished;
        core::mem::swap(&mut st, &mut self.state);
        match (st, event) {
            (SyncState::VerifyZone, SyncEvent::Start) => {
                self.state = SyncState::VerifyZone;
                SyncAction::CheckZoneStatus
            },
            (SyncState::VerifyZone, SyncEvent::ZoneStatus { http_status, zone_status }) => {
                if http_status == 401 {
                    SyncAction::Done(
                        Err(CloudflareError::InvalidApiToken(self.config.name.clone())),
                    )
                } else if !http_success(http_status) {
                    SyncAction::Done(
                        Err(
                            CloudflareError::FetchFailed {
                                zone: self.config.name.clone(),
                                message: "zone status request failed".to_owned(),
                            },
                        ),
                    )
                } else if zone_is_active(zone_status.as_str()) {
                    self.zone_active = true;
                    self.next_subdomain()
                } else {
                    SyncAction::Done(
                        Err(CloudflareError::InactiveZone(self.config.name.clone(), zone_status)),
                    )
                }
            },
            (SyncState::VerifyZone, SyncEvent::NetworkError { message }) => {
                SyncAction::Done(
                    Err(CloudflareError::FetchFailed { zone: self.config.name.clone(), message }),
                )
            },
            (SyncState::VerifyZone, SyncEvent::Timeout) => {
                SyncAction::Done(
                    Err(
                        CloudflareError::Timeout {
                            zone: self.config.name.clone(),
                            message: "zone status request timed out".to_owned(),
                        },
                    ),
                )
            },
            (SyncState::CacheLookup { domain }, SyncEvent::CacheHit { ip, record_id }) => {
                if ip == self.target {
                    // The cached record already carries the target: nothing
                    // to write for this subdomain.
                    self.subdomain_done()
                } else {
                    let granted: bool = self.limiter.acquire(now);
                    if granted {
                        let family: crate::ip::IpVersion = self.target.family();
                        let content: IpAddress = self.target;
                        self.state = SyncState::AwaitCachePatch { domain };
                        SyncAction::PatchRecord { record_id, family, content }
                    } else {
                        let zone: String = self.config.name.clone();
                        self.fail_attempt(CloudflareError::RateLimited(zone), domain)
                    }
                }
            },
            (SyncState::CacheLookup { domain }, SyncEvent::CacheMiss) => {
                let granted: bool = self.limiter.acquire(now);
                if granted {
                    let family: crate::ip::IpVersion = self.target.family();
                    self.state = SyncState::AwaitFetch { domain: domain.clone() };
                    SyncAction::FetchRecords { domain, family }
                } else {
                    let zone: String = self.config.name.clone();
                    self.fail_attempt(CloudflareError::RateLimited(zone), domain)
                }
            },
            (SyncState::AwaitFetch { domain }, SyncEvent::FetchedRecords { http_status, records }) => {
                self.limiter.release();
                if http_status == 401 {
                    let zone: String = self.config.name.clone();
                    self.fail_attempt(CloudflareError::InvalidApiToken(zone), domain)
                } else if !http_success(http_status) {
                    let zone: String = self.config.name.clone();
                    self.fail_attempt(
                        CloudflareError::FetchFailed {
                            zone,
                            message: "record fetch failed".to_owned(),
                        },
                        domain,
                    )
                } else if records.len() == 0 {
                    // No record yet: create one holding the target.
                    let granted: bool = self.limiter.acquire(now);
                    if granted {
                        let family: crate::ip::IpVersion = self.target.family();
                        let content: IpAddress = self.target;
                        self.state = SyncState::AwaitCreate { domain: domain.clone() };
                        SyncAction::CreateRecord { domain, family, content }
                    } else {
                        let zone: String = self.config.name.clone();
                        self.fail_attempt(CloudflareError::RateLimited(zone), domain)
                    }
                } else {
                    // Remember what the provider has before reconciling.
                    match parse_ip(records[0].content.as_str().as_bytes()) {
                        Some(seen) => {
                            let record_id: String = records[0].id.clone();
                            let d: String = domain.clone();
                            self.state = SyncState::CachingFetched { domain, records };
                            SyncAction::InsertCache { domain: d, record_id, content: seen }
                        },
                        None => self.plan_records(domain, records, 0, now),
                    }
                }
            },
            (SyncState::AwaitFetch { domain }, SyncEvent::NetworkError { message }) => {
                self.limiter.release();
                let zone: String = self.config.name.clone();
                self.fail_attempt(CloudflareError::FetchFailed { zone, message }, domain)
            },
            (SyncState::AwaitFetch { domain }, SyncEvent::Timeout) => {
                self.limiter.release();
                let zone: String = self.config.name.clone();
                self.fail_attempt(
                    CloudflareError::Timeout {
                        zone,
                        message: "record fetch timed out".to_owned(),
                    },
                    domain,
                )
            },
            (SyncState::CachingFetched { domain, records }, SyncEvent::CacheDone) => {
                self.plan_records(domain, records, 0, now)
            },
            (SyncState::AwaitCreate { domain }, SyncEvent::WriteDone { http_status, body }) => {
                self.limiter.release();
                if http_status == 401 {
                    let zone: String = self.config.name.clone();
                    self.fail_attempt(CloudflareError::InvalidApiToken(zone), domain)
                } else if !http_success(http_status) {
                    let zone: String = self.config.name.clone();
                    let d: String = domain.clone();
                    self.fail_attempt(
                        CloudflareError::CreateFailed { zone, domain: d, message: body },
                        domain,
                    )
                } else {
                    self.subdomain_done()
                }
            },
            (SyncState::AwaitCreate { domain }, SyncEvent::NetworkError { message }) => {
                self.limiter.release();
                let zone: String = self.config.name.clone();
                let d: String = domain.clone();
                self.fail_attempt(
                    CloudflareError::CreateFailed { zone, domain: d, message },
                    domain,
                )
            },
            (SyncState::AwaitCreate { domain }, SyncEvent::Timeout) => {
                self.limiter.release();
                let zone: String = self.config.name.clone();
                let d: String = domain.clone();
                self.fail_attempt(
                    CloudflareError::CreateFailed {
                        zone,
                        domain: d,
                        message: "record creation timed out".to_owned(),
                    },
                    domain,
                )
            },
            (
                SyncState::AwaitPatch { domain, records, next },
                SyncEvent::WriteDone { http_status, body },
            ) => {
                self.limiter.release();
                if http_status == 401 {
                    let zone: String = self.config.name.clone();
                    self.fail_attempt(CloudflareError::InvalidApiToken(zone), domain)
                } else if !http_success(http_status) {
                    let zone: String = self.config.name.clone();
                    self.fail_attempt(CloudflareError::UpdateFailed { zone, message: body }, domain)
                } else {
                    // The write went through: drop the now-stale cache entry.
                    let d: String = domain.clone();
                    self.state = SyncState::AwaitInvalidate { domain, records, next };
                    SyncAction::InvalidateCache { domain: d }
                }
            },
            (SyncState::AwaitPatch { domain, .. }, SyncEvent::NetworkError { message }) => {
                self.limiter.release();
                let zone: String = self.config.name.clone();
                self.fail_attempt(CloudflareError::UpdateFailed { zone, message }, domain)
            },
            (SyncState::AwaitPatch { domain, .. }, SyncEvent::Timeout) => {
                self.limiter.release();
                let zone: String = self.config.name.clone();
                self.fail_attempt(
                    CloudflareError::UpdateFailed {
                        zone,
                        message: "record update timed out".to_owned(),
                    },
                    domain,
                )
            },
            (SyncState::AwaitCachePatch { domain }, SyncEvent::WriteDone { http_status, body }) => {
                self.limiter.release();
                if http_status == 401 {
                    let zone: String = self.config.name.clone();
                    self.fail_attempt(CloudflareError::InvalidApiToken(zone), domain)
                } else if !http_success(http_status) {
                    let zone: String = self.config.name.clone();
                    self.fail_attempt(CloudflareError::UpdateFailed { zone, message: body }, domain)
                } else {
                    let d: String = domain.clone();
                    self.state = SyncState::AwaitInvalidate {
                        domain,
                        records: Vec::new(),
                        next: 0,
                    };
                    SyncAction::InvalidateCache { domain: d }
                }
            },
            (SyncState::AwaitCachePatch { domain }, SyncEvent::NetworkError { message }) => {
                self.limiter.release();
                let zone: String = self.config.name.clone();
                self.fail_attempt(CloudflareError::UpdateFailed { zone, message }, domain)
            },
            (SyncState::AwaitCachePatch { domain }, SyncEvent::Timeout) => {
                self.limiter.release();
                let zone: String = self.config.name.clone();
                self.fail_attempt(
                    CloudflareError::UpdateFailed {
                        zone,
                        message: "record update timed out".to_owned(),
                    },
                    domain,
                )
            },
            (SyncState::AwaitInvalidate { domain, records, next }, SyncEvent::CacheDone) => {
                self.plan_records(domain, records, next, now)
            },
            (SyncState::Sleeping { domain }, SyncEvent::Slept) => {
                let d: String = domain.clone();
                self.state = SyncState::CacheLookup { domain };
                SyncAction::GetCachedRecord { domain: d }
            },
            (_, _) => {
                proof {
                    assert(false);
                }
                SyncAction::Done(Err(CloudflareError::Api("unexpected event".to_owned())))
            },
        }
    }
}

} // verus!
