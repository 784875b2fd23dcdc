//! A bounded, TTL-based cache of provider records, keyed by domain name.
//!
//! The cache tracks its approximate byte footprint incrementally and keeps it
//! under a fixed ceiling: when an insertion would exceed the ceiling, entries
//! are evicted strictly oldest-timestamp-first until the new entry fits, and
//! never more than that. A read never returns an entry whose age has reached
//! the TTL; expired entries are dropped lazily, not on read.

use vstd::prelude::*;
use vstd::string::StringSliceAdditionalSpecFns;
use vstd::utf8::encode_utf8;

use crate::ip::IpAddress;

verus! {

/// Ceiling on the cache's tracked byte footprint.
pub const MAX_CACHE_SIZE_BYTES: usize = 25 * 1024 * 1024;

/// Approximate footprint of the address field of an entry.
pub const ADDRESS_FOOTPRINT_BYTES: usize = 17;

/// Approximate footprint of the timestamp field of an entry.
pub const TIMESTAMP_FOOTPRINT_BYTES: usize = 16;

/// One cached provider record.
#[derive(Debug, Clone)]
pub struct CachedRecord {
    /// The address the record resolves to.
    pub ip: IpAddress,
    /// The provider's identifier for the record.
    pub record_id: String,
    /// The provider owning the record.
    pub provider: String,
    /// When the record was observed, in seconds.
    pub timestamp: u64,
}

/// Records agree on every field.
pub open spec fn rec_eq(a: CachedRecord, b: CachedRecord) -> bool {
    &&& a.ip == b.ip
    &&& a.record_id@ == b.record_id@
    &&& a.provider@ == b.provider@
    &&& a.timestamp == b.timestamp
}

/// A keyed entry as stored.
#[derive(Debug)]
pub struct CacheEntry {
    /// The domain name the record was fetched for.
    pub domain: String,
    /// The record itself.
    pub record: CachedRecord,
}

/// The tracked footprint of one entry: its variable-length strings plus the
/// fixed-size fields.
pub open spec fn spec_record_size(domain: Seq<char>, record: CachedRecord) -> int {
    encode_utf8(domain).len() + encode_utf8(record.record_id@).len() + encode_utf8(
        record.provider@,
    ).len() + ADDRESS_FOOTPRINT_BYTES + TIMESTAMP_FOOTPRINT_BYTES
}

pub open spec fn entry_size(e: CacheEntry) -> int {
    spec_record_size(e.domain@, e.record)
}

/// The tracked footprint of a whole entry sequence.
pub open spec fn total_size(s: Seq<CacheEntry>) -> int
    decreases s.len(),
{
    if s.len() == 0 {
        0
    } else {
        total_size(s.drop_last()) + entry_size(s.last())
    }
}

/// Entries ordered oldest-first by their record timestamps.
pub open spec fn sorted_by_timestamp(s: Seq<CacheEntry>) -> bool {
    forall|i: int, j: int|
        0 <= i < j < s.len() ==> (#[trigger] s[i]).record.timestamp <= (
        #[trigger] s[j]).record.timestamp
}

/// No two entries share a key.
pub open spec fn unique_keys(s: Seq<CacheEntry>) -> bool {
    forall|i: int, j: int|
        0 <= i < j < s.len() ==> (#[trigger] s[i]).domain@ != (#[trigger] s[j]).domain@
}

pub open spec fn contains_key(s: Seq<CacheEntry>, key: Seq<char>) -> bool {
    exists|i: int| 0 <= i < s.len() && (#[trigger] s[i]).domain@ == key
}

pub open spec fn key_index(s: Seq<CacheEntry>, key: Seq<char>) -> int {
    choose|i: int| 0 <= i < s.len() && (#[trigger] s[i]).domain@ == key
}

/// A record is fresh while its age has not reached the TTL; a clock that
/// stepped backwards counts as age zero.
pub open spec fn record_fresh(record: CachedRecord, ttl_secs: u64, now: u64) -> bool {
    (if now >= record.timestamp {
        now - record.timestamp
    } else {
        0int
    }) < ttl_secs
}

/// The bounded TTL cache.
pub struct DnsCache {
    /// The entries, oldest timestamp first.
    pub records: Vec<CacheEntry>,
    /// Current time-to-live in seconds; applies on read, so reconfiguring it
    /// never touches stored entries.
    pub ttl_secs: u64,
    /// The tracked footprint of `records`, maintained incrementally.
    pub current_size: usize,
}

/// What `insert` did.
#[derive(Debug, Clone, Copy, PartialEq, Eq, Structural)]
pub enum CacheInsertOutcome {
    /// The record was stored after evicting this many oldest entries.
    Stored { evicted: usize },
    /// The record alone would exceed the ceiling; nothing was stored and
    /// nothing was evicted.
    TooLarge,
}

/// What a read would find: the stored record under `key`, if it is there and
/// still fresh at `now`.
pub open spec fn spec_lookup(c: DnsCache, key: Seq<char>, now: u64) -> Option<CachedRecord> {
    if contains_key(c.records@, key) && record_fresh(
        c.records@[key_index(c.records@, key)].record,
        c.ttl_secs,
        now,
    ) {
        Some(c.records@[key_index(c.records@, key)].record)
    } else {
        None
    }
}

proof fn lemma_total_size_split(s: Seq<CacheEntry>, i: int)
    requires
        0 <= i <= s.len(),
    ensures
        total_size(s) == total_size(s.take(i)) + total_size(s.skip(i)),
    decreases s.len() - i,
{
    if i == s.len() {
        assert(s.take(i) =~= s);
        assert(s.skip(i).len() == 0);
    } else {
        lemma_total_size_split(s, i + 1);
        assert(s.take(i + 1).drop_last() =~= s.take(i));
        // total(take(i+1)) == total(take(i)) + size(s[i])
        assert(s.take(i + 1).last() == s[i]);
        lemma_total_size_front(s.skip(i));
        assert(s.skip(i)[0] == s[i]);
        assert(s.skip(i).skip(1) =~= s.skip(i + 1));
    }
}

proof fn lemma_total_size_front(s: Seq<CacheEntry>)
    requires
        s.len() > 0,
    ensures
        total_size(s) == entry_size(s[0]) + total_size(s.skip(1)),
    decreases s.len(),
{
    if s.len() == 1 {
        assert(s.drop_last().len() == 0);
        assert(total_size(s.drop_last()) == 0);
        assert(s.skip(1).len() == 0);
        assert(total_size(s.skip(1)) == 0);
        assert(s.last() == s[0]);
    } else {
        lemma_total_size_front(s.drop_last());
        assert(s.drop_last()[0] == s[0]);
        assert(s.drop_last().skip(1) =~= s.skip(1).drop_last());
        assert(s.skip(1).last() == s.last());
        assert(total_size(s) == total_size(s.drop_last()) + entry_size(s.last()));
        assert(total_size(s.skip(1)) == total_size(s.skip(1).drop_last()) + entry_size(
            s.skip(1).last(),
        ));
    }
}

/// A stored entry's footprint never exceeds the tracked total.
proof fn lemma_entry_size_le_total(s: Seq<CacheEntry>, i: int)
    requires
        0 <= i < s.len(),
    ensures
        0 <= entry_size(s[i]) <= total_size(s),
{
    lemma_total_size_split(s, i);
    lemma_total_size_front(s.skip(i));
    assert(s.skip(i)[0] == s[i]);
    lemma_total_size_nonneg(s.take(i));
    lemma_total_size_nonneg(s.skip(i).skip(1));
}

proof fn lemma_total_size_remove(s: Seq<CacheEntry>, i: int)
    requires
        0 <= i < s.len(),
    ensures
        total_size(s.remove(i)) == total_size(s) - entry_size(s[i]),
{
    lemma_total_size_split(s, i);
    lemma_total_size_split(s, i + 1);
    lemma_total_size_front(s.skip(i));
    assert(s.skip(i)[0] == s[i]);
    assert(s.skip(i).skip(1) =~= s.skip(i + 1));
    assert(s.remove(i) =~= s.take(i) + s.skip(i + 1));
    lemma_total_size_concat(s.take(i), s.skip(i + 1));
    assert(s.take(i + 1).take(i) =~= s.take(i));
}

proof fn lemma_total_size_concat(a: Seq<CacheEntry>, b: Seq<CacheEntry>)
    ensures
        total_size(a + b) == total_size(a) + total_size(b),
    decreases b.len(),
{
    if b.len() == 0 {
        assert(a + b =~= a);
    } else {
        lemma_total_size_concat(a, b.drop_last());
        assert((a + b).drop_last() =~= a + b.drop_last());
        assert((a + b).last() == b.last());
    }
}

proof fn lemma_total_size_insert(s: Seq<CacheEntry>, i: int, e: CacheEntry)
    requires
        0 <= i <= s.len(),
    ensures
        total_size(s.insert(i, e)) == total_size(s) + entry_size(e),
{
    lemma_total_size_split(s, i);
    assert(s.insert(i, e) =~= s.take(i) + (seq![e] + s.skip(i)));
    lemma_total_size_concat(s.take(i), seq![e] + s.skip(i));
    lemma_total_size_concat(seq![e], s.skip(i));
    assert(total_size(seq![e]) == entry_size(e)) by {
        assert(seq![e].drop_last().len() == 0);
        assert(total_size(seq![e].drop_last()) == 0);
        assert(seq![e].last() == e);
    }
}

proof fn lemma_total_size_nonneg(s: Seq<CacheEntry>)
    ensures
        total_size(s) >= 0,
    decreases s.len(),
{
    if s.len() > 0 {
        lemma_total_size_nonneg(s.drop_last());
    }
}

/// `s` without the entry under `key`, if any.
pub open spec fn remove_key(s: Seq<CacheEntry>, key: Seq<char>) -> Seq<CacheEntry> {
    if contains_key(s, key) {
        s.remove(key_index(s, key))
    } else {
        s
    }
}

/// The slot a record with timestamp `ts` goes to in an oldest-first sequence:
/// right after every entry at most as old.
pub open spec fn insert_position(s: Seq<CacheEntry>, ts: u64) -> int
    decreases s.len(),
{
    if s.len() == 0 {
        0
    } else if s[0].record.timestamp > ts {
        0
    } else {
        1 + insert_position(s.skip(1), ts)
    }
}

proof fn lemma_insert_position_bounds(s: Seq<CacheEntry>, ts: u64)
    ensures
        0 <= insert_position(s, ts) <= s.len(),
    decreases s.len(),
{
    if s.len() > 0 && !(s[0].record.timestamp > ts) {
        lemma_insert_position_bounds(s.skip(1), ts);
    }
}

proof fn lemma_insert_position_at(s: Seq<CacheEntry>, ts: u64, p: int)
    requires
        0 <= p <= s.len(),
        forall|j: int| 0 <= j < p ==> (#[trigger] s[j]).record.timestamp <= ts,
        p < s.len() ==> s[p].record.timestamp > ts,
    ensures
        insert_position(s, ts) == p,
    decreases p,
{
    if p == 0 {
        if s.len() > 0 {
            assert(s[0].record.timestamp > ts);
        }
    } else {
        lemma_insert_position_at(s.skip(1), ts, p - 1);
    }
}

/// With one entry per key, the chosen index of a key is the index it is seen
/// at.
proof fn lemma_key_index_is(s: Seq<CacheEntry>, key: Seq<char>, i: int)
    requires
        unique_keys(s),
        0 <= i < s.len(),
        s[i].domain@ == key,
    ensures
        contains_key(s, key),
        key_index(s, key) == i,
{
    assert(contains_key(s, key));
    let k = key_index(s, key);
    assert(s[k].domain@ == key);
    if k != i {
        if k < i {
            assert(s[k].domain@ != s[i].domain@);
        } else {
            assert(s[i].domain@ != s[k].domain@);
        }
    }
}

/// Law: eviction is strictly oldest-first — with entries ordered by
/// timestamp, everything dropped from the front is at least as old as
/// everything kept.
pub proof fn lemma_eviction_oldest_first(s: Seq<CacheEntry>, n: int)
    requires
        sorted_by_timestamp(s),
        0 <= n <= s.len(),
    ensures
        forall|j: int, k: int|
            0 <= j < n <= k < s.len() ==> (#[trigger] s[j]).record.timestamp <= (
            #[trigger] s[k]).record.timestamp,
{
}

impl DnsCache {
    /// The cache's invariant: entries oldest-first, one per key, and the
    /// tracked footprint exact and under the ceiling.
    pub open spec fn wf(self) -> bool {
        &&& sorted_by_timestamp(self.records@)
        &&& unique_keys(self.records@)
        &&& self.current_size == total_size(self.records@)
        &&& self.current_size <= MAX_CACHE_SIZE_BYTES
    }

    /// An empty cache with the given TTL.
    pub fn new(ttl_seconds: u64) -> (c: Self)
        ensures
            c.wf(),
            c.records@.len() == 0,
            c.ttl_secs == ttl_seconds,
    {
        DnsCache { records: Vec::new(), ttl_secs: ttl_seconds, current_size: 0 }
    }

    /// The tracked footprint of one prospective entry.
    pub fn calculate_entry_size(key: &str, record: &CachedRecord) -> (r: usize)
        requires
            spec_record_size(key@, *record) <= usize::MAX,
        ensures
            r == spec_record_size(key@, *record),
    {
        key.len() + ADDRESS_FOOTPRINT_BYTES + record.record_id.as_str().len()
            + record.provider.as_str().len() + TIMESTAMP_FOOTPRINT_BYTES
    }

    /// Read the record under `domain`: nothing when it is absent, nothing
    /// when its age has reached the TTL, and the stored record otherwise.
    /// Expired entries are left in place.
    pub fn get(&self, domain: &str, now: u64) -> (r: Option<CachedRecord>)
        requires
            self.wf(),
        ensures
            match r {
                Some(rec) => spec_lookup(*self, domain@, now) is Some && rec_eq(
                    rec,
                    spec_lookup(*self, domain@, now)->0,
                ),
                None => spec_lookup(*self, domain@, now) is None,
            },
    {
        let key: String = domain.to_owned();
        let mut i: usize = 0;
        while i < self.records.len()
            invariant
                self.wf(),
                0 <= i <= self.records@.len(),
                key@ == domain@,
                forall|j: int| 0 <= j < i ==> (#[trigger] self.records@[j]).domain@ != domain@,
            decreases self.records@.len() - i,
        {
            if self.records[i].domain == key {
                let rec: &CachedRecord = &self.records[i].record;
                let age: u64 = if now >= rec.timestamp {
                    now - rec.timestamp
                } else {
                    0
                };
                proof {
                    lemma_key_index_is(self.records@, domain@, i as int);
                }
                if age < self.ttl_secs {
                    return Some(
                        CachedRecord {
                            ip: rec.ip,
                            record_id: rec.record_id.clone(),
                            provider: rec.provider.clone(),
                            timestamp: rec.timestamp,
                        },
                    );
                } else {
                    return None;
                }
            }
            i = i + 1;
        }
        proof {
            assert(!contains_key(self.records@, domain@));
        }
        None
    }

    /// Drop the entry under `domain`, if any, and shrink the tracked
    /// footprint by exactly that entry's size.
    pub fn invalidate(&mut self, domain: &str)
        requires
            old(self).wf(),
        ensures
            final(self).wf(),
            final(self).ttl_secs == old(self).ttl_secs,
            !contains_key(final(self).records@, domain@),
            contains_key(old(self).records@, domain@) ==> final(self).records@ == old(
                self,
            ).records@.remove(key_index(old(self).records@, domain@)),
            !contains_key(old(self).records@, domain@) ==> final(self).records@ == old(
                self,
            ).records@,
    {
        let key: String = domain.to_owned();
        let mut i: usize = 0;
        while i < self.records.len()
            invariant
                self.wf(),
                0 <= i <= self.records@.len(),
                key@ == domain@,
                *self == *old(self),
                forall|j: int| 0 <= j < i ==> (#[trigger] self.records@[j]).domain@ != domain@,
            decreases self.records@.len() - i,
        {
            if self.records[i].domain == key {
                proof {
                    lemma_key_index_is(self.records@, domain@, i as int);
                    lemma_entry_size_le_total(self.records@, i as int);
                    lemma_total_size_remove(self.records@, i as int);
                    lemma_total_size_nonneg(self.records@.remove(i as int));
                }
                let removed_size: usize = Self::calculate_entry_size(
                    self.records[i].domain.as_str(),
                    &self.records[i].record,
                );
                let removed: CacheEntry = self.records.remove(i);
                self.current_size = self.current_size - removed_size;
                proof {
                    assert forall|a: int, b: int|
                        0 <= a < b < self.records@.len() implies (
                    #[trigger] self.records@[a]).domain@ != (#[trigger] self.records@[b]).domain@ by {
                        let s0 = old(self).records@;
                        if b < i as int {
                            assert(s0[a] == self.records@[a]);
                        }
                    }
                    assert(!contains_key(self.records@, domain@)) by {
                        if contains_key(self.records@, domain@) {
                            let k = choose|k: int|
                                0 <= k < self.records@.len() && (#[trigger] self.records@[k]).domain@
                                    == domain@;
                            let s0 = old(self).records@;
                            if k < i as int {
                                assert(s0[k] == self.records@[k]);
                            } else {
                                assert(s0[k + 1] == self.records@[k]);
                            }
                        }
                    }
                }
                return ;
            }
            i = i + 1;
        }
        proof {
            assert(!contains_key(self.records@, domain@));
        }
    }

    /// Evict oldest entries, one at a time, until an entry of footprint
    /// `size` fits under the ceiling — and only until it fits.
    fn evict_until_fits(&mut self, size: usize) -> (evicted: usize)
        requires
            old(self).wf(),
            size <= MAX_CACHE_SIZE_BYTES,
        ensures
            final(self).wf(),
            final(self).ttl_secs == old(self).ttl_secs,
            0 <= evicted <= old(self).records@.len(),
            final(self).records@ == old(self).records@.skip(evicted as int),
            total_size(final(self).records@) + size <= MAX_CACHE_SIZE_BYTES,
            evicted > 0 ==> total_size(old(self).records@.skip(evicted - 1)) + size
                > MAX_CACHE_SIZE_BYTES,
    {
        let ghost orig = self.records@;
        let orig_len: usize = self.records.len();
        let mut evicted: usize = 0;
        while self.current_size + size > MAX_CACHE_SIZE_BYTES && self.records.len() > 0
            invariant
                old(self).wf(),
                orig == old(self).records@,
                orig.len() == orig_len,
                self.ttl_secs == old(self).ttl_secs,
                size <= MAX_CACHE_SIZE_BYTES,
                0 <= evicted <= orig.len(),
                self.records@ == orig.skip(evicted as int),
                self.current_size == total_size(self.records@),
                self.current_size <= MAX_CACHE_SIZE_BYTES,
                evicted > 0 ==> total_size(orig.skip(evicted - 1)) + size > MAX_CACHE_SIZE_BYTES,
            decreases self.records@.len(),
        {
            proof {
                assert(evicted < orig.len());
                lemma_total_size_front(self.records@);
                lemma_entry_size_le_total(self.records@, 0);
                lemma_total_size_nonneg(self.records@.skip(1));
            }
            let first_size: usize = Self::calculate_entry_size(
                self.records[0].domain.as_str(),
                &self.records[0].record,
            );
            let _dropped: CacheEntry = self.records.remove(0);
            proof {
                assert(self.records@ =~= orig.skip(evicted as int).skip(1));
                assert(self.records@ =~= orig.skip(evicted + 1));
            }
            self.current_size = self.current_size - first_size;
            evicted = evicted + 1;
        }
        proof {
            let n = evicted as int;
            if self.records@.len() == 0 {
                assert(total_size(self.records@) == 0);
            }
            assert(sorted_by_timestamp(self.records@)) by {
                assert forall|i: int, j: int|
                    0 <= i < j < self.records@.len() implies (
                #[trigger] self.records@[i]).record.timestamp <= (
                #[trigger] self.records@[j]).record.timestamp by {
                    assert(self.records@[i] == orig[i + n]);
                    assert(self.records@[j] == orig[j + n]);
                }
            }
            assert(unique_keys(self.records@)) by {
                assert forall|i: int, j: int|
                    0 <= i < j < self.records@.len() implies (#[trigger] self.records@[i]).domain@
                    != (#[trigger] self.records@[j]).domain@ by {
                    assert(self.records@[i] == orig[i + n]);
                    assert(self.records@[j] == orig[j + n]);
                }
            }
        }
        evicted
    }

    /// Slot a fresh entry in at its timestamp position, keeping the entries
    /// oldest-first.
    fn insert_sorted(&mut self, entry: CacheEntry)
        requires
            old(self).wf(),
            !contains_key(old(self).records@, entry.domain@),
            total_size(old(self).records@) + entry_size(entry) <= MAX_CACHE_SIZE_BYTES,
        ensures
            final(self).wf(),
            final(self).ttl_secs == old(self).ttl_secs,
            final(self).records@ == old(self).records@.insert(
                insert_position(old(self).records@, entry.record.timestamp),
                entry,
            ),
    {
        let ghost base = self.records@;
        let size: usize = Self::calculate_entry_size(entry.domain.as_str(), &entry.record);
        let ts: u64 = entry.record.timestamp;
        let mut p: usize = 0;
        while p < self.records.len() && self.records[p].record.timestamp <= ts
            invariant
                base == self.records@,
                0 <= p <= self.records@.len(),
                forall|j: int| 0 <= j < p ==> (#[trigger] self.records@[j]).record.timestamp <= ts,
            decreases self.records@.len() - p,
        {
            p = p + 1;
        }
        proof {
            lemma_insert_position_at(base, ts, p as int);
            lemma_total_size_insert(base, p as int, entry);
            lemma_total_size_nonneg(base);
        }
        let ghost spec_entry = entry;
        self.records.insert(p, entry);
        self.current_size = self.current_size + size;
        proof {
            let fin = self.records@;
            assert(sorted_by_timestamp(fin)) by {
                assert forall|i: int, j: int|
                    0 <= i < j < fin.len() implies (#[trigger] fin[i]).record.timestamp <= (
                #[trigger] fin[j]).record.timestamp by {
                    if i < p as int {
                        assert(fin[i] == base[i]);
                    } else if i == p as int {
                        assert(fin[i].record.timestamp == ts);
                    } else {
                        assert(fin[i] == base[i - 1]);
                    }
                    if j < p as int {
                        assert(fin[j] == base[j]);
                    } else if j == p as int {
                        assert(fin[j].record.timestamp == ts);
                    } else {
                        assert(fin[j] == base[j - 1]);
                        if i == p as int {
                            assert(base[p as int].record.timestamp > ts);
                            if j - 1 > p as int {
                                assert(base[p as int].record.timestamp <= base[j
                                    - 1].record.timestamp);
                            }
                        }
                    }
                }
            }
            assert(unique_keys(fin)) by {
                assert forall|i: int, j: int|
                    0 <= i < j < fin.len() implies (#[trigger] fin[i]).domain@ != (
                #[trigger] fin[j]).domain@ by {
                    if i < p as int {
                        assert(fin[i] == base[i]);
                    } else if i > p as int {
                        assert(fin[i] == base[i - 1]);
                    }
                    if j < p as int {
                        assert(fin[j] == base[j]);
                    } else if j > p as int {
                        assert(fin[j] == base[j - 1]);
                    }
                    if i == p as int {
                        assert(fin[j] == base[j - 1]);
                        assert(!contains_key(base, spec_entry.domain@));
                    }
                    if j == p as int {
                        assert(fin[i] == base[i]);
                        assert(!contains_key(base, spec_entry.domain@));
                    }
                }
            }
        }
    }

    /// Store `record` under `domain`. When the new entry would push the
    /// tracked footprint over the ceiling, the oldest entries are evicted
    /// first, one at a time, until it fits — and only until it fits. An entry
    /// stored before under the same key is replaced. A record that could
    /// never fit even in an empty cache is refused outright, with nothing
    /// evicted.
    pub fn insert(&mut self, domain: String, record: CachedRecord) -> (outcome: CacheInsertOutcome)
        requires
            old(self).wf(),
        ensures
            final(self).wf(),
            final(self).ttl_secs == old(self).ttl_secs,
            spec_record_size(domain@, record) > MAX_CACHE_SIZE_BYTES ==> outcome
                == CacheInsertOutcome::TooLarge && final(self).records@ == old(self).records@,
            spec_record_size(domain@, record) <= MAX_CACHE_SIZE_BYTES ==> match outcome {
                CacheInsertOutcome::Stored { evicted } => {
                    let size = spec_record_size(domain@, record);
                    let n = evicted as int;
                    let base = remove_key(old(self).records@.skip(n), domain@);
                    &&& 0 <= n <= old(self).records@.len()
                    &&& total_size(old(self).records@.skip(n)) + size <= MAX_CACHE_SIZE_BYTES
                    &&& (n > 0 ==> total_size(old(self).records@.skip(n - 1)) + size
                        > MAX_CACHE_SIZE_BYTES)
                    &&& final(self).records@ == base.insert(
                        insert_position(base, record.timestamp),
                        CacheEntry { domain, record },
                    )
                    &&& contains_key(final(self).records@, domain@)
                    &&& rec_eq(
                        final(self).records@[key_index(final(self).records@, domain@)].record,
                        record,
                    )
                    &&& (old(self).ttl_secs > 0 ==> match spec_lookup(
                        *final(self),
                        domain@,
                        record.timestamp,
                    ) {
                        Some(rc) => rec_eq(rc, record),
                        None => false,
                    })
                },
                CacheInsertOutcome::TooLarge => false,
            },
    {
        // The footprint is summed in wide arithmetic first, so that even an
        // absurdly long key is refused rather than miscounted.
        let wide: u128 = domain.as_str().as_bytes().len() as u128
            + record.record_id.as_str().as_bytes().len() as u128
            + record.provider.as_str().as_bytes().len() as u128 + ADDRESS_FOOTPRINT_BYTES as u128
            + TIMESTAMP_FOOTPRINT_BYTES as u128;
        proof {
            assert(wide as int == spec_record_size(domain@, record));
        }
        if wide > MAX_CACHE_SIZE_BYTES as u128 {
            return CacheInsertOutcome::TooLarge;
        }
        let size: usize = wide as usize;
        let evicted: usize = self.evict_until_fits(size);
        let ghost mid = self.records@;
        self.invalidate(domain.as_str());
        let ghost base = remove_key(mid, domain@);
        proof {
            assert(self.records@ == base);
            lemma_total_size_nonneg(self.records@);
            if contains_key(mid, domain@) {
                lemma_total_size_remove(mid, key_index(mid, domain@));
                lemma_entry_size_le_total(mid, key_index(mid, domain@));
            }
            assert(total_size(base) + size <= MAX_CACHE_SIZE_BYTES);
        }
        let entry = CacheEntry { domain, record };
        let ghost spec_entry = entry;
        let ghost p = insert_position(base, record.timestamp);
        self.insert_sorted(entry);
        proof {
            let fin = self.records@;
            lemma_insert_position_bounds(base, record.timestamp);
            assert(fin == base.insert(p, spec_entry));
            assert(fin[p] == spec_entry);
            lemma_key_index_is(fin, spec_entry.domain@, p);
        }
        CacheInsertOutcome::Stored { evicted }
    }

    /// Reconfigure the TTL; stored entries and their timestamps are
    /// untouched, and the new TTL applies from the next read on.
    pub fn update_ttl(&mut self, ttl_seconds: u64)
        requires
            old(self).wf(),
        ensures
            final(self).wf(),
            final(self).ttl_secs == ttl_seconds,
            final(self).records@ == old(self).records@,
    {
        self.ttl_secs = ttl_seconds;
    }
}

} // verus!
