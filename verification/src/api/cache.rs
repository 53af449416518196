//! Caching layer for DNS records: an in-memory copy of the records with a
//! time-to-live, to spare the API redundant calls when the interface refreshes.
use vstd::prelude::*;
use std::time::{Duration, Instant};
use crate::api::models::{copy_records, DnsRecord};

verus! {

/// `std::time::Instant`, a moment of the monotonic clock, carried through as
/// an opaque value.
#[verifier::external_type_specification]
#[verifier::external_body]
pub struct ExInstant(Instant);

/// The length of a `Duration` in nanoseconds, as `Duration::as_nanos` gives it.
pub uninterp spec fn duration_nanos(d: Duration) -> int;

/// `Duration::as_nanos`: the whole length of the duration in nanoseconds.
#[verifier::external_body]
fn duration_as_nanos(d: Duration) -> (n: u128)
    ensures
        n as int == duration_nanos(d),
{
    d.as_nanos()
}

/// `Duration::from_secs`: a duration of `secs` whole seconds.
#[verifier::external_body]
pub(crate) fn duration_from_secs(secs: u64) -> (d: Duration)
    ensures
        duration_nanos(d) == secs as int * 1_000_000_000,
{
    Duration::from_secs(secs)
}

/// `Duration::saturating_sub`: `a - b`, or zero where `b` is the longer.
#[verifier::external_body]
fn duration_saturating_sub(a: Duration, b: Duration) -> (d: Duration)
    ensures
        duration_nanos(d) == if duration_nanos(a) > duration_nanos(b) {
            duration_nanos(a) - duration_nanos(b)
        } else {
            0
        },
{
    a.saturating_sub(b)
}

/// `Instant::now`: the current moment; what it is depends on the clock.
#[verifier::external_body]
fn instant_now() -> (i: Instant) {
    Instant::now()
}

/// `Instant::elapsed`: the time since `i`; what it is depends on the clock.
#[verifier::external_body]
fn instant_elapsed(i: &Instant) -> (d: Duration) {
    i.elapsed()
}

/// Cache for DNS records with automatic expiration.
///
/// The cache stores records along with their fetch time and expires after a
/// configurable TTL to keep the data fresh.
pub struct DnsCache {
    /// Cached DNS records (None means not yet loaded or invalidated)
    records: Option<Vec<DnsRecord>>,
    /// When the cache was last populated
    last_updated: Option<Instant>,
    /// How long the cache is valid
    ttl: Duration,
}

/// The cache by what it holds: the records, whether they carry a fetch time,
/// and the time-to-live in nanoseconds.
pub struct CacheModel {
    pub records: Option<Seq<DnsRecord>>,
    pub stamped: bool,
    pub ttl: int,
}

/// The cached records are still fresh `elapsed` nanoseconds after they were stored.
pub open spec fn fresh_after(m: CacheModel, elapsed: int) -> bool {
    m.stamped && elapsed < m.ttl
}

/// What a read gives back `elapsed` nanoseconds after the records were stored.
pub open spec fn cached_after(m: CacheModel, elapsed: int) -> Option<Seq<DnsRecord>> {
    if fresh_after(m, elapsed) {
        m.records
    } else {
        None
    }
}

/// The time-to-live left `elapsed` nanoseconds after the records were stored:
/// none when nothing is stored, zero once expired.
pub open spec fn remaining_after(m: CacheModel, elapsed: int) -> Option<int> {
    if !m.stamped {
        None
    } else if elapsed < m.ttl {
        Some(m.ttl - elapsed)
    } else {
        Some(0)
    }
}

/// The cache after storing `records`.
pub open spec fn stored(m: CacheModel, records: Seq<DnsRecord>) -> CacheModel {
    CacheModel { records: Some(records), stamped: true, ttl: m.ttl }
}

/// The cache after invalidation.
pub open spec fn emptied(m: CacheModel) -> CacheModel {
    CacheModel { records: None, stamped: false, ttl: m.ttl }
}

impl View for DnsCache {
    type V = CacheModel;

    closed spec fn view(&self) -> CacheModel {
        CacheModel {
            records: match self.records {
                Some(v) => Some(v@),
                None => None,
            },
            stamped: self.last_updated.is_some(),
            ttl: duration_nanos(self.ttl),
        }
    }
}

impl DnsCache {
    /// Records are present exactly when they carry a fetch time, and the
    /// time-to-live is a length of time, never negative.
    #[verifier::type_invariant]
    spec fn inv(self) -> bool {
        &&& self.records.is_some() == self.last_updated.is_some()
        &&& duration_nanos(self.ttl) >= 0
    }

    /// Creates an empty cache whose records stay fresh for `ttl`.
    pub fn new(ttl: Duration) -> (c: Self)
        ensures
            c@ == (CacheModel { records: None, stamped: false, ttl: duration_nanos(ttl) }),
            c@.ttl >= 0,
    {
        let _n = duration_as_nanos(ttl);
        DnsCache { records: None, last_updated: None, ttl }
    }

    /// Creates an empty cache with a 60-second TTL.
    pub fn with_default_ttl() -> (c: Self)
        ensures
            c@ == (CacheModel { records: None, stamped: false, ttl: 60_000_000_000 }),
    {
        Self::new(duration_from_secs(60))
    }

    /// Whether records stored `elapsed` ago would still be fresh.
    pub fn is_valid_after(&self, elapsed: Duration) -> (r: bool)
        ensures
            self@.records.is_some() == self@.stamped,
            r == fresh_after(self@, duration_nanos(elapsed)),
            self@.ttl >= 0,
            duration_nanos(elapsed) >= 0,
    {
        proof {
            use_type_invariant(self);
        }
        let _e = duration_as_nanos(elapsed);
        match self.last_updated {
            Some(_) => duration_as_nanos(elapsed) < duration_as_nanos(self.ttl),
            None => false,
        }
    }

    /// Whether the cache holds records that have not expired: their
    /// freshness at the time elapsed since they were stored, as the clock
    /// reads it now.
    pub fn is_valid(&self) -> (r: bool)
        ensures
            self@.records.is_some() == self@.stamped,
            exists|e: int| 0 <= e && r == #[trigger] fresh_after(self@, e),
            r ==> self@.records.is_some(),
    {
        proof {
            use_type_invariant(self);
        }
        match &self.last_updated {
            Some(updated) => {
                let e = instant_elapsed(updated);
                let _n = duration_as_nanos(e);
                self.is_valid_after(e)
            },
            None => {
                assert(fresh_after(self@, 0) == false);
                false
            },
        }
    }

    /// The records, if stored `elapsed` ago they would still be fresh.
    pub fn get_after(&self, elapsed: Duration) -> (r: Option<&Vec<DnsRecord>>)
        ensures
            self@.records.is_some() == self@.stamped,
            match r {
                Some(v) => cached_after(self@, duration_nanos(elapsed)) == Some(v@),
                None => cached_after(self@, duration_nanos(elapsed)).is_none(),
            },
    {
        proof {
            use_type_invariant(self);
        }
        if self.is_valid_after(elapsed) {
            self.records.as_ref()
        } else {
            None
        }
    }

    /// The cached records if they are still valid, otherwise nothing: what
    /// a read gives at the time elapsed since they were stored, as the clock
    /// reads it now.
    pub fn get(&self) -> (r: Option<&Vec<DnsRecord>>)
        ensures
            self@.records.is_some() == self@.stamped,
            exists|e: int|
                0 <= e && #[trigger] cached_after(self@, e) == match r {
                    Some(v) => Some(v@),
                    None => None,
                },
    {
        proof {
            use_type_invariant(self);
        }
        match &self.last_updated {
            Some(updated) => {
                let e = instant_elapsed(updated);
                let _n = duration_as_nanos(e);
                self.get_after(e)
            },
            None => {
                assert(cached_after(self@, 0) is None);
                None
            },
        }
    }

    /// Stores fresh records and starts their time-to-live.
    pub fn set(&mut self, records: Vec<DnsRecord>)
        ensures
            final(self)@ == stored(old(self)@, records@),
    {
        proof {
            use_type_invariant(&*self);
        }
        let ttl = self.ttl;
        *self = DnsCache { records: Some(records), last_updated: Some(instant_now()), ttl };
    }

    /// Drops the cached records.
    pub fn invalidate(&mut self)
        ensures
            final(self)@ == emptied(old(self)@),
    {
        proof {
            use_type_invariant(&*self);
        }
        let ttl = self.ttl;
        *self = DnsCache { records: None, last_updated: None, ttl };
    }

    /// The age of the cached records: present exactly when records are stored.
    pub fn age(&self) -> (r: Option<Duration>)
        ensures
            r matches Some(d) ==> duration_nanos(d) >= 0,
            self@.records.is_some() == self@.stamped,
            r.is_some() == self@.stamped,
    {
        proof {
            use_type_invariant(self);
        }
        match &self.last_updated {
            Some(t) => {
                let d = instant_elapsed(t);
                let _n = duration_as_nanos(d);
                Some(d)
            },
            None => None,
        }
    }

    /// The time-to-live left if the records were stored `elapsed` ago.
    pub fn remaining_ttl_after(&self, elapsed: Duration) -> (r: Option<Duration>)
        ensures
            self@.records.is_some() == self@.stamped,
            match r {
                Some(d) => remaining_after(self@, duration_nanos(elapsed)) == Some(
                    duration_nanos(d),
                ),
                None => remaining_after(self@, duration_nanos(elapsed)).is_none(),
            },
            self@.ttl >= 0,
            duration_nanos(elapsed) >= 0,
            r matches Some(d) ==> 0 <= duration_nanos(d) <= self@.ttl,
    {
        proof {
            use_type_invariant(self);
        }
        let _n = duration_as_nanos(elapsed);
        match self.last_updated {
            Some(_) => {
                let d = duration_saturating_sub(self.ttl, elapsed);
                Some(d)
            },
            None => None,
        }
    }

    /// The time-to-live left before the cache expires, at the time elapsed
    /// since the records were stored, as the clock reads it now: none when
    /// nothing is stored, zero once expired.
    pub fn remaining_ttl(&self) -> (r: Option<Duration>)
        ensures
            self@.records.is_some() == self@.stamped,
            exists|e: int|
                0 <= e && #[trigger] remaining_after(self@, e) == match r {
                    Some(d) => Some(duration_nanos(d)),
                    None => None,
                },
            self@.ttl >= 0,
            r matches Some(d) ==> 0 <= duration_nanos(d) <= self@.ttl,
    {
        proof {
            use_type_invariant(self);
        }
        match &self.last_updated {
            Some(updated) => {
                let e = instant_elapsed(updated);
                let _n = duration_as_nanos(e);
                self.remaining_ttl_after(e)
            },
            None => {
                assert(remaining_after(self@, 0) is None);
                None
            },
        }
    }
}


/// A read after a write gives back what was written, as long as the TTL has
/// not run out, and nothing after.
pub proof fn law_read_after_write(m: CacheModel, records: Seq<DnsRecord>, elapsed: int)
    ensures
        cached_after(stored(m, records), elapsed) == if elapsed < m.ttl {
            Some(records)
        } else {
            None
        },
{
}

/// After invalidation nothing is read, and no time-to-live is left.
pub proof fn law_invalidate_empties(m: CacheModel, elapsed: int)
    ensures
        cached_after(emptied(m), elapsed).is_none(),
        remaining_after(emptied(m), elapsed).is_none(),
        !fresh_after(emptied(m), elapsed),
{
}

/// Records are fresh exactly while some time-to-live is left.
pub proof fn law_fresh_iff_time_left(m: CacheModel, elapsed: int)
    requires
        m.stamped,
    ensures
        fresh_after(m, elapsed) <==> (remaining_after(m, elapsed) matches Some(r) && r > 0),
{
}

/// The time-to-live left is never negative and never more than the TTL.
pub proof fn law_remaining_within_ttl(m: CacheModel, elapsed: int)
    requires
        m.ttl >= 0,
        elapsed >= 0,
    ensures
        remaining_after(m, elapsed) matches Some(r) ==> 0 <= r <= m.ttl,
{
}

/// While records are fresh, their age and the time-to-live left add up to the TTL.
pub proof fn law_age_plus_remaining(m: CacheModel, elapsed: int)
    requires
        fresh_after(m, elapsed),
    ensures
        remaining_after(m, elapsed) == Some(m.ttl - elapsed),
{
}

/// Writing twice keeps only the second write.
pub proof fn law_second_write_wins(
    m: CacheModel,
    first: Seq<DnsRecord>,
    second: Seq<DnsRecord>,
)
    ensures
        stored(stored(m, first), second) == stored(m, second),
{
}

} // verus!
