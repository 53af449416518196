//! The data that the interface shows: the zone's name, the loaded records,
//! the addresses offered by the IP selector, and the record cache.
use vstd::prelude::*;
use crate::api::cache::{cached_after, duration_nanos, CacheModel, DnsCache};
use std::time::Duration;
use crate::api::error::CloudflareError;
use crate::api::models::{copy_records, DnsRecord};
use crate::utils::formatting::{extract_unique_ips, is_listed_address, strictly_sorted, views};

verus! {

/// The addresses `ips` are those of the A and AAAA records of `records`,
/// each once, in order.
pub open spec fn ips_match(records: Seq<DnsRecord>, ips: Seq<String>) -> bool {
    &&& strictly_sorted(views(ips))
    &&& forall|s: Seq<char>| views(ips).contains(s) <==> is_listed_address(records, s)
}

/// The data behind the interface.
pub struct AppData {
    zone_name: String,
    records: Vec<DnsRecord>,
    existing_ips: Vec<String>,
    dns_cache: DnsCache,
}

impl AppData {
    /// The offered addresses always belong to the loaded records.
    #[verifier::type_invariant]
    spec fn inv(self) -> bool {
        ips_match(self.records@, self.existing_ips@)
    }

    /// The zone's name, or its ID until the name is known.
    pub closed spec fn spec_zone_name(&self) -> Seq<char> {
        self.zone_name@
    }

    /// The loaded records.
    pub closed spec fn spec_records(&self) -> Seq<DnsRecord> {
        self.records@
    }

    /// The addresses offered by the IP selector.
    pub closed spec fn spec_ips(&self) -> Seq<String> {
        self.existing_ips@
    }

    /// The record cache.
    pub closed spec fn spec_cache(&self) -> CacheModel {
        self.dns_cache@
    }

    /// Data for a zone whose name is not known yet: the zone ID stands for
    /// it, no record is loaded, the cache keeps records for 60 seconds.
    pub fn new(zone_id: String) -> (d: Self)
        ensures
            d.spec_zone_name() == zone_id@,
            d.spec_records() == Seq::<DnsRecord>::empty(),
            d.spec_ips() == Seq::<String>::empty(),
            d.spec_cache() == (CacheModel { records: None, stamped: false, ttl: 60_000_000_000 }),
    {
        let d = AppData {
            zone_name: zone_id,
            records: Vec::new(),
            existing_ips: Vec::new(),
            dns_cache: DnsCache::with_default_ttl(),
        };
        assert(views(d.existing_ips@) =~= Seq::<Seq<char>>::empty());
        d
    }

    /// The zone's name, or its ID until the name is known.
    pub fn zone_name(&self) -> (n: &String)
        ensures
            n@ == self.spec_zone_name(),
    {
        &self.zone_name
    }

    /// The loaded records.
    pub fn records(&self) -> (r: &Vec<DnsRecord>)
        ensures
            r@ == self.spec_records(),
    {
        &self.records
    }

    /// The addresses of the loaded A and AAAA records, each once, in order.
    pub fn existing_ips(&self) -> (ips: &Vec<String>)
        ensures
            ips@ == self.spec_ips(),
            ips_match(self.spec_records(), ips@),
    {
        proof {
            use_type_invariant(self);
        }
        &self.existing_ips
    }

    /// The suffix that record names carry in the zone: a dot and the zone's name.
    pub fn domain_suffix(&self) -> (s: String)
        ensures
            s@ == "."@ + self.spec_zone_name(),
    {
        let mut s = String::from_str(".");
        s.append(self.zone_name.as_str());
        s
    }

    /// Takes the outcome of the zone-name lookup: the name when there is one,
    /// the name as it was otherwise.
    pub fn set_zone_name(&mut self, result: Result<String, CloudflareError>)
        ensures
            final(self).spec_zone_name() == match result {
                Ok(n) => n@,
                Err(_) => old(self).spec_zone_name(),
            },
            final(self).spec_records() == old(self).spec_records(),
            final(self).spec_ips() == old(self).spec_ips(),
            final(self).spec_cache() == old(self).spec_cache(),
    {
        proof {
            use_type_invariant(&*self);
        }
        if let Ok(n) = result {
            self.zone_name = n;
        }
    }

    /// A copy of the cached records, if they are still valid at the time
    /// elapsed since they were stored, as the clock reads it now.
    pub fn cached_records(&self) -> (r: Option<Vec<DnsRecord>>)
        ensures
            exists|e: int|
                0 <= e && #[trigger] cached_after(self.spec_cache(), e) == match r {
                    Some(v) => Some(v@),
                    None => None,
                },
    {
        let got = self.dns_cache.get();
        let ghost e = choose|e: int|
            0 <= e && #[trigger] cached_after(self.dns_cache@, e) == match got {
                Some(v) => Some(v@),
                None => None,
            };
        let r = match got {
            Some(v) => Some(copy_records(v.as_slice())),
            None => None,
        };
        assert(cached_after(self.spec_cache(), e) == match r {
            Some(v) => Some(v@),
            None => None::<Seq<DnsRecord>>,
        });
        r
    }

    /// How long ago the cached records were stored, as the clock reads it
    /// now: present exactly when records are stored.
    pub fn cache_age(&self) -> (r: Option<Duration>)
        ensures
            r.is_some() == self.spec_cache().stamped,
            r matches Some(d) ==> duration_nanos(d) >= 0,
    {
        self.dns_cache.age()
    }

    /// A copy of the cached records, if stored `elapsed` ago they would still
    /// be fresh.
    pub fn cached_records_after(&self, elapsed: Duration) -> (r: Option<Vec<DnsRecord>>)
        ensures
            cached_after(self.spec_cache(), duration_nanos(elapsed)) == match r {
                Some(v) => Some(v@),
                None => None,
            },
    {
        match self.dns_cache.get_after(elapsed) {
            Some(v) => Some(copy_records(v.as_slice())),
            None => None,
        }
    }

    /// Drops the cached records.
    pub fn invalidate_cache(&mut self)
        ensures
            final(self).spec_cache() == crate::api::cache::emptied(old(self).spec_cache()),
            final(self).spec_records() == old(self).spec_records(),
            final(self).spec_ips() == old(self).spec_ips(),
            final(self).spec_zone_name() == old(self).spec_zone_name(),
    {
        proof {
            use_type_invariant(&*self);
        }
        let mut cache = DnsCache::with_default_ttl();
        std::mem::swap(&mut cache, &mut self.dns_cache);
        cache.invalidate();
        std::mem::swap(&mut cache, &mut self.dns_cache);
    }

    /// Takes freshly loaded records: they become the shown records, their
    /// addresses the offered ones, and, when asked, the cached ones.
    pub fn store_records(&mut self, records: Vec<DnsRecord>, remember: bool)
        ensures
            final(self).spec_records() == records@,
            ips_match(records@, final(self).spec_ips()),
            final(self).spec_cache() == if remember {
                crate::api::cache::stored(old(self).spec_cache(), records@)
            } else {
                old(self).spec_cache()
            },
            final(self).spec_zone_name() == old(self).spec_zone_name(),
    {
        proof {
            use_type_invariant(&*self);
        }
        let ips = extract_unique_ips(records.as_slice());
        let mut cache = DnsCache::with_default_ttl();
        std::mem::swap(&mut cache, &mut self.dns_cache);
        if remember {
            let copy = copy_records(records.as_slice());
            cache.set(copy);
        }
        let zone_name = self.zone_name.clone();
        *self = AppData { zone_name, records, existing_ips: ips, dns_cache: cache };
    }
}

} // verus!
