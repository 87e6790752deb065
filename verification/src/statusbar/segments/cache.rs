//! Keeping fetched usage statistics for a while.

use std::time::{Duration, Instant};
use vstd::prelude::*;

verus! {

/// The monotonic clock's instants.
#[verifier::external_type_specification]
#[verifier::external_body]
pub struct ExInstant(Instant);

/// Calls `Instant::now`. Nothing is stated of the instant.
#[verifier::external_body]
pub(crate) fn instant_now() -> (r: Instant) {
    Instant::now()
}

/// Calls `Instant::elapsed`. The result depends on the clock: nothing is
/// stated of it.
#[verifier::external_body]
pub(crate) fn elapsed_since(t: &Instant) -> (r: Duration) {
    t.elapsed()
}

/// Calls `Duration::as_secs`: the whole seconds of a duration. Durations
/// are opaque here, so nothing is stated of the result.
#[verifier::external_body]
pub(crate) fn whole_secs(d: &Duration) -> (r: u64) {
    d.as_secs()
}

/// Values that can be copied with the copy equal to the original.
pub trait Snapshot: Sized {
    fn snapshot(&self) -> (r: Self)
        ensures
            r == *self,
    ;
}

/// Statistics and when they were fetched.
#[derive(Debug)]
pub struct CacheEntry<T> {
    pub stats: T,
    pub timestamp: Instant,
}

/// The statistics last fetched, if any.
#[derive(Debug)]
pub struct UsageCache<T> {
    pub entry: Option<CacheEntry<T>>,
}

/// Whether statistics of this age (in whole seconds) are still served: an
/// age below the lifetime. For a lifetime of whole seconds this is the same
/// as comparing the exact elapsed time with it.
pub open spec fn is_fresh(age_secs: u64, ttl_secs: u64) -> bool {
    age_secs < ttl_secs
}

/// What the cache serves, given the age of its entry.
pub open spec fn served<T>(c: UsageCache<T>, enabled: bool, age_secs: u64, ttl_secs: u64) -> Option<T> {
    match c.entry {
        Some(e) => if enabled && is_fresh(age_secs, ttl_secs) {
            Some(e.stats)
        } else {
            None
        },
        None => None,
    }
}

/// The statistics held, whatever their age.
pub open spec fn held<T>(c: UsageCache<T>) -> Option<T> {
    match c.entry {
        Some(e) => Some(e.stats),
        None => None,
    }
}

impl<T: Snapshot> UsageCache<T> {
    /// An empty cache.
    pub fn new() -> (r: UsageCache<T>)
        ensures
            r.entry is None,
    {
        UsageCache { entry: None }
    }

    /// What the cache serves for an entry of the given age.
    pub fn serve_at_age(&self, enabled: bool, age_secs: u64, ttl_secs: u64) -> (r: Option<T>)
        ensures
            r == served(*self, enabled, age_secs, ttl_secs),
    {
        match &self.entry {
            Some(e) => if enabled && age_secs < ttl_secs {
                Some(e.stats.snapshot())
            } else {
                None
            },
            None => None,
        }
    }

    /// The cached statistics, where caching is on and they are younger than
    /// the lifetime; their age is read from the clock.
    pub fn fresh(&self, enabled: bool, ttl_secs: u64) -> (r: Option<T>)
        ensures
            !enabled ==> r is None,
            self.entry is None ==> r is None,
            r matches Some(s) ==> held(*self) == Some(s),
            self.entry matches Some(e) ==> exists|age_secs: u64|
                measured_age(e.timestamp, age_secs) && r == #[trigger] served(*self, enabled, age_secs, ttl_secs),
    {
        match &self.entry {
            Some(e) => {
                let elapsed_of = elapsed_since;
                let elapsed = elapsed_of(&e.timestamp);
                let secs_of = whole_secs;
                let age = secs_of(&elapsed);
                assert(call_ensures(elapsed_of, (&e.timestamp,), elapsed));
                assert(call_ensures(secs_of, (&elapsed,), age));
                assert(measured_age(e.timestamp, age));
                self.serve_at_age(enabled, age, ttl_secs)
            },
            None => None,
        }
    }

    /// The statistics to show for an entry of the given age: what the cache
    /// serves at that age, without fetching; where it serves nothing, what
    /// `fetch` gives, settled as `settle` does.
    pub fn get_or_fetch_at_age<F>(&mut self, enabled: bool, age_secs: u64, ttl_secs: u64, fetch: F) -> (r:
        Option<T>) where F: FnOnce() -> Option<Option<T>>
        requires
            call_requires(fetch, ()),
        ensures
            served(*old(self), enabled, age_secs, ttl_secs) is Some ==> r == served(
                *old(self),
                enabled,
                age_secs,
                ttl_secs,
            ) && *final(self) == *old(self),
            served(*old(self), enabled, age_secs, ttl_secs) is None ==> exists|out: Option<Option<T>>|
                call_ensures(fetch, (), out) && fetch_outcome(*old(self), *final(self), enabled, out, r),
    {
        match self.serve_at_age(enabled, age_secs, ttl_secs) {
            Some(s) => {
                return Some(s);
            },
            None => {},
        }
        let out = fetch();
        let r = match out {
            None => None,
            Some(fetched) => self.settle(enabled, fetched),
        };
        assert(fetch_outcome(*old(self), *self, enabled, out, r));
        r
    }

    /// The statistics to show: the cached ones while caching is on and they
    /// are fresh; otherwise what `fetch` gives, settled as `settle` does.
    /// The entry's age is read from the clock (an empty cache counts as
    /// age zero: it serves nothing at any age).
    pub fn get_or_fetch<F>(&mut self, enabled: bool, ttl_secs: u64, fetch: F) -> (r: Option<T>) where
        F: FnOnce() -> Option<Option<T>>,

        requires
            call_requires(fetch, ()),
        ensures
            exists|age_secs: u64|
                {
                    &&& served(*old(self), enabled, age_secs, ttl_secs) is Some ==> r == served(
                        *old(self),
                        enabled,
                        age_secs,
                        ttl_secs,
                    ) && *final(self) == *old(self)
                    &&& served(*old(self), enabled, age_secs, ttl_secs) is None ==> exists|
                        out: Option<Option<T>>,
                    |
                        call_ensures(fetch, (), out) && fetch_outcome(
                            *old(self),
                            *final(self),
                            enabled,
                            out,
                            r,
                        )
                },
            get_or_fetch_outcome(*old(self), *final(self), enabled, ttl_secs, fetch, r),
    {
        let age: u64 = match &self.entry {
            Some(e) => {
                // Read through values, so that the age is tied to this entry's
                // timestamp (`call_ensures`, which `measured_age` names).
                let elapsed_of = elapsed_since;
                let elapsed = elapsed_of(&e.timestamp);
                let secs_of = whole_secs;
                let age = secs_of(&elapsed);
                assert(call_ensures(elapsed_of, (&e.timestamp,), elapsed));
                assert(call_ensures(secs_of, (&elapsed,), age));
                assert(measured_age(e.timestamp, age));
                age
            },
            None => 0,
        };
        let r = self.get_or_fetch_at_age(enabled, age, ttl_secs, fetch);
        assert(outcome_at_age(*old(self), *self, enabled, age, ttl_secs, fetch, r));
        r
    }

    /// Settles a fetch: fetched statistics are returned, and kept (stamped
    /// now) where caching is on; after a failed fetch, whatever the cache
    /// holds is returned.
    pub fn settle(&mut self, enabled: bool, fetched: Option<T>) -> (r: Option<T>)
        ensures
            match fetched {
                Some(s) => {
                    &&& r == Some(s)
                    &&& enabled ==> held(*final(self)) == Some(s)
                    &&& !enabled ==> *final(self) == *old(self)
                },
                None => r == held(*old(self)) && *final(self) == *old(self),
            },
            enabled && fetched is Some ==> (final(self).entry matches Some(e) && stamped_now(e.timestamp)),
    {
        match fetched {
            Some(stats) => {
                if enabled {
                    let kept = stats.snapshot();
                    let now_of = instant_now;
                    let now = now_of();
                    assert(call_ensures(now_of, (), now));
                    self.entry = Some(CacheEntry { stats: kept, timestamp: now });
                }
                Some(stats)
            },
            None => match &self.entry {
                Some(e) => Some(e.stats.snapshot()),
                None => None,
            },
        }
    }
}

/// `t` is an instant that `Instant::now` gave: the moment an entry was
/// kept. No clause says which (that rests on the clock).
pub closed spec fn stamped_now(t: Instant) -> bool {
    call_ensures(instant_now, (), t)
}

/// `age_secs` is an age that the clock gave for an entry stamped `t`: the
/// whole seconds (`Duration::as_secs`) of what `Instant::elapsed` read for
/// it. No clause says which (that rests on the clock); this only ties a
/// freshness decision to an actual reading of that very timestamp.
pub closed spec fn measured_age(t: Instant, age_secs: u64) -> bool {
    exists|d: Duration| call_ensures(elapsed_since, (&t,), d) && call_ensures(whole_secs, (&d,), age_secs)
}

/// What the cache step gives for an entry of age `age_secs`: what the cache
/// serves at that age, unchanged, or else the outcome of a fetch.
pub open spec fn outcome_at_age<T, F: FnOnce() -> Option<Option<T>>>(
    before: UsageCache<T>,
    after: UsageCache<T>,
    enabled: bool,
    age_secs: u64,
    ttl_secs: u64,
    fetch: F,
    r: Option<T>,
) -> bool {
    &&& served(before, enabled, age_secs, ttl_secs) is Some ==> r == served(before, enabled, age_secs, ttl_secs)
        && after == before
    &&& served(before, enabled, age_secs, ttl_secs) is None ==> exists|out: Option<Option<T>>|
        call_ensures(fetch, (), out) && fetch_outcome(before, after, enabled, out, r)
}

/// What the cache step gives with the entry judged at its measured age:
/// the age the clock read for the entry's own timestamp (an empty cache
/// serves nothing at any age).
pub open spec fn get_or_fetch_outcome<T, F: FnOnce() -> Option<Option<T>>>(
    before: UsageCache<T>,
    after: UsageCache<T>,
    enabled: bool,
    ttl_secs: u64,
    fetch: F,
    r: Option<T>,
) -> bool {
    match before.entry {
        Some(e) => exists|age_secs: u64|
            measured_age(e.timestamp, age_secs) && #[trigger] outcome_at_age(
                before,
                after,
                enabled,
                age_secs,
                ttl_secs,
                fetch,
                r,
            ),
        None => outcome_at_age(before, after, enabled, 0, ttl_secs, fetch, r),
    }
}

/// What follows a fetch attempt: `out` is `None` where no client could be
/// built (nothing is returned), `Some(None)` where the fetch failed (the
/// cached statistics are returned), `Some(Some(s))` where it gave `s` (which
/// is returned, and kept where caching is on).
pub open spec fn fetch_outcome<T>(
    before: UsageCache<T>,
    after: UsageCache<T>,
    enabled: bool,
    out: Option<Option<T>>,
    r: Option<T>,
) -> bool {
    match out {
        None => r is None && after == before,
        Some(None) => r == held(before) && after == before,
        Some(Some(s)) => {
            &&& r == Some(s)
            &&& enabled ==> held(after) == Some(s)
            &&& !enabled ==> after == before
        },
    }
}

/// What a fetch put in the cache is what the cache then serves while it is
/// fresh; with caching off, nothing is served.
pub proof fn lemma_cache_serves_what_was_kept<T>(c: UsageCache<T>, s: T, age_secs: u64, ttl_secs: u64)
    requires
        held(c) == Some(s),
    ensures
        is_fresh(age_secs, ttl_secs) ==> served(c, true, age_secs, ttl_secs) == Some(s),
        !is_fresh(age_secs, ttl_secs) ==> served(c, true, age_secs, ttl_secs) is None,
        served(c, false, age_secs, ttl_secs) is None,
{
}

/// An entry that the clock reads as at least the lifetime old is not
/// served: the statistics come from a fetch. One it reads as younger is
/// served, unchanged, while caching is on. With caching off a fetch is
/// always made.
pub proof fn lemma_cache_expiry<T, F: FnOnce() -> Option<Option<T>>>(
    before: UsageCache<T>,
    after: UsageCache<T>,
    enabled: bool,
    ttl_secs: u64,
    fetch: F,
    r: Option<T>,
)
    requires
        get_or_fetch_outcome(before, after, enabled, ttl_secs, fetch, r),
    ensures
        (!enabled || before.entry is None || (forall|age: u64|
            measured_age(before.entry->0.timestamp, age) ==> age >= ttl_secs)) ==> exists|
            out: Option<Option<T>>,
        | call_ensures(fetch, (), out) && fetch_outcome(before, after, enabled, out, r),
        (enabled && before.entry is Some && (forall|age: u64|
            measured_age(before.entry->0.timestamp, age) ==> age < ttl_secs)) ==> r == held(before) && after
            == before,
{
    match before.entry {
        Some(e) => {
            let age = choose|age: u64|
                measured_age(e.timestamp, age) && #[trigger] outcome_at_age(
                    before,
                    after,
                    enabled,
                    age,
                    ttl_secs,
                    fetch,
                    r,
                );
            assert(outcome_at_age(before, after, enabled, age, ttl_secs, fetch, r));
        },
        None => {},
    }
}

} // verus!
