//! A cache of probe results, so that looking at a provider again soon after does not probe
//! it again.
use dashmap::DashMap;
use std::time::Instant;
use vstd::prelude::*;
use vstd::string::*;

use crate::probe::{first_step, ProbeSession, ProbeStep, StepView};
use crate::provider_health::{ProbeResult, ProbeResultView, PROBE_CACHE_TTL_SECS};
use crate::text::lowercase;

verus! {

/// A result and when it was stored, in nanoseconds since the cache was made.
#[derive(Debug)]
pub struct CacheEntry {
    pub stored_at: u128,
    pub result: ProbeResult,
}

/// What a cache entry is.
pub struct CacheEntryView {
    pub stored_at: u128,
    pub result: ProbeResultView,
}

impl View for CacheEntry {
    type V = CacheEntryView;

    open spec fn view(&self) -> CacheEntryView {
        CacheEntryView { stored_at: self.stored_at, result: self.result@ }
    }
}

/// A copy of a cache entry.
fn copy_entry(entry: &CacheEntry) -> (r: CacheEntry)
    ensures
        r@ == entry@,
{
    CacheEntry { stored_at: entry.stored_at, result: entry.result.clone() }
}

/// Declares `std::time::Instant`, a point in time.
#[verifier::external_type_specification]
#[verifier::external_body]
pub struct ExInstant(Instant);

/// Declares `dashmap::DashMap`.
#[verifier::external_type_specification]
#[verifier::external_body]
#[verifier::reject_recursive_types(K)]
#[verifier::reject_recursive_types(V)]
#[verifier::reject_recursive_types(S)]
pub struct ExDashMap<K, V, S>(DashMap<K, V, S>);

/// What a `DashMap` of cache entries holds. The map can be changed through a shared
/// reference; here it never is: whatever changes it takes it by `&mut`.
pub uninterp spec fn cache_entries(map: DashMap<String, CacheEntry>) -> Map<
    Seq<char>,
    CacheEntryView,
>;

/// No entries.
pub open spec fn no_entries() -> Map<Seq<char>, CacheEntryView> {
    Map::empty()
}

/// `DashMap::new` makes a map that holds nothing.
#[verifier::external_body]
fn new_entries() -> (r: DashMap<String, CacheEntry>)
    ensures
        cache_entries(r) == no_entries(),
{
    DashMap::new()
}

/// `DashMap::view` looks `key` up as `DashMap::get` does, hands the value stored there to a
/// function and returns what that gives, or `None` where the key is not there. The function
/// copies the entry.
#[verifier::external_body]
fn find_entry(map: &DashMap<String, CacheEntry>, key: &str) -> (r: Option<CacheEntry>)
    ensures
        match r {
            Some(entry) => cache_entries(*map).contains_key(key@) && cache_entries(*map)[key@]
                == entry@,
            None => !cache_entries(*map).contains_key(key@),
        },
{
    map.view(key, |_, entry| copy_entry(entry))
}

/// `DashMap::insert` stores `entry` under `key` and returns what stood there before.
#[verifier::external_body]
fn put_entry(map: &mut DashMap<String, CacheEntry>, key: String, entry: CacheEntry) -> (r: Option<
    CacheEntry,
>)
    ensures
        cache_entries(*final(map)) == cache_entries(*old(map)).insert(key@, entry@),
        match r {
            Some(before) => cache_entries(*old(map)).contains_key(key@)
                && cache_entries(*old(map))[key@] == before@,
            None => !cache_entries(*old(map)).contains_key(key@),
        },
{
    map.insert(key, entry)
}

/// `DashMap::remove` takes the entry stored under `key` out of the map and returns it with
/// its key, or `None` where the key is not there.
#[verifier::external_body]
fn drop_entry(map: &mut DashMap<String, CacheEntry>, key: &str) -> (r: Option<(String, CacheEntry)>)
    ensures
        cache_entries(*final(map)) == cache_entries(*old(map)).remove(key@),
        match r {
            Some((k, entry)) => k@ == key@ && cache_entries(*old(map)).contains_key(key@)
                && cache_entries(*old(map))[key@] == entry@,
            None => !cache_entries(*old(map)).contains_key(key@),
        },
{
    map.remove(key)
}

/// `Instant::now` tells the present moment. Nothing is promised of it.
#[verifier::external_body]
fn present() -> Instant {
    Instant::now()
}

/// Where an `Instant` stands on the clock that made it, in nanoseconds from a moment that is
/// left open.
pub uninterp spec fn instant_nanos(moment: Instant) -> int;

/// The time from `start` to `moment`, in nanoseconds; zero where `moment` comes first.
pub open spec fn time_between(start: Instant, moment: Instant) -> int {
    if instant_nanos(moment) >= instant_nanos(start) {
        instant_nanos(moment) - instant_nanos(start)
    } else {
        0
    }
}

/// `Instant::duration_since` tells how much time lies between `start` and `moment`, here in
/// nanoseconds, and zero where `start` is the later one.
#[verifier::external_body]
fn nanos_between(start: &Instant, moment: &Instant) -> (r: u128)
    ensures
        r == (if instant_nanos(*moment) >= instant_nanos(*start) {
            instant_nanos(*moment) - instant_nanos(*start)
        } else {
            0
        }),
{
    moment.duration_since(*start).as_nanos()
}

/// Whether `nanos` nanoseconds lie between `start` and some moment of the clock.
pub open spec fn measured(start: Instant, nanos: u128) -> bool {
    exists|moment: Instant| nanos == #[trigger] time_between(start, moment)
}

/// Cache for provider probe results.
///
/// Entries expire after a fixed time to live.
pub struct ProbeCache {
    inner: DashMap<String, CacheEntry>,
    /// When the cache was made.
    epoch: Instant,
    /// How long an entry is good for, in seconds.
    ttl_secs: u64,
}

/// What a cache is: the entries that it holds, expired or not, the moment from which their
/// times are counted, and their time to live.
pub struct ProbeCacheView {
    pub entries: Map<Seq<char>, CacheEntryView>,
    pub epoch: Instant,
    pub ttl_secs: u64,
}

impl View for ProbeCache {
    type V = ProbeCacheView;

    closed spec fn view(&self) -> ProbeCacheView {
        ProbeCacheView {
            entries: cache_entries(self.inner),
            epoch: self.epoch,
            ttl_secs: self.ttl_secs,
        }
    }
}

/// The age of an entry at `now`, in nanoseconds; zero for one from a later moment.
pub open spec fn age(entry: CacheEntryView, now: u128) -> int {
    if now >= entry.stored_at {
        now - entry.stored_at
    } else {
        0
    }
}

impl ProbeCacheView {
    /// Whether an entry is still good at `now`.
    pub open spec fn fresh(self, entry: CacheEntryView, now: u128) -> bool {
        age(entry, now) < self.ttl_secs * 1_000_000_000
    }

    /// The result that looking up `id` at `now` gives.
    pub open spec fn found(self, id: Seq<char>, now: u128) -> Option<ProbeResultView> {
        if self.entries.contains_key(id) && self.fresh(self.entries[id], now) {
            Some(self.entries[id].result)
        } else {
            None
        }
    }

    /// The cache after looking up `id` at `now`: an expired entry is dropped.
    pub open spec fn after_lookup(self, id: Seq<char>, now: u128) -> ProbeCacheView {
        if self.entries.contains_key(id) && !self.fresh(self.entries[id], now) {
            ProbeCacheView { entries: self.entries.remove(id), ..self }
        } else {
            self
        }
    }

    /// The cache after storing `result` under `id` at `now`.
    pub open spec fn stored(
        self,
        id: Seq<char>,
        result: ProbeResultView,
        now: u128,
    ) -> ProbeCacheView {
        ProbeCacheView {
            entries: self.entries.insert(id, CacheEntryView { stored_at: now, result }),
            ..self
        }
    }
}

/// What an optional result is.
pub open spec fn result_option(result: Option<ProbeResult>) -> Option<ProbeResultView> {
    match result {
        Some(r) => Some(r@),
        None => None,
    }
}

impl ProbeCache {
    /// Create a new cache with the default 60-second TTL.
    pub fn new() -> (r: Self)
        ensures
            r@.entries == no_entries(),
            r@.ttl_secs == PROBE_CACHE_TTL_SECS,
    {
        ProbeCache { inner: new_entries(), epoch: present(), ttl_secs: PROBE_CACHE_TTL_SECS }
    }

    /// How long an entry is good for, in seconds.
    pub fn ttl_secs(&self) -> (r: u64)
        ensures
            r == self@.ttl_secs,
    {
        self.ttl_secs
    }

    /// The time since the cache was made, in nanoseconds.
    fn now(&self) -> (r: u128)
        ensures
            measured(self@.epoch, r),
    {
        let moment = present();
        let nanos: u128 = nanos_between(&self.epoch, &moment);
        assert(nanos == time_between(self.epoch, moment));
        nanos
    }

    /// Look up a cached probe result. Returns `None` if missing or expired; an expired entry
    /// is dropped.
    pub fn get(&mut self, provider_id: &str) -> (r: Option<ProbeResult>)
        ensures
            exists|now: u128|
                {
                    &&& measured(old(self)@.epoch, now)
                    &&& result_option(r) == #[trigger] old(self)@.found(provider_id@, now)
                    &&& final(self)@ == old(self)@.after_lookup(provider_id@, now)
                },
    {
        let now: u128 = self.now();
        self.get_at(provider_id, now)
    }

    /// Look up a cached probe result at `now`, in nanoseconds since the cache was made.
    pub fn get_at(&mut self, provider_id: &str, now: u128) -> (r: Option<ProbeResult>)
        ensures
            result_option(r) == old(self)@.found(provider_id@, now),
            final(self)@ == old(self)@.after_lookup(provider_id@, now),
    {
        match find_entry(&self.inner, provider_id) {
            Some(entry) => {
                let age: u128 = if now >= entry.stored_at {
                    now - entry.stored_at
                } else {
                    0
                };
                if age < self.ttl_secs as u128 * 1_000_000_000 {
                    Some(entry.result)
                } else {
                    drop_entry(&mut self.inner, provider_id);
                    None
                }
            },
            None => None,
        }
    }

    /// Store a probe result.
    pub fn insert(&mut self, provider_id: &str, result: ProbeResult)
        ensures
            exists|now: u128|
                {
                    &&& measured(old(self)@.epoch, now)
                    &&& final(self)@ == #[trigger] old(self)@.stored(provider_id@, result@, now)
                },
    {
        let now: u128 = self.now();
        self.insert_at(provider_id, result, now);
    }

    /// Store a probe result at `now`, in nanoseconds since the cache was made.
    pub fn insert_at(&mut self, provider_id: &str, result: ProbeResult, now: u128)
        ensures
            final(self)@ == old(self)@.stored(provider_id@, result@, now),
    {
        put_entry(
            &mut self.inner,
            provider_id.to_owned(),
            CacheEntry { stored_at: now, result },
        );
    }
}

impl Default for ProbeCache {
    fn default() -> (r: Self)
        ensures
            r@.entries == no_entries(),
            r@.ttl_secs == PROBE_CACHE_TTL_SECS,
    {
        ProbeCache::new()
    }
}

/// How a cached probe begins: with the result from the cache, or with the first step of a
/// probe.
#[derive(Debug)]
pub enum CachedProbe {
    Hit(ProbeResult),
    Miss(ProbeStep),
}

/// What the beginning of a cached probe is.
pub enum CachedProbeView {
    Hit(ProbeResultView),
    Miss(StepView),
}

impl View for CachedProbe {
    type V = CachedProbeView;

    open spec fn view(&self) -> CachedProbeView {
        match self {
            CachedProbe::Hit(result) => CachedProbeView::Hit(result@),
            CachedProbe::Miss(step) => CachedProbeView::Miss(step@),
        }
    }
}

impl ProbeCacheView {
    /// How a cached probe of `provider` begins at `now`.
    pub open spec fn cached_probe(
        self,
        provider: Seq<char>,
        base_url: Seq<char>,
        now: u128,
    ) -> CachedProbeView {
        match self.found(provider, now) {
            Some(result) => CachedProbeView::Hit(result),
            None => CachedProbeView::Miss(first_step(lowercase(provider), base_url)),
        }
    }
}

impl ProbeCache {
    /// Begins to probe a provider, unless the cache has a result that has not expired: then
    /// no request is made.
    pub fn begin_probe(&mut self, provider: &str, base_url: &str) -> (r: CachedProbe)
        ensures
            exists|now: u128|
                {
                    &&& measured(old(self)@.epoch, now)
                    &&& r@ == #[trigger] old(self)@.cached_probe(provider@, base_url@, now)
                    &&& final(self)@ == old(self)@.after_lookup(provider@, now)
                },
    {
        let now: u128 = self.now();
        self.begin_probe_at(provider, base_url, now)
    }

    /// Begins a cached probe at `now`, in nanoseconds since the cache was made.
    pub fn begin_probe_at(&mut self, provider: &str, base_url: &str, now: u128) -> (r: CachedProbe)
        ensures
            r@ == old(self)@.cached_probe(provider@, base_url@, now),
            final(self)@ == old(self)@.after_lookup(provider@, now),
    {
        match self.get_at(provider, now) {
            Some(result) => CachedProbe::Hit(result),
            None => CachedProbe::Miss(ProbeSession::begin(provider, base_url)),
        }
    }

    /// Stores the result of a probe that has come to its end, and hands it on.
    pub fn finish_probe(&mut self, provider: &str, result: ProbeResult) -> (r: ProbeResult)
        ensures
            r@ == result@,
            exists|now: u128|
                {
                    &&& measured(old(self)@.epoch, now)
                    &&& final(self)@ == #[trigger] old(self)@.stored(provider@, result@, now)
                },
    {
        self.insert(provider, result.clone());
        result
    }
}

/// Looking up a result gives back what was stored last under the same name, as long as the
/// time to live has not passed, and leaves the cache as it was.
pub proof fn law_lookup_after_store(
    cache: ProbeCacheView,
    id: Seq<char>,
    result: ProbeResultView,
    stored_at: u128,
    now: u128,
)
    requires
        cache.ttl_secs > 0,
        now - stored_at < cache.ttl_secs * 1_000_000_000,
    ensures
        cache.stored(id, result, stored_at).found(id, now) == Some(result),
        cache.stored(id, result, stored_at).after_lookup(id, now) == cache.stored(
            id,
            result,
            stored_at,
        ),
{
}

/// Once the time to live has passed a result is not found any more, and looking it up drops
/// it: the cache then holds nothing under that name, and it is not found at any time.
pub proof fn law_lookup_after_expiry(
    cache: ProbeCacheView,
    id: Seq<char>,
    result: ProbeResultView,
    stored_at: u128,
    now: u128,
    later: u128,
)
    requires
        stored_at <= now,
        now - stored_at >= cache.ttl_secs * 1_000_000_000,
    ensures
        cache.stored(id, result, stored_at).found(id, now) is None,
        cache.stored(id, result, stored_at).after_lookup(id, now).entries == cache.entries.remove(
            id,
        ),
        cache.stored(id, result, stored_at).after_lookup(id, now).found(id, later) is None,
{
    let stored = cache.stored(id, result, stored_at);
    assert(stored.entries.remove(id) =~= cache.entries.remove(id));
}

/// A result that was stored at one moment is found at another exactly where less than the time
/// to live lies between the two, whenever the cache was made before the first.
pub proof fn law_result_lives_for_its_time(
    cache: ProbeCacheView,
    id: Seq<char>,
    result: ProbeResultView,
    storing: Instant,
    stored_at: u128,
    looking: Instant,
    now: u128,
)
    requires
        instant_nanos(cache.epoch) <= instant_nanos(storing),
        stored_at == time_between(cache.epoch, storing),
        now == time_between(cache.epoch, looking),
    ensures
        cache.stored(id, result, stored_at).found(id, now) == (if time_between(storing, looking)
            < cache.ttl_secs * 1_000_000_000 {
            Some(result)
        } else {
            None
        }),
{
}

/// Nothing that is done to a cache moves the moment from which its times are counted, or
/// changes the time to live.
pub proof fn law_epoch_stays(
    cache: ProbeCacheView,
    id: Seq<char>,
    result: ProbeResultView,
    now: u128,
)
    ensures
        cache.stored(id, result, now).epoch == cache.epoch,
        cache.stored(id, result, now).ttl_secs == cache.ttl_secs,
        cache.after_lookup(id, now).epoch == cache.epoch,
        cache.after_lookup(id, now).ttl_secs == cache.ttl_secs,
{
}

/// Storing and looking up under one name changes nothing for another.
pub proof fn law_names_are_independent(
    cache: ProbeCacheView,
    id: Seq<char>,
    other: Seq<char>,
    result: ProbeResultView,
    now: u128,
    later: u128,
)
    requires
        id != other,
    ensures
        cache.stored(id, result, now).found(other, later) == cache.found(other, later),
        cache.after_lookup(id, now).found(other, later) == cache.found(other, later),
{
}

/// A provider that was probed is not probed again within the time to live: the second
/// cached probe has the result of the first, whatever the base URL.
pub proof fn law_cached_probe_is_remembered(
    cache: ProbeCacheView,
    provider: Seq<char>,
    base_url: Seq<char>,
    result: ProbeResultView,
    stored_at: u128,
    now: u128,
)
    requires
        cache.ttl_secs > 0,
        now - stored_at < cache.ttl_secs * 1_000_000_000,
    ensures
        cache.stored(provider, result, stored_at).cached_probe(provider, base_url, now)
            == CachedProbeView::Hit(result),
{
    law_lookup_after_store(cache, provider, result, stored_at, now);
}

/// A cache that holds nothing has nothing to give, at no time, and a probe of any provider then
/// begins with its first request.
pub proof fn law_nothing_without_storing(
    cache: ProbeCacheView,
    provider: Seq<char>,
    base_url: Seq<char>,
    now: u128,
)
    ensures
        !cache.entries.contains_key(provider) ==> cache.found(provider, now) is None,
        cache.found(provider, now) is None ==> cache.cached_probe(provider, base_url, now)
            == CachedProbeView::Miss(first_step(lowercase(provider), base_url)),
        cache.found(provider, now) matches Some(result) ==> cache.cached_probe(
            provider,
            base_url,
            now,
        ) == CachedProbeView::Hit(result),
        !no_entries().contains_key(provider),
{
}

/// Looking something up changes the cache only where it has expired, and storing changes only
/// what stands under the name: whatever else the cache holds it still holds.
pub proof fn law_entries_are_kept(
    cache: ProbeCacheView,
    id: Seq<char>,
    other: Seq<char>,
    result: ProbeResultView,
    now: u128,
)
    requires
        id != other,
    ensures
        cache.stored(id, result, now).entries.contains_key(id),
        cache.stored(id, result, now).entries[id] == (CacheEntryView { stored_at: now, result }),
        cache.stored(id, result, now).entries.contains_key(other)
            == cache.entries.contains_key(other),
        cache.entries.contains_key(other) ==> cache.stored(id, result, now).entries[other]
            == cache.entries[other],
        cache.found(id, now) is Some ==> cache.after_lookup(id, now) == cache,
        cache.after_lookup(id, now).entries.contains_key(other)
            == cache.entries.contains_key(other),
        cache.entries.contains_key(other) ==> cache.after_lookup(id, now).entries[other]
            == cache.entries[other],
        cache.found(id, now) is None ==> !cache.after_lookup(id, now).entries.contains_key(id),
{
}

/// What is measured from a moment is the time from it to another moment of the clock.
pub proof fn law_measured_time(start: Instant, nanos: u128)
    requires
        measured(start, nanos),
    ensures
        exists|moment: Instant|
            nanos == if #[trigger] instant_nanos(moment) >= instant_nanos(start) {
                instant_nanos(moment) - instant_nanos(start)
            } else {
                0
            },
{
    let moment = choose|moment: Instant| nanos == #[trigger] time_between(start, moment);
    assert(instant_nanos(moment) == instant_nanos(moment));
}

/// Entries, results and beginnings of probes stand for what they hold.
pub proof fn law_cached_values_stand_for_themselves(
    entry: CacheEntry,
    result: ProbeResult,
    step: ProbeStep,
)
    ensures
        entry@.stored_at == entry.stored_at,
        entry@.result == entry.result@,
        result_option(Some(result)) == Some(result@),
        result_option(None) is None,
        CachedProbe::Hit(result)@ == CachedProbeView::Hit(result@),
        CachedProbe::Miss(step)@ == CachedProbeView::Miss(step@),
{
}

} // verus!
