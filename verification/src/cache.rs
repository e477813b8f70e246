//! Caches for values that are costly to fetch: a value is served for as
//! long as it is fresh, and fetched by one caller at a time.
//!
//! A cache does not fetch. It says what a caller is to do ([`Directive`]),
//! and is told how the fetch went. A caller that was told to wait asks
//! again once the fetch is over ([`Resumption`]): it is served what the
//! fetch brought, or learns that the fetch failed. Time is the reading of a
//! clock that does not run backwards, in whole seconds.

use vstd::prelude::*;

verus! {

/// For how long a stored value is served.
#[derive(Clone, Copy, Debug, PartialEq, Eq, Structural)]
pub enum Lifetime {
    /// For good: the value is loaded once.
    Forever,
    /// For this many seconds after it was stored.
    Seconds(u64),
}

/// What a caller that asked for the value is to do.
#[derive(Clone, Copy, Debug, PartialEq, Eq, Structural)]
pub enum Directive {
    /// Take the stored value: it is fresh.
    Serve,
    /// Wait for the fetch that is under way, then resume with its number.
    Wait(u64),
    /// Fetch the value, then report how that went.
    Fetch,
}

/// What a caller that waited for a fetch is to do.
#[derive(Clone, Copy, Debug, PartialEq, Eq, Structural)]
pub enum Resumption {
    /// Take the stored value: it is fresh.
    Serve,
    /// Go on waiting: the fetch is still under way.
    Wait,
    /// Give up: the fetch is over and left nothing to serve.
    Fail,
}

/// The seconds for which fetched key material is served: the service's own
/// signing key, and an issuer's key set.
pub const KEY_LIFETIME_SECONDS: u64 = 900;

/// A stored value and the time at which it was stored.
pub struct Stored<V> {
    pub value: V,
    pub at: u64,
}

/// A cache for one value.
pub struct Cache<V> {
    lifetime: Lifetime,
    stored: Option<Stored<V>>,
    loading: bool,
    round: u64,
}

/// The state of a cache: its lifetime, what it holds, whether a fetch is
/// under way, and the number of the fetch that was started last.
pub ghost struct CacheView<V> {
    pub lifetime: Lifetime,
    pub stored: Option<Stored<V>>,
    pub loading: bool,
    pub round: u64,
}

/// Whether a value stored at `at` is still fresh at `now`. A value with a
/// lifetime in seconds is fresh until that many seconds have passed, and no
/// longer.
pub open spec fn is_fresh(lifetime: Lifetime, at: u64, now: u64) -> bool {
    match lifetime {
        Lifetime::Forever => true,
        Lifetime::Seconds(seconds) => now < at + seconds,
    }
}

/// A cache that holds nothing and has fetched nothing.
pub open spec fn cold<V>(lifetime: Lifetime) -> CacheView<V> {
    CacheView { lifetime, stored: None, loading: false, round: 0 }
}

/// The number of the fetch after the one numbered `round`. The numbers
/// start over when they run out.
pub open spec fn next_round(round: u64) -> u64 {
    if round == u64::MAX {
        0
    } else {
        (round + 1) as u64
    }
}

/// The state of a cache that waits for the fetch that a request started.
pub open spec fn in_flight<V>(cache: CacheView<V>) -> CacheView<V> {
    CacheView { lifetime: cache.lifetime, stored: None, loading: true, round: next_round(cache.round) }
}

/// The value that the cache serves at `now`, if it serves one.
pub open spec fn served<V>(cache: CacheView<V>, now: u64) -> Option<V> {
    match cache.stored {
        Some(stored) => if is_fresh(cache.lifetime, stored.at, now) {
            Some(stored.value)
        } else {
            None
        },
        None => None,
    }
}

/// What a request at `now` does: a fresh value is served and nothing
/// changes. Otherwise a value that went stale is dropped, and the caller
/// starts the next fetch, unless a fetch is under way already: then the
/// caller waits for that one.
pub open spec fn requested<V>(cache: CacheView<V>, now: u64) -> (CacheView<V>, Directive) {
    if served(cache, now) is Some {
        (cache, Directive::Serve)
    } else if cache.loading {
        (
            CacheView { lifetime: cache.lifetime, stored: None, loading: true, round: cache.round },
            Directive::Wait(cache.round),
        )
    } else {
        (in_flight(cache), Directive::Fetch)
    }
}

/// What a caller is told that waited for the fetch numbered `round` and
/// asks again at `now`: a fresh value is served; without one the caller
/// goes on waiting while that fetch is under way, and gives up once it is
/// over.
pub open spec fn resumed<V>(cache: CacheView<V>, round: u64, now: u64) -> Resumption {
    if served(cache, now) is Some {
        Resumption::Serve
    } else if cache.loading && cache.round == round {
        Resumption::Wait
    } else {
        Resumption::Fail
    }
}

/// What the end of a successful fetch does: the value is stored as of
/// `now`, in place of whatever was there.
pub open spec fn completed<V>(cache: CacheView<V>, value: V, now: u64) -> CacheView<V> {
    CacheView { lifetime: cache.lifetime, stored: Some(Stored { value, at: now }), loading: false, round: cache.round }
}

/// What the end of a failed fetch does: no fetch is under way any more, so
/// those who waited give up and the next caller fetches anew.
pub open spec fn abandoned<V>(cache: CacheView<V>) -> CacheView<V> {
    CacheView { lifetime: cache.lifetime, stored: cache.stored, loading: false, round: cache.round }
}

impl<V> View for Cache<V> {
    type V = CacheView<V>;

    closed spec fn view(&self) -> CacheView<V> {
        CacheView { lifetime: self.lifetime, stored: self.stored, loading: self.loading, round: self.round }
    }
}

fn fresh(lifetime: Lifetime, at: u64, now: u64) -> (r: bool)
    ensures
        r == is_fresh(lifetime, at, now),
{
    match lifetime {
        Lifetime::Forever => true,
        Lifetime::Seconds(seconds) => now < at || now - at < seconds,
    }
}

impl<V> Cache<V> {
    /// A cache that holds nothing yet.
    pub fn new(lifetime: Lifetime) -> (cache: Cache<V>)
        ensures
            cache@ == cold::<V>(lifetime),
    {
        Cache { lifetime, stored: None, loading: false, round: 0 }
    }

    /// A cache for what is loaded once and kept for good, such as the
    /// configuration of the process.
    pub fn for_configuration() -> (cache: Cache<V>)
        ensures
            cache@ == cold::<V>(Lifetime::Forever),
    {
        Cache::new(Lifetime::Forever)
    }

    /// A cache for the service's own signing key.
    pub fn for_signing_key() -> (cache: Cache<V>)
        ensures
            cache@ == cold::<V>(Lifetime::Seconds(KEY_LIFETIME_SECONDS)),
    {
        Cache::new(Lifetime::Seconds(KEY_LIFETIME_SECONDS))
    }

    /// The value, if the cache holds one that is fresh at `now`.
    pub fn value(&self, now: u64) -> (value: Option<&V>)
        ensures
            match value {
                Some(v) => served(self@, now) == Some(*v),
                None => served(self@, now) is None,
            },
    {
        match &self.stored {
            Some(stored) => if fresh(self.lifetime, stored.at, now) {
                Some(&stored.value)
            } else {
                None
            },
            None => None,
        }
    }

    /// Asks for the value at `now`, and says what the caller is to do.
    pub fn request(&mut self, now: u64) -> (directive: Directive)
        ensures
            (final(self)@, directive) == requested(old(self)@, now),
    {
        let serve = match &self.stored {
            Some(stored) => fresh(self.lifetime, stored.at, now),
            None => false,
        };
        if serve {
            Directive::Serve
        } else {
            self.stored = None;
            if self.loading {
                Directive::Wait(self.round)
            } else {
                self.loading = true;
                self.round = if self.round == u64::MAX {
                    0
                } else {
                    self.round + 1
                };
                Directive::Fetch
            }
        }
    }

    /// Asks again at `now`, after waiting for the fetch numbered `round`.
    pub fn resume(&self, round: u64, now: u64) -> (resumption: Resumption)
        ensures
            resumption == resumed(self@, round, now),
    {
        let serve = match &self.stored {
            Some(stored) => fresh(self.lifetime, stored.at, now),
            None => false,
        };
        if serve {
            Resumption::Serve
        } else if self.loading && self.round == round {
            Resumption::Wait
        } else {
            Resumption::Fail
        }
    }

    /// Reports that the fetch gave `value` at `now`.
    pub fn complete(&mut self, value: V, now: u64)
        ensures
            final(self)@ == completed(old(self)@, value, now),
    {
        self.stored = Some(Stored { value, at: now });
        self.loading = false;
    }

    /// Reports that the fetch failed.
    pub fn abandon(&mut self)
        ensures
            final(self)@ == abandoned(old(self)@),
    {
        self.loading = false;
    }
}

struct Entry<V> {
    key: String,
    cache: Cache<V>,
}

/// A cache for one value per key. The keys do not share anything: each has
/// its own value, its own age and its own fetch.
pub struct KeyedCache<V> {
    lifetime: Lifetime,
    entries: Vec<Entry<V>>,
}

spec fn first_at<V>(entries: Seq<Entry<V>>, key: Seq<char>, i: int) -> bool {
    &&& 0 <= i < entries.len()
    &&& entries[i].key@ == key
    &&& forall|j: int| 0 <= j < i ==> (#[trigger] entries[j]).key@ != key
}

spec fn holds<V>(entries: Seq<Entry<V>>, key: Seq<char>) -> bool {
    exists|i: int| first_at(entries, key, i)
}

spec fn position<V>(entries: Seq<Entry<V>>, key: Seq<char>) -> int {
    choose|i: int| first_at(entries, key, i)
}

proof fn lemma_first_is_position<V>(entries: Seq<Entry<V>>, key: Seq<char>, i: int)
    requires
        first_at(entries, key, i),
    ensures
        holds(entries, key),
        position(entries, key) == i,
{
}

proof fn lemma_absent<V>(entries: Seq<Entry<V>>, key: Seq<char>)
    requires
        forall|j: int| 0 <= j < entries.len() ==> (#[trigger] entries[j]).key@ != key,
    ensures
        !holds(entries, key),
{
}

/// Two lists with the same keys in the same places hold the same keys at
/// the same positions.
proof fn lemma_same_keys<V>(before: Seq<Entry<V>>, after: Seq<Entry<V>>, key: Seq<char>)
    requires
        before.len() <= after.len(),
        forall|j: int| 0 <= j < before.len() ==> (#[trigger] after[j]).key@ == before[j].key@,
        forall|j: int| before.len() <= j < after.len() ==> (#[trigger] after[j]).key@ != key,
    ensures
        holds(after, key) == holds(before, key),
        holds(before, key) ==> position(after, key) == position(before, key),
{
    if holds(before, key) {
        let p = position(before, key);
        assert(first_at(after, key, p));
        lemma_first_is_position(after, key, p);
    }
    if holds(after, key) {
        let p = position(after, key);
        assert(first_at(before, key, p)) by {
            assert forall|j: int| 0 <= j < p implies (#[trigger] before[j]).key@ != key by {
                assert(after[j].key@ != key);
            }
        }
    }
}

fn find<V>(entries: &Vec<Entry<V>>, key: &String) -> (found: Option<usize>)
    ensures
        match found {
            Some(i) => first_at(entries@, key@, i as int),
            None => !holds(entries@, key@)
                && forall|j: int| 0 <= j < entries.len() ==> (#[trigger] entries[j]).key@ != key@,
        },
{
    let mut i: usize = 0;
    while i < entries.len()
        invariant
            i <= entries.len(),
            forall|j: int| 0 <= j < i ==> (#[trigger] entries[j]).key@ != key@,
        decreases entries.len() - i,
    {
        if entries[i].key == *key {
            return Some(i);
        }
        i += 1;
    }
    proof {
        lemma_absent(entries@, key@);
    }
    None
}

spec fn state_of<V>(lifetime: Lifetime, entries: Seq<Entry<V>>, key: Seq<char>) -> CacheView<V> {
    if holds(entries, key) {
        entries[position(entries, key)].cache@
    } else {
        cold(lifetime)
    }
}

/// Changing the cache of one entry changes the state of its key and of no
/// other.
proof fn lemma_entry_changed<V>(lifetime: Lifetime, before: Seq<Entry<V>>, after: Seq<Entry<V>>, key: Seq<char>, i: int)
    requires
        first_at(before, key, i),
        after.len() == before.len(),
        forall|j: int| 0 <= j < before.len() ==> (#[trigger] after[j]).key@ == before[j].key@,
        forall|j: int| 0 <= j < before.len() && j != i ==> (#[trigger] after[j]).cache@ == before[j].cache@,
    ensures
        state_of(lifetime, before, key) == before[i].cache@,
        Map::total(|k: Seq<char>| state_of(lifetime, after, k))
            == Map::total(|k: Seq<char>| state_of(lifetime, before, k)).insert(key, after[i].cache@),
{
    lemma_first_is_position(before, key, i);
    lemma_same_keys(before, after, key);
    assert forall|other: Seq<char>| other != key implies state_of(lifetime, after, other) == state_of(lifetime, before, other) by {
        lemma_same_keys(before, after, other);
    }
    assert(Map::total(|k: Seq<char>| state_of(lifetime, after, k))
        =~= Map::total(|k: Seq<char>| state_of(lifetime, before, k)).insert(key, after[i].cache@));
}

/// Adding an entry for a key that has none sets the state of that key and
/// of no other.
proof fn lemma_entry_added<V>(lifetime: Lifetime, before: Seq<Entry<V>>, entry: Entry<V>)
    requires
        forall|j: int| 0 <= j < before.len() ==> (#[trigger] before[j]).key@ != entry.key@,
    ensures
        state_of(lifetime, before, entry.key@) == cold::<V>(lifetime),
        Map::total(|k: Seq<char>| state_of(lifetime, before.push(entry), k))
            == Map::total(|k: Seq<char>| state_of(lifetime, before, k)).insert(entry.key@, entry.cache@),
{
    let after = before.push(entry);
    let key = entry.key@;
    lemma_absent(before, key);
    assert(first_at(after, key, before.len() as int)) by {
        assert forall|j: int| 0 <= j < before.len() implies (#[trigger] after[j]).key@ != key by {
            assert(after[j] == before[j]);
        }
    }
    lemma_first_is_position(after, key, before.len() as int);
    assert forall|other: Seq<char>| other != key implies state_of(lifetime, after, other) == state_of(lifetime, before, other) by {
        lemma_same_keys(before, after, other);
    }
    assert(Map::total(|k: Seq<char>| state_of(lifetime, after, k))
        =~= Map::total(|k: Seq<char>| state_of(lifetime, before, k)).insert(key, entry.cache@));
}

impl<V> View for KeyedCache<V> {
    type V = Map<Seq<char>, CacheView<V>>;

    /// The state of the cache for every key. A key that was never asked for
    /// is cold.
    closed spec fn view(&self) -> Map<Seq<char>, CacheView<V>> {
        Map::total(|key: Seq<char>| state_of(self.lifetime, self.entries@, key))
    }
}

/// A keyed cache in which every key is cold.
pub open spec fn untouched<V>(lifetime: Lifetime) -> Map<Seq<char>, CacheView<V>> {
    Map::total(|key: Seq<char>| cold::<V>(lifetime))
}

/// What a request for `key` at `now` does: what it would do to a cache of
/// that key alone. No other key is touched.
pub open spec fn requested_for<V>(caches: Map<Seq<char>, CacheView<V>>, key: Seq<char>, now: u64) -> (
    Map<Seq<char>, CacheView<V>>,
    Directive,
) {
    (caches.insert(key, requested(caches[key], now).0), requested(caches[key], now).1)
}

impl<V> KeyedCache<V> {
    /// A cache that holds nothing yet.
    pub fn new(lifetime: Lifetime) -> (cache: KeyedCache<V>)
        ensures
            cache@ == untouched::<V>(lifetime),
    {
        let cache = KeyedCache { lifetime, entries: Vec::new() };
        proof {
            assert forall|key: Seq<char>| state_of(lifetime, cache.entries@, key) == cold::<V>(lifetime) by {
                lemma_absent(cache.entries@, key);
            }
        }
        cache
    }

    /// A cache for the key sets of issuers, by issuer.
    pub fn for_key_sets() -> (cache: KeyedCache<V>)
        ensures
            cache@ == untouched::<V>(Lifetime::Seconds(KEY_LIFETIME_SECONDS)),
    {
        KeyedCache::new(Lifetime::Seconds(KEY_LIFETIME_SECONDS))
    }

    /// The value for `key`, if the cache holds one that is fresh at `now`.
    pub fn value(&self, key: &str, now: u64) -> (value: Option<&V>)
        ensures
            match value {
                Some(v) => served(self@[key@], now) == Some(*v),
                None => served(self@[key@], now) is None,
            },
    {
        let wanted = key.to_owned();
        match find(&self.entries, &wanted) {
            Some(i) => {
                proof {
                    lemma_first_is_position(self.entries@, key@, i as int);
                }
                self.entries[i].cache.value(now)
            },
            None => None,
        }
    }

    /// Asks again for the value for `key` at `now`, after waiting for the
    /// fetch numbered `round`.
    pub fn resume(&self, key: &str, round: u64, now: u64) -> (resumption: Resumption)
        ensures
            resumption == resumed(self@[key@], round, now),
    {
        let wanted = key.to_owned();
        match find(&self.entries, &wanted) {
            Some(i) => {
                proof {
                    lemma_first_is_position(self.entries@, key@, i as int);
                }
                self.entries[i].cache.resume(round, now)
            },
            None => Resumption::Fail,
        }
    }

    /// Asks for the value for `key` at `now`, and says what the caller is to
    /// do.
    pub fn request(&mut self, key: &str, now: u64) -> (directive: Directive)
        ensures
            (final(self)@, directive) == requested_for(old(self)@, key@, now),
    {
        let wanted = key.to_owned();
        let ghost before = self.entries@;
        match find(&self.entries, &wanted) {
            Some(i) => {
                let directive = self.entries[i].cache.request(now);
                proof {
                    lemma_entry_changed(self.lifetime, before, self.entries@, key@, i as int);
                }
                directive
            },
            None => {
                let mut cache = Cache::new(self.lifetime);
                let directive = cache.request(now);
                let entry = Entry { key: wanted, cache };
                proof {
                    lemma_entry_added(self.lifetime, before, entry);
                }
                self.entries.push(entry);
                directive
            },
        }
    }

    /// Reports that the fetch for `key` gave `value` at `now`. No other key
    /// is touched.
    pub fn complete(&mut self, key: &str, value: V, now: u64)
        ensures
            final(self)@ == old(self)@.insert(key@, completed(old(self)@[key@], value, now)),
    {
        let wanted = key.to_owned();
        let ghost before = self.entries@;
        match find(&self.entries, &wanted) {
            Some(i) => {
                self.entries[i].cache.complete(value, now);
                proof {
                    lemma_entry_changed(self.lifetime, before, self.entries@, key@, i as int);
                }
            },
            None => {
                let mut cache = Cache::new(self.lifetime);
                cache.complete(value, now);
                let entry = Entry { key: wanted, cache };
                proof {
                    lemma_entry_added(self.lifetime, before, entry);
                }
                self.entries.push(entry);
            },
        }
    }

    /// Reports that the fetch for `key` failed. No other key is touched.
    pub fn abandon(&mut self, key: &str)
        ensures
            final(self)@ == old(self)@.insert(key@, abandoned(old(self)@[key@])),
    {
        let wanted = key.to_owned();
        let ghost before = self.entries@;
        match find(&self.entries, &wanted) {
            Some(i) => {
                self.entries[i].cache.abandon();
                proof {
                    lemma_entry_changed(self.lifetime, before, self.entries@, key@, i as int);
                }
            },
            None => {
                proof {
                    lemma_absent(before, key@);
                }
            },
        }
    }
}

/// The state that a run of requests leaves, one request at each of the
/// given times, in their order.
pub open spec fn after_requests<V>(cache: CacheView<V>, times: Seq<u64>) -> CacheView<V>
    decreases times.len(),
{
    if times.len() == 0 {
        cache
    } else {
        requested(after_requests(cache, times.drop_last()), times.last()).0
    }
}

/// What the request number `i` of a run is told.
pub open spec fn directive_at<V>(cache: CacheView<V>, times: Seq<u64>, i: int) -> Directive {
    requested(after_requests(cache, times.take(i)), times[i]).1
}

/// How many requests of a run are told to fetch.
pub open spec fn fetches<V>(cache: CacheView<V>, times: Seq<u64>) -> nat
    decreases times.len(),
{
    if times.len() == 0 {
        0
    } else {
        let told = directive_at(cache, times, times.len() - 1);
        fetches(cache, times.drop_last()) + if told == Directive::Fetch {
            1nat
        } else {
            0nat
        }
    }
}

proof fn lemma_prefix_directives<V>(cache: CacheView<V>, times: Seq<u64>, i: int)
    requires
        0 <= i < times.len() - 1,
    ensures
        directive_at(cache, times, i) == directive_at(cache, times.drop_last(), i),
{
    assert(times.take(i) =~= times.drop_last().take(i));
}

/// Within its lifetime a stored value is reused: requests at times at
/// which the value is fresh are all served that value, none of them
/// fetches, and the cache stays as it is.
pub proof fn lemma_fresh_value_is_reused<V>(cache: CacheView<V>, times: Seq<u64>)
    requires
        cache.stored is Some,
        forall|i: int| 0 <= i < times.len() ==> is_fresh(cache.lifetime, cache.stored->0.at, #[trigger] times[i]),
    ensures
        after_requests(cache, times) == cache,
        fetches(cache, times) == 0,
        forall|i: int| 0 <= i < times.len() ==> #[trigger] directive_at(cache, times, i) == Directive::Serve,
        forall|i: int| 0 <= i < times.len() ==> served(cache, #[trigger] times[i]) == Some(cache.stored->0.value),
    decreases times.len(),
{
    if times.len() > 0 {
        let earlier = times.drop_last();
        assert forall|i: int| 0 <= i < earlier.len() implies is_fresh(cache.lifetime, cache.stored->0.at, #[trigger] earlier[i]) by {
            assert(earlier[i] == times[i]);
        }
        lemma_fresh_value_is_reused(cache, earlier);
        assert forall|i: int| 0 <= i < times.len() implies #[trigger] directive_at(cache, times, i) == Directive::Serve by {
            if i < times.len() - 1 {
                lemma_prefix_directives(cache, times, i);
            }
        }
    }
}

/// However many callers ask while nothing fresh is stored and no fetch is
/// under way, one of them fetches: the first is told to fetch, every other
/// is told to wait for that fetch, and the cache is left waiting for it.
pub proof fn lemma_one_fetch_for_all<V>(cache: CacheView<V>, times: Seq<u64>)
    requires
        times.len() > 0,
        !cache.loading,
        served(cache, times[0]) is None,
    ensures
        fetches(cache, times) == 1,
        directive_at(cache, times, 0) == Directive::Fetch,
        forall|i: int| 1 <= i < times.len() ==> #[trigger] directive_at(cache, times, i) == Directive::Wait(
            next_round(cache.round),
        ),
        after_requests(cache, times) == in_flight(cache),
    decreases times.len(),
{
    let earlier = times.drop_last();
    if times.len() == 1 {
        assert(fetches(cache, earlier) == 0);
    } else {
        lemma_one_fetch_for_all(cache, earlier);
        lemma_prefix_directives(cache, times, 0);
        assert forall|i: int| 1 <= i < times.len() implies #[trigger] directive_at(cache, times, i) == Directive::Wait(
            next_round(cache.round),
        ) by {
            if i < times.len() - 1 {
                lemma_prefix_directives(cache, times, i);
            }
        }
    }
}

/// What one fetch brought is what everyone gets: once the fetch is
/// reported, everyone who asks while the value is fresh is served that very
/// value, without another fetch, whether they ask anew or waited for it.
pub proof fn lemma_fetched_value_is_shared<V>(cache: CacheView<V>, value: V, fetched_at: u64, times: Seq<u64>)
    requires
        forall|i: int| 0 <= i < times.len() ==> is_fresh(cache.lifetime, fetched_at, #[trigger] times[i]),
    ensures
        fetches(completed(cache, value, fetched_at), times) == 0,
        forall|i: int| 0 <= i < times.len() ==> served(completed(cache, value, fetched_at), #[trigger] times[i]) == Some(value),
        forall|i: int, round: u64| 0 <= i < times.len() ==> #[trigger] resumed(
            completed(cache, value, fetched_at),
            round,
            times[i],
        ) == Resumption::Serve,
{
    lemma_fresh_value_is_reused(completed(cache, value, fetched_at), times);
}

/// A failed fetch fails everyone who waited for it, and nobody else: once
/// it is reported, each of those who were told to wait gives up, whenever
/// it asks again, and the next caller to ask anew is told to fetch.
pub proof fn lemma_failure_is_shared_and_does_not_stick<V>(cache: CacheView<V>, times: Seq<u64>, later: u64)
    requires
        times.len() > 0,
        !cache.loading,
        served(cache, times[0]) is None,
    ensures
        forall|i: int| 1 <= i < times.len() ==> #[trigger] directive_at(cache, times, i) == Directive::Wait(
            next_round(cache.round),
        ),
        resumed(abandoned(after_requests(cache, times)), next_round(cache.round), later) == Resumption::Fail,
        requested(abandoned(after_requests(cache, times)), later).1 == Directive::Fetch,
{
    lemma_one_fetch_for_all(cache, times);
}

/// A value with a lifetime in seconds is fetched once per lifetime. Take a
/// cache that stored a value at some time. Requests before the lifetime
/// has passed fetch nothing. Of the requests that begin once it has passed,
/// exactly one fetches. The value that this fetch brings is then served,
/// again without a fetch, until its own lifetime has passed.
pub proof fn lemma_lifetime_is_respected<V>(
    cache: CacheView<V>,
    seconds: u64,
    within: Seq<u64>,
    beyond: Seq<u64>,
    renewed: V,
    renewed_at: u64,
    later: Seq<u64>,
)
    requires
        cache.lifetime == Lifetime::Seconds(seconds),
        cache.stored is Some,
        !cache.loading,
        forall|i: int| 0 <= i < within.len() ==> (#[trigger] within[i]) < cache.stored->0.at + seconds,
        beyond.len() > 0,
        beyond[0] >= cache.stored->0.at + seconds,
        forall|i: int| 0 <= i < later.len() ==> (#[trigger] later[i]) < renewed_at + seconds,
    ensures
        fetches(cache, within) == 0,
        fetches(after_requests(cache, within), beyond) == 1,
        fetches(completed(after_requests(after_requests(cache, within), beyond), renewed, renewed_at), later) == 0,
        forall|i: int| 0 <= i < later.len() ==> served(
            completed(after_requests(after_requests(cache, within), beyond), renewed, renewed_at),
            #[trigger] later[i],
        ) == Some(renewed),
{
    lemma_fresh_value_is_reused(cache, within);
    lemma_one_fetch_for_all(cache, beyond);
    lemma_fetched_value_is_shared(after_requests(cache, beyond), renewed, renewed_at, later);
}

/// A request to a keyed cache: for which key, and when.
pub ghost struct Call {
    pub key: Seq<char>,
    pub at: u64,
}

/// The state that a run of calls leaves in a keyed cache.
pub open spec fn after_calls<V>(caches: Map<Seq<char>, CacheView<V>>, calls: Seq<Call>) -> Map<Seq<char>, CacheView<V>>
    decreases calls.len(),
{
    if calls.len() == 0 {
        caches
    } else {
        requested_for(after_calls(caches, calls.drop_last()), calls.last().key, calls.last().at).0
    }
}

/// How many calls of a run are for `key` and are told to fetch.
pub open spec fn fetches_for<V>(caches: Map<Seq<char>, CacheView<V>>, calls: Seq<Call>, key: Seq<char>) -> nat
    decreases calls.len(),
{
    if calls.len() == 0 {
        0
    } else {
        let last = calls.last();
        let told = requested_for(after_calls(caches, calls.drop_last()), last.key, last.at).1;
        fetches_for(caches, calls.drop_last(), key) + if last.key == key && told == Directive::Fetch {
            1nat
        } else {
            0nat
        }
    }
}

/// The times of the calls of a run that are for `key`, in their order.
pub open spec fn times_for(calls: Seq<Call>, key: Seq<char>) -> Seq<u64>
    decreases calls.len(),
{
    if calls.len() == 0 {
        Seq::empty()
    } else if calls.last().key == key {
        times_for(calls.drop_last(), key).push(calls.last().at)
    } else {
        times_for(calls.drop_last(), key)
    }
}

/// The keys of a keyed cache do not touch each other: whatever calls for
/// other keys come in between, a key ends in the state, and its callers
/// fetch as often, as if a cache of its own had seen its calls alone.
pub proof fn lemma_keys_are_independent<V>(caches: Map<Seq<char>, CacheView<V>>, calls: Seq<Call>, key: Seq<char>)
    ensures
        after_calls(caches, calls)[key] == after_requests(caches[key], times_for(calls, key)),
        fetches_for(caches, calls, key) == fetches(caches[key], times_for(calls, key)),
    decreases calls.len(),
{
    if calls.len() > 0 {
        let earlier = calls.drop_last();
        let last = calls.last();
        lemma_keys_are_independent(caches, earlier, key);
        if last.key == key {
            let times = times_for(calls, key);
            assert(times.take(times.len() - 1) =~= times_for(earlier, key));
        }
    }
}

/// However many callers ask for the key set of one issuer while the cache
/// holds nothing fresh for it and fetches nothing for it, and whatever is
/// asked for other issuers meanwhile, one of them fetches.
pub proof fn lemma_one_fetch_per_key<V>(caches: Map<Seq<char>, CacheView<V>>, calls: Seq<Call>, key: Seq<char>)
    requires
        times_for(calls, key).len() > 0,
        !caches[key].loading,
        served(caches[key], times_for(calls, key)[0]) is None,
    ensures
        fetches_for(caches, calls, key) == 1,
        after_calls(caches, calls)[key] == in_flight(caches[key]),
{
    lemma_keys_are_independent(caches, calls, key);
    lemma_one_fetch_for_all(caches[key], times_for(calls, key));
}

} // verus!
