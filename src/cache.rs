use vstd::prelude::*;
use crate::error::FetchFeedError;
use crate::types::{capped, feed_size, Feed, FeedUrl, FeedView};

verus! {

/// Milliseconds read from a monotonic clock.
pub type Millis = u64;

/// Default memory budget of a cache: 100 MiB.
pub const DEFAULT_MAX_CACHE_SIZE: usize = 104857600;

/// Default time to live of a cache entry: three hours.
pub const DEFAULT_TIME_TO_LIVE: Millis = 10800000;

/// Budget of a [`FeedCache`], fixed for its lifetime.
#[derive(Debug, Clone, Copy)]
pub struct CacheConfig {
    pub max_cache_size: usize,
    pub time_to_live: Millis,
}

impl Default for CacheConfig {
    fn default() -> (r: Self)
        ensures
            r.max_cache_size == DEFAULT_MAX_CACHE_SIZE,
            r.time_to_live == DEFAULT_TIME_TO_LIVE,
    {
        CacheConfig { max_cache_size: DEFAULT_MAX_CACHE_SIZE, time_to_live: DEFAULT_TIME_TO_LIVE }
    }
}

impl CacheConfig {
    pub fn with_max_cache_size(self, max_cache_size: usize) -> (r: Self)
        ensures
            r.max_cache_size == max_cache_size,
            r.time_to_live == self.time_to_live,
    {
        CacheConfig { max_cache_size, ..self }
    }

    pub fn with_time_to_live(self, time_to_live: Millis) -> (r: Self)
        ensures
            r.max_cache_size == self.max_cache_size,
            r.time_to_live == time_to_live,
    {
        CacheConfig { time_to_live, ..self }
    }
}

/// A memoized feed with the time it was stored and its accounted size.
#[derive(Debug)]
pub struct CacheEntry {
    pub feed: Feed,
    pub inserted_at: Millis,
    pub approx_size: usize,
}

/// One row of the cache table.
#[derive(Debug)]
pub struct Slot {
    pub key: FeedUrl,
    pub entry: CacheEntry,
}

/// An entry is live while less than `ttl` has passed since it was stored.
pub open spec fn is_fresh(e: CacheEntry, now: Millis, ttl: Millis) -> bool {
    (now as int) - (e.inserted_at as int) < ttl as int
}

/// Sum of the accounted sizes of the rows.
pub open spec fn total_size(s: Seq<Slot>) -> nat
    decreases s.len(),
{
    if s.len() == 0 {
        0
    } else {
        (total_size(s.drop_last()) + s.last().entry.approx_size) as nat
    }
}

pub open spec fn keys_unique(s: Seq<Slot>) -> bool {
    forall|i: int, j: int|
        0 <= i < s.len() && 0 <= j < s.len() && i != j ==> s[i].key@ != s[j].key@
}

pub open spec fn has_key(s: Seq<Slot>, k: Seq<char>) -> bool {
    exists|i: int| 0 <= i < s.len() && s[i].key@ == k
}

/// Row `i` holds a live entry for `k`.
pub open spec fn fresh_at(s: Seq<Slot>, k: Seq<char>, now: Millis, ttl: Millis, i: int) -> bool {
    0 <= i < s.len() && s[i].key@ == k && is_fresh(s[i].entry, now, ttl)
}

pub open spec fn has_fresh(s: Seq<Slot>, k: Seq<char>, now: Millis, ttl: Millis) -> bool {
    exists|i: int| fresh_at(s, k, now, ttl, i)
}

pub open spec fn url_listed(s: Seq<FeedUrl>, k: Seq<char>) -> bool {
    exists|i: int| 0 <= i < s.len() && s[i]@ == k
}

pub open spec fn urls_unique(s: Seq<FeedUrl>) -> bool {
    forall|i: int, j: int| 0 <= i < s.len() && 0 <= j < s.len() && i != j ==> s[i]@ != s[j]@
}

/// Row `j` of `before` held a key other than `k` and is gone from `after`.
pub open spec fn evicted(before: Seq<Slot>, after: Seq<Slot>, k: Seq<char>, j: int) -> bool {
    &&& 0 <= j < before.len()
    &&& before[j].key@ != k
    &&& !after.contains(before[j])
}

/// What the table holds after a feed of `size` was admitted under `k` at `now`,
/// starting from `before`. The old row of `k` is dropped. If the new entry fits
/// the budget, rows are evicted in order of insertion time, which puts every
/// expired row before every live one, and eviction stops as soon as the new
/// entry fits; the rows that stay are unchanged and the new row comes last. A
/// new entry larger than the whole budget is not stored, and nothing else is
/// touched then.
pub open spec fn admitted(
    before: Seq<Slot>,
    after: Seq<Slot>,
    k: Seq<char>,
    feed: FeedView,
    size: usize,
    now: Millis,
    config: CacheConfig,
) -> bool {
    let ttl = config.time_to_live;
    let max = config.max_cache_size;
    &&& keys_unique(after)
    &&& total_size(after) <= max
    &&& if size <= max {
        &&& after.len() > 0
        &&& after.last().key@ == k
        &&& after.last().entry.feed@ == feed
        &&& after.last().entry.inserted_at == now
        &&& after.last().entry.approx_size == size
        &&& forall|i: int|
            0 <= i < after.len() - 1 ==> {
                &&& before.contains(#[trigger] after[i])
                &&& after[i].key@ != k
            }
        &&& forall|j: int, i: int|
            evicted(before, after, k, j) && 0 <= i < after.len() - 1
                ==> #[trigger] before[j].entry.inserted_at <= #[trigger] after[i].entry.inserted_at
        &&& forall|j: int, i: int|
            evicted(before, after, k, j) && is_fresh(before[j].entry, now, ttl) && 0 <= i
                < after.len() - 1 ==> is_fresh(#[trigger] after[i].entry, now, ttl)
                && #[trigger] before[j].key@ != k
        &&& (exists|j: int| evicted(before, after, k, j)) ==> (exists|j: int|
            evicted(before, after, k, j) && total_size(after) + before[j].entry.approx_size > max)
    } else {
        &&& !has_key(after, k)
        &&& forall|j: int|
            0 <= j < before.len() && before[j].key@ != k ==> after.contains(#[trigger] before[j])
        &&& forall|i: int| 0 <= i < after.len() ==> before.contains(#[trigger] after[i])
    }
}

/// What a request for a URL should do next.
#[derive(Debug)]
pub enum Lookup {
    /// A live entry answers it; here is a copy.
    Hit(Feed),
    /// Nothing live and nobody fetching: this caller fetches.
    Fetch,
    /// Another caller is fetching: wait for its outcome.
    Wait,
}

/// A request for `k` at `now` is to go to the network: nothing live answers it
/// and no fetch of it is in flight.
pub open spec fn decides_fetch(
    slots: Seq<Slot>,
    pending: Seq<FeedUrl>,
    k: Seq<char>,
    now: Millis,
    ttl: Millis,
) -> bool {
    !has_fresh(slots, k, now, ttl) && !url_listed(pending, k)
}

/// The URLs listed in `after` are those of `before` without `k`.
pub open spec fn unlisted(before: Seq<FeedUrl>, after: Seq<FeedUrl>, k: Seq<char>) -> bool {
    forall|u: Seq<char>| url_listed(after, u) == (url_listed(before, u) && u != k)
}

/// A time- and size-bounded table of fetched feeds, keyed by URL, with the set
/// of URLs whose fetch is in flight.
#[derive(Debug)]
pub struct FeedCache {
    config: CacheConfig,
    slots: Vec<Slot>,
    total: usize,
    in_flight: Vec<FeedUrl>,
}

impl FeedCache {
    pub closed spec fn config_spec(&self) -> CacheConfig {
        self.config
    }

    /// The rows of the table, oldest insertion first.
    pub closed spec fn slots(&self) -> Seq<Slot> {
        self.slots@
    }

    /// The URLs whose fetch has begun and not yet completed.
    pub closed spec fn pending(&self) -> Seq<FeedUrl> {
        self.in_flight@
    }

    /// The running total of accounted sizes.
    pub closed spec fn total_spec(&self) -> usize {
        self.total
    }

    /// Keys are unique, the accounted size is the sum of the rows and stays
    /// within the budget, and each URL is in flight at most once.
    pub open spec fn wf(&self) -> bool {
        &&& keys_unique(self.slots())
        &&& total_size(self.slots()) <= self.config_spec().max_cache_size
        &&& self.total_spec() == total_size(self.slots())
        &&& urls_unique(self.pending())
    }

    pub fn new(config: CacheConfig) -> (r: FeedCache)
        ensures
            r.wf(),
            r.config_spec() == config,
            r.slots() == Seq::<Slot>::empty(),
            r.pending() == Seq::<FeedUrl>::empty(),
    {
        FeedCache { config, slots: Vec::new(), total: 0, in_flight: Vec::new() }
    }

    pub fn config(&self) -> (r: CacheConfig)
        ensures
            r == self.config_spec(),
    {
        self.config
    }

    /// Number of rows in the table.
    pub fn len(&self) -> (r: usize)
        ensures
            r == self.slots().len(),
    {
        self.slots.len()
    }

    /// Sum of the accounted sizes of the rows.
    pub fn cached_bytes(&self) -> (r: usize)
        requires
            self.wf(),
        ensures
            r == total_size(self.slots()),
    {
        self.total
    }

    /// The row that holds `key`, if any.
    pub fn position(&self, key: &FeedUrl) -> (r: Option<usize>)
        ensures
            match r {
                Some(i) => i < self.slots().len() && self.slots()[i as int].key@ == key@,
                None => !has_key(self.slots(), key@),
            },
    {
        let mut i: usize = 0;
        while i < self.slots.len()
            invariant
                i <= self.slots@.len(),
                forall|j: int| 0 <= j < i ==> self.slots@[j].key@ != key@,
            decreases self.slots@.len() - i,
        {
            if self.slots[i].key.same_as(key) {
                return Some(i);
            }
            i = i + 1;
        }
        None
    }

    /// A copy of the live entry for `key`, if there is one at `now`.
    pub fn lookup(&self, key: &FeedUrl, now: Millis) -> (r: Option<Feed>)
        requires
            self.wf(),
        ensures
            r.is_some() == has_fresh(self.slots(), key@, now, self.config_spec().time_to_live),
            r matches Some(f) ==> exists|i: int|
                fresh_at(self.slots(), key@, now, self.config_spec().time_to_live, i)
                    && f@ == self.slots()[i].entry.feed@,
    {
        match self.position(key) {
            Some(i) => {
                let e = &self.slots[i].entry;
                if entry_is_fresh(e, now, self.config.time_to_live) {
                    let f = e.feed.clone();
                    assert(fresh_at(self.slots(), key@, now, self.config.time_to_live, i as int));
                    Some(f)
                } else {
                    proof {
                        assert forall|j: int|
                            !fresh_at(self.slots(), key@, now, self.config.time_to_live, j) by {
                            if 0 <= j < self.slots@.len() && j != i {
                                assert(self.slots@[j].key@ != self.slots@[i as int].key@);
                            }
                        }
                    }
                    None
                }
            },
            None => {
                assert(!has_fresh(self.slots(), key@, now, self.config.time_to_live));
                None
            },
        }
    }


    /// Index of a row with the earliest insertion time.
    fn oldest(&self) -> (r: usize)
        requires
            self.slots@.len() > 0,
        ensures
            r < self.slots@.len(),
            forall|i: int|
                0 <= i < self.slots@.len() ==> self.slots@[r as int].entry.inserted_at
                    <= #[trigger] self.slots@[i].entry.inserted_at,
    {
        let mut best: usize = 0;
        let mut i: usize = 1;
        while i < self.slots.len()
            invariant
                0 < i <= self.slots@.len(),
                best < i,
                forall|j: int|
                    0 <= j < i ==> self.slots@[best as int].entry.inserted_at
                        <= #[trigger] self.slots@[j].entry.inserted_at,
            decreases self.slots@.len() - i,
        {
            if self.slots[i].entry.inserted_at < self.slots[best].entry.inserted_at {
                best = i;
            }
            i = i + 1;
        }
        best
    }

    /// Stores `feed` under `key` with the accounted size `size`: the old row of
    /// `key` goes first; then, unless `size` alone exceeds the budget, the
    /// oldest rows (expired ones first, as they are the oldest) go one by one
    /// until the new row fits.
    pub fn insert_with_size(&mut self, key: FeedUrl, feed: Feed, size: usize, now: Millis)
        requires
            old(self).wf(),
        ensures
            final(self).wf(),
            final(self).config_spec() == old(self).config_spec(),
            final(self).pending() == old(self).pending(),
            admitted(
                old(self).slots(),
                final(self).slots(),
                key@,
                feed@,
                size,
                now,
                old(self).config_spec(),
            ),
    {
        let ghost s0 = self.slots@;
        let ghost k = key@;
        self.forget(&key);
        let max = self.config.max_cache_size;
        let ghost ttl = self.config.time_to_live;
        if size > max {
            return;
        }
        proof {
            assert forall|j: int| !evicted(s0, self.slots@, k, j) by {
                if 0 <= j < s0.len() && s0[j].key@ != k {
                    assert(self.slots@.contains(s0[j]));
                }
            }
        }
        while self.total > max - size && self.slots.len() > 0
            invariant
                self.wf(),
                self.config == old(self).config,
                self.in_flight@ == old(self).in_flight@,
                max == self.config.max_cache_size,
                size <= max,
                !has_key(self.slots@, k),
                forall|x: int| 0 <= x < self.slots@.len() ==> s0.contains(#[trigger] self.slots@[x]),
                forall|j: int, x: int|
                    evicted(s0, self.slots@, k, j) && 0 <= x < self.slots@.len()
                        ==> #[trigger] s0[j].entry.inserted_at
                        <= #[trigger] self.slots@[x].entry.inserted_at,
                (exists|j: int| evicted(s0, self.slots@, k, j)) ==> (exists|j: int|
                    evicted(s0, self.slots@, k, j) && total_size(self.slots@) + size
                        + s0[j].entry.approx_size > max),
            decreases self.slots@.len(),
        {
            let m = self.oldest();
            let ghost s = self.slots@;
            let ghost y = s[m as int];
            proof {
                lemma_remove(s, m as int);
                let r = s.remove(m as int);
                assert(s0.contains(y));
                let jy = choose|jy: int| 0 <= jy < s0.len() && s0[jy] == y;
                assert(!r.contains(y)) by {
                    if r.contains(y) {
                        let q = choose|q: int| 0 <= q < r.len() && r[q] == y;
                        if q < m {
                            assert(s[q] == y);
                        } else {
                            assert(s[q + 1] == y);
                        }
                    }
                }
                assert(y.key@ != k) by {
                    assert(has_key(s, y.key@));
                }
                assert(evicted(s0, r, k, jy));
                assert forall|j: int, x: int|
                    evicted(s0, r, k, j) && 0 <= x < r.len() implies #[trigger] s0[j].entry.inserted_at
                    <= #[trigger] r[x].entry.inserted_at by {
                    if x < m {
                        assert(r[x] == s[x]);
                    } else {
                        assert(r[x] == s[x + 1]);
                    }
                    if s.contains(s0[j]) {
                        assert(s0[j] == y);
                    } else {
                        assert(evicted(s0, s, k, j));
                    }
                }
                assert forall|x: int| 0 <= x < r.len() implies s0.contains(#[trigger] r[x]) by {
                    if x < m {
                        assert(r[x] == s[x]);
                    } else {
                        assert(r[x] == s[x + 1]);
                    }
                }
            }
            let removed = self.slots.remove(m);
            self.total = self.total - removed.entry.approx_size;
        }
        let ghost s = self.slots@;
        let slot = Slot { key, entry: CacheEntry { feed, inserted_at: now, approx_size: size } };
        self.slots.push(slot);
        self.total = self.total + size;
        proof {
            let a = self.slots@;
            lemma_push(s, slot);
            assert(a.drop_last() =~= s);
            assert forall|x: int| 0 <= x < a.len() - 1 implies #[trigger] a[x] == s[x] by {}
            assert forall|p: int, q: int| 0 <= p < a.len() && 0 <= q < a.len() && p != q implies a[p].key@
                != a[q].key@ by {
                if p == a.len() - 1 {
                    assert(s[q] == a[q]);
                } else if q == a.len() - 1 {
                    assert(s[p] == a[p]);
                }
            }
            assert forall|j: int| #[trigger] evicted(s0, a, k, j) implies evicted(s0, s, k, j) by {
                if s.contains(s0[j]) {
                    let q = choose|q: int| 0 <= q < s.len() && s[q] == s0[j];
                    assert(a[q] == s0[j]);
                }
            }
            assert forall|j: int| #[trigger] evicted(s0, s, k, j) implies evicted(s0, a, k, j) by {
                if a.contains(s0[j]) {
                    let q = choose|q: int| 0 <= q < a.len() && a[q] == s0[j];
                    if q < s.len() {
                        assert(s[q] == s0[j]);
                    }
                }
            }
            assert forall|j: int, i: int|
                evicted(s0, a, k, j) && is_fresh(s0[j].entry, now, ttl) && 0 <= i < a.len() - 1
                    implies is_fresh(#[trigger] a[i].entry, now, ttl) && #[trigger] s0[j].key@
                != k by {
                assert(a[i] == s[i]);
                assert(evicted(s0, s, k, j));
                assert(s0[j].entry.inserted_at <= s[i].entry.inserted_at);
            }
        }
    }

    /// Stores `feed` under `key`, accounted at its structural size.
    pub fn insert(&mut self, key: FeedUrl, feed: Feed, now: Millis)
        requires
            old(self).wf(),
        ensures
            final(self).wf(),
            final(self).config_spec() == old(self).config_spec(),
            final(self).pending() == old(self).pending(),
            admitted(
                old(self).slots(),
                final(self).slots(),
                key@,
                feed@,
                capped(feed_size(feed@)),
                now,
                old(self).config_spec(),
            ),
    {
        let size = feed.approx_size();
        self.insert_with_size(key, feed, size, now);
    }

    /// Where `key` stands among the URLs in flight, if it does.
    fn pending_position(&self, key: &FeedUrl) -> (r: Option<usize>)
        ensures
            match r {
                Some(i) => i < self.in_flight@.len() && self.in_flight@[i as int]@ == key@,
                None => !url_listed(self.in_flight@, key@),
            },
    {
        let mut i: usize = 0;
        while i < self.in_flight.len()
            invariant
                i <= self.in_flight@.len(),
                forall|j: int| 0 <= j < i ==> self.in_flight@[j]@ != key@,
            decreases self.in_flight@.len() - i,
        {
            if self.in_flight[i].same_as(key) {
                return Some(i);
            }
            i = i + 1;
        }
        None
    }

    /// Whether a fetch of `key` is in flight.
    pub fn is_pending(&self, key: &FeedUrl) -> (r: bool)
        ensures
            r == url_listed(self.pending(), key@),
    {
        self.pending_position(key).is_some()
    }

    /// Decides a request for `key` at `now`: a live entry answers it; else, if
    /// a fetch of `key` is in flight, the caller waits; else the caller is to
    /// fetch, and `key` is marked in flight.
    pub fn begin_fetch(&mut self, key: &FeedUrl, now: Millis) -> (r: Lookup)
        requires
            old(self).wf(),
        ensures
            final(self).wf(),
            final(self).config_spec() == old(self).config_spec(),
            final(self).slots() == old(self).slots(),
            has_fresh(old(self).slots(), key@, now, old(self).config_spec().time_to_live) ==> {
                &&& final(self).pending() == old(self).pending()
                &&& r matches Lookup::Hit(f) && exists|i: int|
                    fresh_at(old(self).slots(), key@, now, old(self).config_spec().time_to_live, i)
                        && f@ == old(self).slots()[i].entry.feed@
            },
            !has_fresh(old(self).slots(), key@, now, old(self).config_spec().time_to_live)
                && url_listed(old(self).pending(), key@) ==> {
                &&& final(self).pending() == old(self).pending()
                &&& r is Wait
            },
            decides_fetch(
                old(self).slots(),
                old(self).pending(),
                key@,
                now,
                old(self).config_spec().time_to_live,
            ) ==> {
                &&& final(self).pending().len() == old(self).pending().len() + 1
                &&& final(self).pending().drop_last() == old(self).pending()
                &&& final(self).pending().last()@ == key@
                &&& r is Fetch
            },
    {
        match self.lookup(key, now) {
            Some(f) => Lookup::Hit(f),
            None => {
                if self.is_pending(key) {
                    Lookup::Wait
                } else {
                    let ghost p = self.in_flight@;
                    self.in_flight.push(key.clone());
                    proof {
                        assert(self.in_flight@.drop_last() =~= p);
                        assert forall|i: int, j: int|
                            0 <= i < self.in_flight@.len() && 0 <= j < self.in_flight@.len() && i
                                != j implies self.in_flight@[i]@ != self.in_flight@[j]@ by {
                            if i == p.len() {
                                assert(self.in_flight@[j] == p[j]);
                            } else if j == p.len() {
                                assert(self.in_flight@[i] == p[i]);
                            }
                        }
                    }
                    Lookup::Fetch
                }
            },
        }
    }

    /// Clears the in-flight mark of `key`.
    fn settle(&mut self, key: &FeedUrl)
        requires
            old(self).wf(),
        ensures
            final(self).wf(),
            final(self).config_spec() == old(self).config_spec(),
            final(self).slots() == old(self).slots(),
            unlisted(old(self).pending(), final(self).pending(), key@),
    {
        let ghost p = self.in_flight@;
        match self.pending_position(key) {
            Some(i) => {
                self.in_flight.remove(i);
                proof {
                    let q = self.in_flight@;
                    assert forall|u: Seq<char>| url_listed(q, u) == (url_listed(p, u) && u != key@) by {
                        if url_listed(q, u) {
                            let j = choose|j: int| 0 <= j < q.len() && q[j]@ == u;
                            let pj = if j < i { j } else { j + 1 };
                            assert(p[pj]@ == u);
                            assert(pj != i);
                        }
                        if url_listed(p, u) && u != key@ {
                            let j = choose|j: int| 0 <= j < p.len() && p[j]@ == u;
                            assert(j != i);
                            if j < i {
                                assert(q[j]@ == u);
                            } else {
                                assert(q[j - 1]@ == u);
                            }
                        }
                    }
                    assert forall|a: int, b: int|
                        0 <= a < q.len() && 0 <= b < q.len() && a != b implies q[a]@ != q[b]@ by {
                        let pa = if a < i { a } else { a + 1 };
                        let pb = if b < i { b } else { b + 1 };
                        assert(q[a] == p[pa]);
                        assert(q[b] == p[pb]);
                    }
                }
            },
            None => {},
        }
    }

    /// Records the outcome of the fetch of `key` that `begin_fetch` asked for
    /// and hands it back: the in-flight mark is cleared; a fetched feed is
    /// stored as by `insert`; after a failure no row of `key` is left.
    pub fn complete_fetch(
        &mut self,
        key: &FeedUrl,
        fetched: Result<Feed, FetchFeedError>,
        now: Millis,
    ) -> (r: Result<Feed, FetchFeedError>)
        requires
            old(self).wf(),
        ensures
            final(self).wf(),
            final(self).config_spec() == old(self).config_spec(),
            r == fetched,
            unlisted(old(self).pending(), final(self).pending(), key@),
            match fetched {
                Ok(f) => admitted(
                    old(self).slots(),
                    final(self).slots(),
                    key@,
                    f@,
                    capped(feed_size(f@)),
                    now,
                    old(self).config_spec(),
                ),
                Err(_) => {
                    &&& !has_key(final(self).slots(), key@)
                    &&& forall|j: int|
                        0 <= j < old(self).slots().len() && old(self).slots()[j].key@ != key@
                            ==> final(self).slots().contains(#[trigger] old(self).slots()[j])
                    &&& forall|i: int|
                        0 <= i < final(self).slots().len() ==> old(self).slots().contains(
                            #[trigger] final(self).slots()[i],
                        )
                },
            },
    {
        self.settle(key);
        match &fetched {
            Ok(f) => {
                self.insert(key.clone(), f.clone(), now);
            },
            Err(_) => {
                self.forget(key);
            },
        }
        fetched
    }

    /// Drops the row of `key`, if any; the rest is untouched.
    fn forget(&mut self, key: &FeedUrl)
        requires
            old(self).wf(),
        ensures
            final(self).wf(),
            final(self).config_spec() == old(self).config_spec(),
            final(self).pending() == old(self).pending(),
            !has_key(final(self).slots(), key@),
            forall|j: int|
                0 <= j < old(self).slots().len() && old(self).slots()[j].key@ != key@
                    ==> final(self).slots().contains(#[trigger] old(self).slots()[j]),
            forall|i: int|
                0 <= i < final(self).slots().len() ==> old(self).slots().contains(
                    #[trigger] final(self).slots()[i],
                ),
    {
        match self.position(key) {
            Some(i) => {
                proof {
                    lemma_remove(self.slots@, i as int);
                    assert forall|j: int|
                        0 <= j < self.slots@.len() && self.slots@[j].key@ != key@ implies self.slots@.remove(
                        i as int,
                    ).contains(#[trigger] self.slots@[j]) by {
                        assert(self.slots@[j] != self.slots@[i as int]);
                        assert(self.slots@.contains(self.slots@[j]));
                    }
                    assert(!has_key(self.slots@.remove(i as int), key@)) by {
                        if has_key(self.slots@.remove(i as int), key@) {
                            let j = choose|j: int|
                                0 <= j < self.slots@.len() - 1 && self.slots@.remove(
                                    i as int,
                                )[j].key@ == key@;
                            let sj = if j < i { j } else { j + 1 };
                            assert(self.slots@[sj].key@ == key@);
                        }
                    }
                }
                let removed = self.slots.remove(i);
                self.total = self.total - removed.entry.approx_size;
                proof {
                    assert forall|x: int|
                        0 <= x < self.slots@.len() implies old(self).slots@.contains(
                        #[trigger] self.slots@[x],
                    ) by {
                        assert(self.slots@.contains(self.slots@[x]));
                    }
                }
            },
            None => {
                proof {
                    assert forall|j: int|
                        0 <= j < self.slots@.len() && self.slots@[j].key@ != key@ implies self.slots@.contains(
                        #[trigger] self.slots@[j],
                    ) by {}
                    assert forall|x: int| 0 <= x < self.slots@.len() implies self.slots@.contains(
                        #[trigger] self.slots@[x],
                    ) by {}
                }
            },
        }
    }
}

/// Whether `e` is still live at `now`.
pub fn entry_is_fresh(e: &CacheEntry, now: Millis, ttl: Millis) -> (r: bool)
    ensures
        r == is_fresh(*e, now, ttl),
{
    if now >= e.inserted_at {
        now - e.inserted_at < ttl
    } else {
        true
    }
}

/// Cache hit: a feed stored under `k` at `t0` is what a request for `k`
/// receives, with no fetch, at any `t1` before the time to live has passed.
pub proof fn lemma_hit_within_ttl(
    before: Seq<Slot>,
    after: Seq<Slot>,
    k: Seq<char>,
    feed: FeedView,
    size: usize,
    t0: Millis,
    config: CacheConfig,
    t1: Millis,
)
    requires
        admitted(before, after, k, feed, size, t0, config),
        size <= config.max_cache_size,
        (t1 as int) - (t0 as int) < config.time_to_live as int,
    ensures
        has_fresh(after, k, t1, config.time_to_live),
        forall|i: int|
            fresh_at(after, k, t1, config.time_to_live, i) ==> after[i].entry.feed@ == feed,
{
    let last = after.len() - 1;
    assert(fresh_at(after, k, t1, config.time_to_live, last));
    assert forall|i: int| fresh_at(after, k, t1, config.time_to_live, i) implies after[i].entry.feed@
        == feed by {
        if i != last {
            assert(after[i].key@ != k);
        }
    }
}

/// Cache expiry: once the time to live has passed since the row of `k` was
/// stored, a request for `k` that finds no fetch in flight goes to the
/// network, and the refetched feed is stored with the time of the refetch.
pub proof fn lemma_expired_refetches(
    slots: Seq<Slot>,
    pending: Seq<FeedUrl>,
    k: Seq<char>,
    now: Millis,
    config: CacheConfig,
    after: Seq<Slot>,
    feed: FeedView,
    size: usize,
)
    requires
        keys_unique(slots),
        forall|i: int|
            0 <= i < slots.len() && #[trigger] slots[i].key@ == k ==> (now as int) - (
            slots[i].entry.inserted_at as int) >= config.time_to_live as int,
        !url_listed(pending, k),
        admitted(slots, after, k, feed, size, now, config),
        size <= config.max_cache_size,
    ensures
        decides_fetch(slots, pending, k, now, config.time_to_live),
        exists|i: int|
            0 <= i < after.len() && after[i].key@ == k && after[i].entry.inserted_at == now,
{
    assert(after[after.len() - 1].key@ == k);
}

/// Single flight: once a request for `k` was told to fetch (and `k` was
/// marked in flight), no request for `k` at any time is told to fetch until
/// the outcome is recorded.
pub proof fn lemma_single_flight(
    slots: Seq<Slot>,
    before: Seq<FeedUrl>,
    after: Seq<FeedUrl>,
    k: Seq<char>,
    ttl: Millis,
    later: Millis,
)
    requires
        after.len() == before.len() + 1,
        after.drop_last() == before,
        after.last()@ == k,
    ensures
        !decides_fetch(slots, after, k, later, ttl),
{
    assert(after[after.len() - 1]@ == k);
}

/// No negative caching: after a failed fetch of `k` is recorded, the next
/// request for `k` goes to the network again.
pub proof fn lemma_failure_not_cached(
    slots: Seq<Slot>,
    before: Seq<FeedUrl>,
    after: Seq<FeedUrl>,
    k: Seq<char>,
    now: Millis,
    ttl: Millis,
)
    requires
        !has_key(slots, k),
        unlisted(before, after, k),
    ensures
        decides_fetch(slots, after, k, now, ttl),
{
    assert(!url_listed(after, k));
}

proof fn lemma_remove(s: Seq<Slot>, i: int)
    requires
        0 <= i < s.len(),
    ensures
        s.remove(i).len() == s.len() - 1,
        forall|j: int| 0 <= j < i ==> s.remove(i)[j] == s[j],
        forall|j: int| i <= j < s.len() - 1 ==> s.remove(i)[j] == s[j + 1],
        total_size(s.remove(i)) == total_size(s) - s[i].entry.approx_size,
        keys_unique(s) ==> keys_unique(s.remove(i)),
        forall|x: Slot| s.remove(i).contains(x) ==> s.contains(x),
        forall|x: Slot| s.contains(x) && x != s[i] ==> s.remove(i).contains(x),
        forall|k: Seq<char>| !has_key(s, k) ==> !has_key(s.remove(i), k),
    decreases s.len(),
{
    let r = s.remove(i);
    assert forall|x: Slot| r.contains(x) implies s.contains(x) by {
        let j = choose|j: int| 0 <= j < r.len() && r[j] == x;
        if j < i {
            assert(s[j] == x);
        } else {
            assert(s[j + 1] == x);
        }
    }
    assert forall|x: Slot| s.contains(x) && x != s[i] implies r.contains(x) by {
        let j = choose|j: int| 0 <= j < s.len() && s[j] == x;
        if j < i {
            assert(r[j] == x);
        } else {
            assert(r[j - 1] == x);
        }
    }
    assert forall|k: Seq<char>| !has_key(s, k) implies !has_key(r, k) by {
        if has_key(r, k) {
            let j = choose|j: int| 0 <= j < r.len() && r[j].key@ == k;
            if j < i {
                assert(s[j].key@ == k);
            } else {
                assert(s[j + 1].key@ == k);
            }
        }
    }
    if keys_unique(s) {
        assert forall|a: int, b: int| 0 <= a < r.len() && 0 <= b < r.len() && a != b implies r[a].key@
            != r[b].key@ by {
            let sa = if a < i { a } else { a + 1 };
            let sb = if b < i { b } else { b + 1 };
            assert(r[a] == s[sa]);
            assert(r[b] == s[sb]);
        }
    }
    if i == s.len() - 1 {
        assert(r =~= s.drop_last());
    } else {
        lemma_remove(s.drop_last(), i);
        assert(r.drop_last() =~= s.drop_last().remove(i));
        assert(r.last() == s.last());
    }
}

proof fn lemma_push(s: Seq<Slot>, x: Slot)
    ensures
        total_size(s.push(x)) == total_size(s) + x.entry.approx_size,
{
    assert(s.push(x).drop_last() =~= s);
}

} // verus!
