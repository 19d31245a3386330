//! Company logos from logo.dev: a cache with expiry, a circuit breaker
//! that protects the service, and the decisions around each fetch.
//!
//! Times are readings of a monotonic clock in milliseconds, handed in by
//! the caller.

use vstd::prelude::*;
use vstd::string::*;
use crate::circuit::CircuitBreaker;
use crate::decimal::{parse_u32, parse_u64, spec_parse_u32, spec_parse_u64};
use crate::json::opt_view;
use crate::text::{spec_to_lowercase, spec_to_uppercase, str_eq, to_lowercase, to_uppercase};

verus! {

/// A cached logo address and the time it stops being good.
#[derive(Debug, Clone)]
pub struct CacheEntry {
    pub value: String,
    pub expires_at_ms: u64,
}

/// Logo addresses by key, each with its expiry.
#[derive(Debug)]
pub struct LogoCache {
    entries: Vec<(String, CacheEntry)>,
}

impl LogoCache {
    /// No key occurs twice.
    pub closed spec fn wf(self) -> bool {
        forall|i: int, j: int|
            0 <= i < j < self.entries@.len() ==> (#[trigger] self.entries@[i]).0@
                != (#[trigger] self.entries@[j]).0@
    }

    /// The cache as a map from key to address and expiry.
    pub closed spec fn view_map(self) -> Map<Seq<char>, (Seq<char>, u64)> {
        entries_map(self.entries@)
    }

    /// An empty cache.
    pub fn new() -> (c: LogoCache)
        ensures
            c.wf(),
            c.view_map() == Map::<Seq<char>, (Seq<char>, u64)>::empty(),
    {
        let c = LogoCache { entries: Vec::new() };
        assert(entries_map(c.entries@) =~= Map::<Seq<char>, (Seq<char>, u64)>::empty());
        c
    }

    fn find(&self, key: &str) -> (r: Option<usize>)
        requires
            self.wf(),
        ensures
            match r {
                Some(i) => i < self.entries@.len() && self.entries@[i as int].0@ == key@,
                None => forall|i: int| 0 <= i < self.entries@.len() ==> (#[trigger] self.entries@[i]).0@ != key@,
            },
    {
        let n = self.entries.len();
        let mut i: usize = 0;
        while i < n
            invariant
                n == self.entries@.len(),
                i <= n,
                forall|j: int| 0 <= j < i ==> (#[trigger] self.entries@[j]).0@ != key@,
            decreases n - i,
        {
            if str_eq(self.entries[i].0.as_str(), key) {
                return Some(i);
            }
            i = i + 1;
        }
        None
    }

    /// The address cached under `key` if it has not expired at `now`; an
    /// expired or absent entry is dropped.
    pub fn get(&mut self, key: &str, now: u64) -> (r: Option<String>)
        requires
            old(self).wf(),
        ensures
            final(self).wf(),
            match old(self).view_map().get(key@) {
                Some(e) => if e.1 > now {
                    r matches Some(v) && v@ == e.0 && final(self).view_map() == old(self).view_map()
                } else {
                    r is None && final(self).view_map() == old(self).view_map().remove(key@)
                },
                None => r is None && final(self).view_map() == old(self).view_map(),
            },
    {
        proof {
            lemma_entries_map_dom(self.entries@, key@);
        }
        match self.find(key) {
            Some(i) => {
                proof {
                    lemma_entries_map_lookup(self.entries@, i as int);
                }
                if self.entries[i].1.expires_at_ms > now {
                    Some(self.entries[i].1.value.clone())
                } else {
                    let ghost before = self.entries@;
                    self.entries.remove(i);
                    proof {
                        lemma_entries_map_remove(before, i as int);
                        assert forall|a: int, b: int| 0 <= a < b < self.entries@.len() implies (
                        #[trigger] self.entries@[a]).0@ != (#[trigger] self.entries@[b]).0@ by {
                            let a0 = if a < i {
                                a
                            } else {
                                a + 1
                            };
                            let b0 = if b < i {
                                b
                            } else {
                                b + 1
                            };
                            assert(self.entries@[a] == before[a0]);
                            assert(self.entries@[b] == before[b0]);
                        }
                    }
                    None
                }
            },
            None => {
                proof {
                    assert(!self.view_map().contains_key(key@));
                    assert(self.view_map().remove(key@) =~= self.view_map());
                }
                None
            },
        }
    }

    /// Caches `value` under `key` until `expires_at_ms`, replacing what was
    /// cached under it.
    pub fn insert(&mut self, key: &str, value: String, expires_at_ms: u64)
        requires
            old(self).wf(),
        ensures
            final(self).wf(),
            final(self).view_map() == old(self).view_map().insert(key@, (value@, expires_at_ms)),
    {
        let entry = CacheEntry { value, expires_at_ms };
        match self.find(key) {
            Some(i) => {
                let ghost before = self.entries@;
                let x = (key.to_owned(), entry);
                proof {
                    lemma_entries_map_update(before, i as int, x);
                }
                self.entries.set(i, x);
                proof {
                    assert forall|a: int, b: int| 0 <= a < b < self.entries@.len() implies (
                    #[trigger] self.entries@[a]).0@ != (#[trigger] self.entries@[b]).0@ by {
                        if a != i {
                            assert(self.entries@[a] == before[a]);
                        }
                        if b != i {
                            assert(self.entries@[b] == before[b]);
                        }
                    }
                }
            },
            None => {
                let ghost before = self.entries@;
                self.entries.push((key.to_owned(), entry));
                proof {
                    assert(self.entries@.drop_last() =~= before);
                    assert forall|a: int, b: int| 0 <= a < b < self.entries@.len() implies (
                    #[trigger] self.entries@[a]).0@ != (#[trigger] self.entries@[b]).0@ by {
                        assert(self.entries@[a] == before[a]);
                        if b < before.len() {
                            assert(self.entries@[b] == before[b]);
                        }
                    }
                }
            },
        }
    }
}

/// The cache entries as a map.
pub open spec fn entries_map(e: Seq<(String, CacheEntry)>) -> Map<Seq<char>, (Seq<char>, u64)>
    decreases e.len(),
{
    if e.len() == 0 {
        Map::empty()
    } else {
        entries_map(e.drop_last()).insert(e.last().0@, (e.last().1.value@, e.last().1.expires_at_ms))
    }
}

proof fn lemma_entries_map_dom(e: Seq<(String, CacheEntry)>, k: Seq<char>)
    ensures
        entries_map(e).contains_key(k) <==> exists|i: int| 0 <= i < e.len() && (#[trigger] e[i]).0@ == k,
    decreases e.len(),
{
    if e.len() > 0 {
        lemma_entries_map_dom(e.drop_last(), k);
        if entries_map(e).contains_key(k) && e.last().0@ != k {
            let i = choose|i: int| 0 <= i < e.len() - 1 && (#[trigger] e.drop_last()[i]).0@ == k;
            assert(e[i] == e.drop_last()[i]);
        }
        if exists|i: int| 0 <= i < e.len() && (#[trigger] e[i]).0@ == k {
            let i = choose|i: int| 0 <= i < e.len() && (#[trigger] e[i]).0@ == k;
            if i < e.len() - 1 {
                assert(e.drop_last()[i] == e[i]);
            }
        }
    }
}

proof fn lemma_entries_map_lookup(e: Seq<(String, CacheEntry)>, i: int)
    requires
        forall|a: int, b: int| 0 <= a < b < e.len() ==> (#[trigger] e[a]).0@ != (#[trigger] e[b]).0@,
        0 <= i < e.len(),
    ensures
        entries_map(e).contains_key(e[i].0@),
        entries_map(e)[e[i].0@] == (e[i].1.value@, e[i].1.expires_at_ms),
    decreases e.len(),
{
    if i < e.len() - 1 {
        let d = e.drop_last();
        assert(d[i] == e[i]);
        lemma_entries_map_lookup(d, i);
    }
}

proof fn lemma_entries_map_update(e: Seq<(String, CacheEntry)>, j: int, x: (String, CacheEntry))
    requires
        forall|a: int, b: int| 0 <= a < b < e.len() ==> (#[trigger] e[a]).0@ != (#[trigger] e[b]).0@,
        0 <= j < e.len(),
        x.0@ == e[j].0@,
    ensures
        entries_map(e.update(j, x)) == entries_map(e).insert(x.0@, (x.1.value@, x.1.expires_at_ms)),
    decreases e.len(),
{
    let u = e.update(j, x);
    if j == e.len() - 1 {
        assert(u.drop_last() =~= e.drop_last());
        assert(entries_map(u) =~= entries_map(e).insert(x.0@, (x.1.value@, x.1.expires_at_ms)));
    } else {
        let d = e.drop_last();
        assert(u.drop_last() =~= d.update(j, x));
        lemma_entries_map_update(d, j, x);
        assert(e.last().0@ != x.0@);
        assert(entries_map(u) =~= entries_map(e).insert(x.0@, (x.1.value@, x.1.expires_at_ms)));
    }
}

proof fn lemma_entries_map_remove(e: Seq<(String, CacheEntry)>, j: int)
    requires
        forall|a: int, b: int| 0 <= a < b < e.len() ==> (#[trigger] e[a]).0@ != (#[trigger] e[b]).0@,
        0 <= j < e.len(),
    ensures
        entries_map(e.remove(j)) == entries_map(e).remove(e[j].0@),
    decreases e.len(),
{
    let r = e.remove(j);
    if j == e.len() - 1 {
        assert(r =~= e.drop_last());
        lemma_entries_map_dom(e.drop_last(), e[j].0@);
        assert forall|a: int| 0 <= a < e.drop_last().len() implies (#[trigger] e.drop_last()[a]).0@ != e[j].0@ by {
            assert(e.drop_last()[a] == e[a]);
        }
        assert(entries_map(r) =~= entries_map(e).remove(e[j].0@));
    } else {
        let d = e.drop_last();
        assert(r.drop_last() =~= d.remove(j));
        assert(r.last() == e.last());
        assert(d[j] == e[j]);
        lemma_entries_map_remove(d, j);
        assert(e.last().0@ != e[j].0@);
        assert(entries_map(r) =~= entries_map(e).remove(e[j].0@));
    }
}

/// The logo.dev publishable key of the logo service.
pub const LOGO_TOKEN: &'static str = "pk_NNp9abu9TMm9II6Z0666YA";

/// The cache key of a symbol's logo.
pub open spec fn spec_cache_key(symbol: Seq<char>) -> Seq<char> {
    "logo:"@ + spec_to_uppercase(symbol)
}

/// The logo.dev address of a symbol's logo.
pub open spec fn spec_logo_url(symbol: Seq<char>) -> Seq<char> {
    "https://img.logo.dev/ticker/"@ + spec_to_uppercase(symbol) + "?token="@ + LOGO_TOKEN@
        + "&format=png&fallback=404&size=50&theme=dark"@
}

/// What to do next for a logo request.
#[derive(Debug)]
pub enum LogoStep {
    /// The request is answered without a fetch.
    Done(Option<String>),
    /// Fetch `url`; its outcome goes back with `cache_key`.
    Fetch { url: String, cache_key: String },
}

/// How the logo fetcher is set up.
#[derive(Debug, Clone, Copy)]
pub struct LogoConfig {
    pub enabled: bool,
    pub breaker_threshold: u32,
    pub breaker_timeout_secs: u64,
}

/// Fetching is on unless the setting says `true` in any case.
pub open spec fn spec_enabled(disable: Option<Seq<char>>) -> bool {
    match disable {
        Some(v) => spec_to_lowercase(v) != "true"@,
        None => true,
    }
}

/// The breaker threshold a setting gives: five by default, at least one.
pub open spec fn spec_threshold(setting: Option<Seq<char>>) -> u32 {
    let t: u32 = match setting {
        Some(v) => match spec_parse_u32(v) {
            Some(n) => n,
            None => 5,
        },
        None => 5,
    };
    if t < 1 {
        1
    } else {
        t
    }
}

/// The breaker cool-down in seconds a setting gives: 300 by default.
pub open spec fn spec_breaker_timeout(setting: Option<Seq<char>>) -> u64 {
    match setting {
        Some(v) => match spec_parse_u64(v) {
            Some(n) => n,
            None => 300,
        },
        None => 300,
    }
}

impl LogoConfig {
    /// The setup the environment asks for: `DISABLE_LOGO_FETCHING`,
    /// `LOGO_CIRCUIT_BREAKER_THRESHOLD` and `LOGO_CIRCUIT_BREAKER_TIMEOUT`,
    /// each absent when the variable is not set.
    pub fn from_settings(
        disable: Option<&str>,
        threshold: Option<&str>,
        breaker_timeout: Option<&str>,
    ) -> (c: LogoConfig)
        ensures
            c.enabled == spec_enabled(match disable {
                Some(d) => Some(d@),
                None => None,
            }),
            c.breaker_threshold == spec_threshold(match threshold {
                Some(t) => Some(t@),
                None => None,
            }),
            c.breaker_timeout_secs == spec_breaker_timeout(match breaker_timeout {
                Some(t) => Some(t@),
                None => None,
            }),
    {
        let enabled = match disable {
            Some(v) => {
                let lower = to_lowercase(v);
                !str_eq(lower.as_str(), "true")
            },
            None => true,
        };
        let t: u32 = match threshold {
            Some(v) => match parse_u32(v) {
                Some(n) => n,
                None => 5,
            },
            None => 5,
        };
        let breaker_threshold = if t < 1 {
            1
        } else {
            t
        };
        let breaker_timeout_secs = match breaker_timeout {
            Some(v) => match parse_u64(v) {
                Some(n) => n,
                None => 300,
            },
            None => 300,
        };
        LogoConfig { enabled, breaker_threshold, breaker_timeout_secs }
    }
}

/// The state of the logo fetcher: whether it is on, its breaker, its cache
/// and how long a fetched address is kept.
#[derive(Debug)]
pub struct LogoCore {
    pub enabled: bool,
    pub breaker: CircuitBreaker,
    pub cache: LogoCache,
    pub cache_ttl_ms: u64,
}

impl LogoCore {
    /// A fetcher set up by `config`, with an empty cache that keeps
    /// addresses for a day; the breaker's cooldown is counted in
    /// milliseconds, capped at `u64::MAX`.
    pub fn new(config: LogoConfig) -> (c: LogoCore)
        ensures
            c.enabled == config.enabled,
            c.breaker.failure_threshold == config.breaker_threshold,
            c.breaker.timeout_ms == if config.breaker_timeout_secs * 1000 <= u64::MAX {
                (config.breaker_timeout_secs * 1000) as u64
            } else {
                u64::MAX
            },
            c.breaker.failure_count == 0,
            c.breaker.last_failure_time is None,
            c.breaker.state is Closed,
            c.cache.wf(),
            c.cache.view_map() == Map::<Seq<char>, (Seq<char>, u64)>::empty(),
            c.cache_ttl_ms == 86_400_000,
    {
        // A cooldown longer than a `u64` of milliseconds holds never ends.
        let timeout_ms: u64 = if config.breaker_timeout_secs <= u64::MAX / 1000 {
            config.breaker_timeout_secs * 1000
        } else {
            u64::MAX
        };
        LogoCore {
            enabled: config.enabled,
            breaker: CircuitBreaker::new(config.breaker_threshold, timeout_ms),
            cache: LogoCache::new(),
            cache_ttl_ms: 86_400_000,
        }
    }

    /// The first part of a logo request for `symbol` at time `now`: nothing
    /// when fetching is off, the symbol is empty or the breaker refuses;
    /// the cached address when one is good; otherwise the address to fetch.
    pub fn begin(&mut self, symbol: &str, now: u64) -> (step: LogoStep)
        requires
            old(self).cache.wf(),
        ensures
            final(self).cache.wf(),
            final(self).enabled == old(self).enabled,
            final(self).cache_ttl_ms == old(self).cache_ttl_ms,
            !old(self).enabled ==> (step matches LogoStep::Done(None) && *final(self) == *old(self)),
            old(self).enabled && symbol@.len() == 0 ==> (step matches LogoStep::Done(None)
                && *final(self) == *old(self)),
            old(self).enabled && symbol@.len() > 0 ==> {
                let (b, allowed) = old(self).breaker.spec_allow(now);
                &&& final(self).breaker == b
                &&& !allowed ==> (step matches LogoStep::Done(None) && final(self).cache
                    == old(self).cache)
                &&& allowed ==> {
                    let key = spec_cache_key(symbol@);
                    match old(self).cache.view_map().get(key) {
                        Some(e) => if e.1 > now {
                            step matches LogoStep::Done(Some(v)) && v@ == e.0
                                && final(self).cache.view_map() == old(self).cache.view_map()
                        } else {
                            step matches LogoStep::Fetch { url, cache_key } && url@ == spec_logo_url(
                                symbol@,
                            ) && cache_key@ == key && final(self).cache.view_map() == old(
                                self,
                            ).cache.view_map().remove(key)
                        },
                        None => step matches LogoStep::Fetch { url, cache_key } && url@
                            == spec_logo_url(symbol@) && cache_key@ == key
                            && final(self).cache.view_map() == old(self).cache.view_map(),
                    }
                }
            },
    {
        if !self.enabled {
            return LogoStep::Done(None);
        }
        if symbol.unicode_len() == 0 {
            return LogoStep::Done(None);
        }
        if !self.breaker.allow(now) {
            return LogoStep::Done(None);
        }
        let upper = to_uppercase(symbol);
        let mut key = "logo:".to_owned();
        key.append(upper.as_str());
        match self.cache.get(key.as_str(), now) {
            Some(v) => LogoStep::Done(Some(v)),
            None => {
                let mut url = "https://img.logo.dev/ticker/".to_owned();
                url.append(upper.as_str());
                url.append("?token=");
                url.append(LOGO_TOKEN);
                url.append("&format=png&fallback=404&size=50&theme=dark");
                LogoStep::Fetch { url, cache_key: key }
            },
        }
    }

    /// The second part of a logo request: the address the fetch ended at
    /// (nothing when it failed or timed out) is cached until a day after
    /// `now` and counts as a success; a failure counts against the breaker.
    pub fn finish(&mut self, cache_key: &str, fetched: Option<String>, now: u64) -> (r: Option<
        String,
    >)
        requires
            old(self).cache.wf(),
            now + old(self).cache_ttl_ms <= u64::MAX,
        ensures
            final(self).cache.wf(),
            final(self).enabled == old(self).enabled,
            final(self).cache_ttl_ms == old(self).cache_ttl_ms,
            opt_view(r) == opt_view(fetched),
            match fetched {
                Some(url) => {
                    &&& final(self).cache.view_map() == old(self).cache.view_map().insert(
                        cache_key@,
                        (url@, (now + old(self).cache_ttl_ms) as u64),
                    )
                    &&& final(self).breaker == old(self).breaker.spec_record_success()
                },
                None => {
                    &&& final(self).cache.view_map() == old(self).cache.view_map()
                    &&& final(self).breaker == old(self).breaker.spec_record_failure(now)
                },
            },
    {
        match fetched {
            Some(url) => {
                let copy = url.clone();
                self.cache.insert(cache_key, copy, now + self.cache_ttl_ms);
                self.breaker.record_success();
                Some(url)
            },
            None => {
                self.breaker.record_failure(now);
                None
            },
        }
    }
}

/// What `LogoCache::insert` stores under a key, `LogoCache::get` finds
/// under that key while `now` is before the expiry, and not from the
/// expiry on.
pub proof fn law_cached_logo_found_until_expiry(
    m: Map<Seq<char>, (Seq<char>, u64)>,
    key: Seq<char>,
    url: Seq<char>,
    expires: u64,
    now: u64,
)
    ensures
        m.insert(key, (url, expires)).get(key) == Some((url, expires)),
        now < expires ==> m.insert(key, (url, expires))[key].1 > now,
        now >= expires ==> !(m.insert(key, (url, expires))[key].1 > now),
{
}

/// After a logo is fetched at `now`, a later request before the cache
/// expiry passes the breaker (a success closes it) and finds the fetched
/// address in the cache.
pub proof fn law_fetched_logo_served_from_cache(
    b: CircuitBreaker,
    m: Map<Seq<char>, (Seq<char>, u64)>,
    key: Seq<char>,
    url: Seq<char>,
    now: u64,
    ttl: u64,
    later: u64,
)
    requires
        now + ttl <= u64::MAX,
        later < now + ttl,
    ensures
        b.spec_record_success().spec_allow(later).1,
        m.insert(key, (url, (now + ttl) as u64))[key].0 == url,
        m.insert(key, (url, (now + ttl) as u64))[key].1 > later,
{
}

} // verus!
