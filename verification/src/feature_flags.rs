//! The per-key read cache in front of the feature-flag table. A read
//! that finds a live entry answers from memory; a miss goes to the
//! database and remembers the answer for a fixed time; any write to the
//! flags clears every entry.
//!
//! Time is whatever monotonic millisecond clock the caller reads.
use vstd::prelude::*;
use dashmap::DashMap;
use crate::text::to_owned_string;

verus! {

broadcast use vstd::string::group_string_axioms;

/// How long a cached answer is served, in seconds.
pub const FLAG_CACHE_TTL_SECS: u64 = 60;

/// The same span in milliseconds.
pub const FLAG_CACHE_TTL_MS: u64 = 60000;

#[verifier::external_type_specification]
#[verifier::external_body]
#[verifier::reject_recursive_types(K)]
#[verifier::reject_recursive_types(V)]
#[verifier::reject_recursive_types(S)]
pub struct ExDashMap<K, V, S>(DashMap<K, V, S>);

/// What a flag cache map holds: for each key, whether the flag was
/// enabled and the millisecond at which the entry expires.
pub uninterp spec fn cache_entries(m: DashMap<String, (bool, u64)>) -> Map<Seq<char>, (bool, u64)>;

/// `DashMap::new`: an empty map.
#[verifier::external_body]
fn entries_new() -> (m: DashMap<String, (bool, u64)>)
    ensures
        cache_entries(m).dom() == Set::<Seq<char>>::empty(),
{
    DashMap::new()
}

/// `DashMap::get`, copying the value out: the entry of `key`, if any.
#[verifier::external_body]
fn entries_get(m: &DashMap<String, (bool, u64)>, key: &str) -> (r: Option<(bool, u64)>)
    ensures
        match r {
            Some(v) => cache_entries(*m).dom().contains(key@) && cache_entries(*m)[key@] == v,
            None => !cache_entries(*m).dom().contains(key@),
        },
{
    m.get(key).map(|e| *e.value())
}

/// `DashMap::insert`: `key` now maps to `v`, every other entry stays.
#[verifier::external_body]
fn entries_insert(m: &mut DashMap<String, (bool, u64)>, key: String, v: (bool, u64))
    ensures
        cache_entries(*final(m)) == cache_entries(*old(m)).insert(key@, v),
{
    m.insert(key, v);
}

/// `DashMap::clear`: no entry is left.
#[verifier::external_body]
fn entries_clear(m: &mut DashMap<String, (bool, u64)>)
    ensures
        cache_entries(*final(m)).dom() == Set::<Seq<char>>::empty(),
{
    m.clear();
}

/// The process-local cache of flag reads.
pub struct FlagCache {
    entries: DashMap<String, (bool, u64)>,
}

/// The answer a cache holding `entries` gives for `key` at `now`: the
/// stored flag while its entry has not expired.
pub open spec fn cached_answer(entries: Map<Seq<char>, (bool, u64)>, key: Seq<char>, now: u64) -> Option<
    bool,
> {
    if entries.dom().contains(key) && entries[key].1 > now {
        Some(entries[key].0)
    } else {
        None
    }
}

impl FlagCache {
    /// The cached entries, by key: `(enabled, expires_at_ms)`.
    pub closed spec fn entries(&self) -> Map<Seq<char>, (bool, u64)> {
        cache_entries(self.entries)
    }

    /// An empty cache.
    pub fn new() -> (c: Self)
        ensures
            c.entries() == Map::<Seq<char>, (bool, u64)>::empty(),
    {
        FlagCache { entries: entries_new() }
    }

    /// The cached answer for `key` at `now_ms`, if a live entry holds one.
    pub fn cached(&self, key: &str, now_ms: u64) -> (r: Option<bool>)
        ensures
            r == cached_answer(self.entries(), key@, now_ms),
    {
        match entries_get(&self.entries, key) {
            Some((enabled, expires)) => if expires > now_ms {
                Some(enabled)
            } else {
                None
            },
            None => None,
        }
    }

    /// Remembers the database's answer for `key`, read at `now_ms`, for
    /// the cache's time to live.
    pub fn remember(&mut self, key: &str, enabled: bool, now_ms: u64)
        requires
            now_ms + FLAG_CACHE_TTL_MS <= u64::MAX,
        ensures
            final(self).entries() == old(self).entries().insert(
                key@,
                (enabled, (now_ms + FLAG_CACHE_TTL_MS) as u64),
            ),
    {
        entries_insert(&mut self.entries, to_owned_string(key), (enabled, now_ms + FLAG_CACHE_TTL_MS));
    }

    /// Settles a read the cache could not answer: the database's answer
    /// (`None` when the row is missing or the read failed, which counts
    /// as off) is returned and remembered for the time to live, unless
    /// `now_ms` is so late that its expiry would not fit.
    pub fn settle_read(&mut self, key: &str, read: Option<bool>, now_ms: u64) -> (enabled: bool)
        ensures
            enabled == match read {
                Some(b) => b,
                None => false,
            },
            final(self).entries() == if now_ms + FLAG_CACHE_TTL_MS <= u64::MAX {
                old(self).entries().insert(key@, (enabled, (now_ms + FLAG_CACHE_TTL_MS) as u64))
            } else {
                old(self).entries()
            },
    {
        let enabled = match read {
            Some(b) => b,
            None => false,
        };
        if now_ms <= u64::MAX - FLAG_CACHE_TTL_MS {
            self.remember(key, enabled, now_ms);
        }
        enabled
    }

    /// Drops every cached entry.
    pub fn invalidate(&mut self)
        ensures
            final(self).entries() == Map::<Seq<char>, (bool, u64)>::empty(),
    {
        entries_clear(&mut self.entries);
    }
}

/// Drops every cached entry, so a fresh write is observable on the
/// next read without waiting for the time to live.
pub fn invalidate_cache(cache: &mut FlagCache)
    ensures
        final(cache).entries() == Map::<Seq<char>, (bool, u64)>::empty(),
        forall|key: Seq<char>, now: u64| cached_answer(final(cache).entries(), key, now) is None,
{
    cache.invalidate();
}

/// A remembered answer is served for exactly the time to live after
/// the read, and only for its own key: other keys' answers are
/// unchanged.
pub proof fn lemma_remember_then_cached(
    entries: Map<Seq<char>, (bool, u64)>,
    key: Seq<char>,
    enabled: bool,
    read_at: u64,
    other: Seq<char>,
    now: u64,
)
    requires
        read_at + FLAG_CACHE_TTL_MS <= u64::MAX,
    ensures
        ({
            let after = entries.insert(key, (enabled, (read_at + FLAG_CACHE_TTL_MS) as u64));
            &&& now < read_at + FLAG_CACHE_TTL_MS ==> cached_answer(after, key, now) == Some(enabled)
            &&& now >= read_at + FLAG_CACHE_TTL_MS ==> cached_answer(after, key, now) is None
            &&& other != key ==> cached_answer(after, other, now) == cached_answer(entries, other, now)
        }),
{
}

} // verus!
