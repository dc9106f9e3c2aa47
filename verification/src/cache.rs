//! A cache whose entries carry the second at which they stop being readable.
//!
//! Nothing is ever swept out: an entry that has run out stays in the map,
//! unreadable, until another `insert` under its key replaces it.

use vstd::prelude::*;
use vstd::hash_map::StringHashMap;
use crate::clock::{add_seconds, instant_after, unix_now};

verus! {

/// A stored value with its absolute expiry.
pub struct CacheEntry<V> {
    /// The value that was inserted.
    pub value: V,
    /// The first Unix second at which the value can no longer be read.
    pub expiring: i64,
}

/// What a cache holds: for each key at most one entry.
pub type Entries<V> = Map<Seq<char>, CacheEntry<V>>;

/// What a read of `key` at second `now` gives from `entries`: the value under
/// the key, provided that its expiry lies strictly after `now`.
pub open spec fn read<V>(entries: Entries<V>, key: Seq<char>, now: i64) -> Option<V> {
    if entries.contains_key(key) && entries[key].expiring > now {
        Some(entries[key].value)
    } else {
        None
    }
}

/// What `entries` becomes when `value` is written under `key` at second `now`
/// to live for `ttl` seconds: the entry under `key` is replaced as a whole,
/// every other entry stays.
pub open spec fn written<V>(entries: Entries<V>, key: Seq<char>, value: V, ttl: i64, now: i64)
    -> Entries<V> {
    entries.insert(key, CacheEntry { value, expiring: instant_after(now, ttl) })
}

/// A map from string keys to values that expire.
#[verifier::reject_recursive_types(V)]
pub struct Cache<V> {
    entries: StringHashMap<CacheEntry<V>>,
}

impl<V> View for Cache<V> {
    type V = Entries<V>;

    closed spec fn view(&self) -> Entries<V> {
        self.entries@
    }
}

impl<V> Cache<V> {
    /// A cache without entries.
    pub fn new() -> (cache: Self)
        ensures
            cache@ == Map::<Seq<char>, CacheEntry<V>>::empty(),
    {
        Cache { entries: StringHashMap::new() }
    }

    /// Reads `key` as of second `now`.
    pub fn get_at(&self, key: &str, now: i64) -> (found: Option<&V>)
        ensures
            read(self@, key@, now) == (match found {
                Some(value) => Some(*value),
                None => None,
            }),
    {
        match self.entries.get(key) {
            Some(entry) => if entry.expiring > now {
                Some(&entry.value)
            } else {
                None
            },
            None => None,
        }
    }

    /// Writes `value` under `key` at second `now`, to be readable for `ttl`
    /// seconds.
    pub fn insert_at(&mut self, key: &str, value: V, ttl: i64, now: i64)
        ensures
            final(self)@ == written(old(self)@, key@, value, ttl, now),
    {
        let expiring = add_seconds(now, ttl);
        self.entries.insert(key.to_owned(), CacheEntry { value, expiring });
    }

    /// Reads `key` as of the current second.
    ///
    /// The clock decides which second that is, so the result is the read at
    /// some second.
    pub fn get(&self, key: &str) -> (found: Option<&V>)
        ensures
            exists|now: i64| #[trigger] read(self@, key@, now) == (match found {
                Some(value) => Some(*value),
                None => None,
            }),
    {
        let now = unix_now();
        self.get_at(key, now)
    }

    /// Writes `value` under `key`, to be readable for `ttl` seconds from the
    /// current second.
    pub fn insert(&mut self, key: &str, value: V, ttl: i64)
        ensures
            exists|now: i64| final(self)@ == #[trigger] written(old(self)@, key@, value, ttl, now),
    {
        let now = unix_now();
        self.insert_at(key, value, ttl, now);
    }
}

/// A value written with a positive lifetime is read back at the second of the
/// write, unless that second is the last one an `i64` can hold.
pub proof fn lemma_fresh_entry_is_read<V>(
    entries: Entries<V>,
    key: Seq<char>,
    value: V,
    ttl: i64,
    now: i64,
)
    requires
        ttl > 0,
        now < i64::MAX,
    ensures
        read(written(entries, key, value, ttl, now), key, now) == Some(value),
{
}

/// A value written with a positive lifetime is read back at every second from
/// the write up to, and not including, its expiry.
pub proof fn lemma_entry_is_read_until_expiry<V>(
    entries: Entries<V>,
    key: Seq<char>,
    value: V,
    ttl: i64,
    now: i64,
    later: i64,
)
    requires
        later < instant_after(now, ttl),
    ensures
        read(written(entries, key, value, ttl, now), key, later) == Some(value),
{
}

/// A value written with a lifetime of zero or less is never read back, neither
/// at the second of the write nor later.
pub proof fn lemma_expired_entry_is_absent<V>(
    entries: Entries<V>,
    key: Seq<char>,
    value: V,
    ttl: i64,
    now: i64,
    later: i64,
)
    requires
        ttl <= 0,
        now <= later,
    ensures
        read(written(entries, key, value, ttl, now), key, later) == None::<V>,
{
}

/// Of two writes under one key only the second is left: the cache is as if the
/// first had never been made, so a read of the key gives what it would give
/// after the second write alone.
pub proof fn lemma_second_write_wins<V>(
    entries: Entries<V>,
    key: Seq<char>,
    first: V,
    first_ttl: i64,
    first_now: i64,
    second: V,
    second_ttl: i64,
    second_now: i64,
    at: i64,
)
    ensures
        written(written(entries, key, first, first_ttl, first_now), key, second, second_ttl, second_now)
            == written(entries, key, second, second_ttl, second_now),
        read(
            written(written(entries, key, first, first_ttl, first_now), key, second, second_ttl, second_now),
            key,
            at,
        ) == (if at < instant_after(second_now, second_ttl) {
            Some(second)
        } else {
            None
        }),
{
    assert(written(written(entries, key, first, first_ttl, first_now), key, second, second_ttl, second_now)
        =~= written(entries, key, second, second_ttl, second_now));
}

/// A write under one key leaves the reads of every other key as they were.
pub proof fn lemma_write_keeps_other_keys<V>(
    entries: Entries<V>,
    key: Seq<char>,
    value: V,
    ttl: i64,
    now: i64,
    other: Seq<char>,
    at: i64,
)
    requires
        other != key,
    ensures
        read(written(entries, key, value, ttl, now), other, at) == read(entries, other, at),
{
}

} // verus!
