//! A key/value cache with a time to live.
//!
//! The cache holds, for every key, the payload that was written last and the
//! second at which it was written. An entry is valid while it is younger than
//! the time to live; one that is not is never handed out. How an entry is laid
//! out in a file is the business of [`crate::services::cache_envelope`]; moving
//! the files to and from a disk is left to the caller.

use crate::services::cache_envelope::{
    decode_envelope,
    encode_envelope,
    envelope_text,
    is_space,
    law_envelope_round_trip,
    parse_envelope,
};
use crate::utils::helpers::{current_timestamp_ms, seconds_of};
use crate::utils::table::StringTable;
use crate::utils::text::same_text;
use vstd::prelude::*;
use vstd::string::StrSliceExecFns;
use vstd::string::StringExecFns;

verus! {

/// The time to live of a cache that is not given one: 24 hours.
pub const DEFAULT_TTL_SECONDS: u64 = 86400;

/// A payload and the second, since the Unix epoch, at which it was written.
#[derive(Debug)]
pub struct CachedData {
    pub timestamp: u64,
    pub data: String,
}

/// A [`CachedData`] as plain values.
pub struct CachedDataView {
    pub timestamp: u64,
    pub data: Seq<char>,
}

impl View for CachedData {
    type V = CachedDataView;

    open spec fn view(&self) -> CachedDataView {
        CachedDataView { timestamp: self.timestamp, data: self.data@ }
    }
}

/// Why a read of the cache gave nothing.
#[derive(Debug, Clone, Copy, PartialEq, Eq, Structural)]
pub enum CacheError {
    /// The key has no entry, or the entry it has is not valid any more.
    InvalidOrExpired,
}

impl CacheError {
    /// The error as a sentence.
    pub fn message(&self) -> (r: String)
        ensures
            r@ == "Cache invalid or expired"@,
    {
        String::from_str("Cache invalid or expired")
    }
}

/// A cache as plain values.
pub struct CacheView {
    pub cache_dir: Seq<char>,
    pub ttl_seconds: u64,
    pub entries: Map<Seq<char>, CachedDataView>,
}

/// The age of `e` at `now`, in seconds. An entry written after `now` has none.
pub open spec fn entry_age(e: CachedDataView, now: u64) -> Option<u64> {
    if e.timestamp <= now {
        Some((now - e.timestamp) as u64)
    } else {
        None
    }
}

/// An entry is valid while its age is known and less than the time to live.
pub open spec fn entry_valid(e: CachedDataView, now: u64, ttl_seconds: u64) -> bool {
    e.timestamp <= now && now - e.timestamp < ttl_seconds
}

/// An entry has expired once its age is known and more than the time to live.
pub open spec fn entry_expired(e: CachedDataView, now: u64, ttl_seconds: u64) -> bool {
    e.timestamp <= now && now - e.timestamp > ttl_seconds
}

/// Whether `key` has a valid entry at `now`.
pub open spec fn valid_at(v: CacheView, key: Seq<char>, now: u64) -> bool {
    v.entries.contains_key(key) && entry_valid(v.entries[key], now, v.ttl_seconds)
}

/// Whether `key` has an entry that has expired at `now`.
pub open spec fn expired_at(v: CacheView, key: Seq<char>, now: u64) -> bool {
    v.entries.contains_key(key) && entry_expired(v.entries[key], now, v.ttl_seconds)
}

/// What a read of `key` at `now` returns.
pub open spec fn read_result(v: CacheView, key: Seq<char>, now: u64) -> Result<Seq<char>, CacheError> {
    if valid_at(v, key, now) {
        Ok(v.entries[key].data)
    } else {
        Err(CacheError::InvalidOrExpired)
    }
}

/// Whether `r` is what a read of `key` at `now` is owed.
pub open spec fn read_outcome(v: CacheView, key: Seq<char>, now: u64, r: Result<String, CacheError>) -> bool {
    match r {
        Ok(data) => read_result(v, key, now) == Ok::<Seq<char>, CacheError>(data@),
        Err(e) => read_result(v, key, now) == Err::<Seq<char>, CacheError>(e),
    }
}

/// The cache after `data` is written under `key` at `now`.
pub open spec fn written(v: CacheView, key: Seq<char>, data: Seq<char>, now: u64) -> CacheView {
    CacheView {
        cache_dir: v.cache_dir,
        ttl_seconds: v.ttl_seconds,
        entries: v.entries.insert(key, CachedDataView { timestamp: now, data }),
    }
}

/// The cache without the entry of `key`.
pub open spec fn cleared(v: CacheView, key: Seq<char>) -> CacheView {
    CacheView { cache_dir: v.cache_dir, ttl_seconds: v.ttl_seconds, entries: v.entries.remove(key) }
}

/// The cache without the entries that have expired at `now`.
pub open spec fn without_expired(v: CacheView, now: u64) -> CacheView {
    CacheView {
        cache_dir: v.cache_dir,
        ttl_seconds: v.ttl_seconds,
        entries: Map::new(
            |k: Seq<char>| v.entries.contains_key(k) && !expired_at(v, k, now),
            |k: Seq<char>| v.entries[k],
        ),
    }
}

/// The cache without any entry.
pub open spec fn emptied(v: CacheView) -> CacheView {
    CacheView {
        cache_dir: v.cache_dir,
        ttl_seconds: v.ttl_seconds,
        entries: Map::<Seq<char>, CachedDataView>::empty(),
    }
}

/// The name of the file that holds the entry of `key`.
pub open spec fn file_name_of(key: Seq<char>) -> Seq<char> {
    key + ".json"@
}

/// The path of the file that holds the entry of `key` in the directory `dir`.
pub open spec fn cache_path(dir: Seq<char>, key: Seq<char>) -> Seq<char> {
    dir + "/"@ + file_name_of(key)
}

/// The key whose entry a file named `name` holds: the name without its
/// `.json` ending, if it has that ending and something before it.
pub open spec fn key_of_file(name: Seq<char>) -> Option<Seq<char>> {
    if name.len() > 5 && name.subrange(name.len() - 5, name.len() as int) == ".json"@ {
        Some(name.subrange(0, name.len() - 5))
    } else {
        None
    }
}

/// The cache after a file named `name` with the text `content` is taken in: a
/// file that is named for a key and holds an envelope becomes the entry of
/// that key; any other file leaves the cache as it is.
pub open spec fn loaded(v: CacheView, name: Seq<char>, content: Seq<char>) -> CacheView {
    match (key_of_file(name), parse_envelope(content)) {
        (Some(key), Some(found)) => CacheView {
            cache_dir: v.cache_dir,
            ttl_seconds: v.ttl_seconds,
            entries: v.entries.insert(key, CachedDataView { timestamp: found.0, data: found.1 }),
        },
        _ => v,
    }
}

/// Write, then read at once: the payload comes back unchanged, whatever the
/// cache held before, as long as the time to live is not zero.
pub proof fn law_write_then_read(v: CacheView, key: Seq<char>, data: Seq<char>, now: u64)
    requires
        v.ttl_seconds > 0,
    ensures
        valid_at(written(v, key, data, now), key, now),
        read_result(written(v, key, data, now), key, now) == Ok::<Seq<char>, CacheError>(data),
{
}

/// Once the time to live has passed since the write, the entry is not valid
/// and reading it fails.
pub proof fn law_entry_lapses(v: CacheView, key: Seq<char>, data: Seq<char>, now: u64, later: u64)
    requires
        later >= now + v.ttl_seconds,
    ensures
        !valid_at(written(v, key, data, now), key, later),
        read_result(written(v, key, data, now), key, later) == Err::<Seq<char>, CacheError>(
            CacheError::InvalidOrExpired,
        ),
{
}

/// Until the time to live has passed, what was written stays readable.
pub proof fn law_entry_lasts(v: CacheView, key: Seq<char>, data: Seq<char>, now: u64, later: u64)
    requires
        now <= later < now + v.ttl_seconds,
    ensures
        read_result(written(v, key, data, now), key, later) == Ok::<Seq<char>, CacheError>(data),
{
}

/// A file is named for the key whose entry it holds: from the name of the file
/// of a key, the key is read back.
pub proof fn law_file_name_reads_back(key: Seq<char>)
    requires
        key.len() > 0,
    ensures
        key_of_file(file_name_of(key)) == Some(key),
{
    reveal_strlit(".json");
    let name = file_name_of(key);
    assert(name.len() == key.len() + 5);
    assert(name.subrange(name.len() - 5, name.len() as int) =~= ".json"@);
    assert(name.subrange(0, name.len() - 5) =~= key);
}

/// What a write hands out to be kept as a file brings the same entry back
/// when the file is taken in again, for every key that is not empty and every
/// payload that is not empty and has no white space at its ends.
pub proof fn law_written_file_loads_back(v: CacheView, key: Seq<char>, data: Seq<char>, now: u64)
    requires
        key.len() > 0,
        data.len() > 0,
        !is_space(data[0]),
        !is_space(data.last()),
    ensures
        loaded(v, file_name_of(key), envelope_text(now, data)) == written(v, key, data, now),
        loaded(written(v, key, data, now), file_name_of(key), envelope_text(now, data)) == written(
            v,
            key,
            data,
            now,
        ),
{
    law_file_name_reads_back(key);
    law_envelope_round_trip(now, data);
    assert(written(v, key, data, now).entries.insert(
        key,
        CachedDataView { timestamp: now, data },
    ) =~= written(v, key, data, now).entries);
}

/// Clearing is idempotent, and a key that was cleared reads as a miss.
pub proof fn law_clear_idempotent(v: CacheView, key: Seq<char>, now: u64)
    ensures
        cleared(cleared(v, key), key) == cleared(v, key),
        !valid_at(cleared(v, key), key, now),
        without_expired(without_expired(v, now), now) == without_expired(v, now),
        emptied(emptied(v)) == emptied(v),
{
    assert(cleared(cleared(v, key), key).entries =~= cleared(v, key).entries);
    assert(without_expired(without_expired(v, now), now).entries =~= without_expired(v, now).entries);
}

/// Dropping the expired entries never takes a valid one, nor changes what a
/// read returns.
pub proof fn law_clear_expired_keeps_valid(v: CacheView, key: Seq<char>, now: u64)
    ensures
        read_result(without_expired(v, now), key, now) == read_result(v, key, now),
{
}

/// Whether `k` is among the first `upto` of `keys`.
pub open spec fn listed_in(keys: Seq<String>, k: Seq<char>, upto: int) -> bool {
    exists|q: int| 0 <= q < upto && #[trigger] keys[q]@ == k
}

/// No key occurs twice in `keys`.
pub open spec fn no_key_twice(keys: Seq<String>) -> bool {
    forall|i: int, j: int| 0 <= i < j < keys.len() ==> keys[i]@ != keys[j]@
}

/// What dropping the expired entries at `now` does to a cache and returns:
/// the entries that have expired are gone, and their keys are returned, each
/// once.
pub open spec fn expired_cleared(before: CacheView, after: CacheView, removed: Seq<String>, now: u64) -> bool {
    &&& after == without_expired(before, now)
    &&& no_key_twice(removed)
    &&& forall|k: Seq<char>|
        listed_in(removed, k, removed.len() as int) <==> expired_at(before, k, now)
}

/// Whether an entry is picked: for being expired, or for being valid.
pub open spec fn picked(e: CachedDataView, now: u64, ttl_seconds: u64, expired: bool) -> bool {
    if expired {
        entry_expired(e, now, ttl_seconds)
    } else {
        entry_valid(e, now, ttl_seconds)
    }
}

/// Whether `key` stands at one of the first `upto` positions of `table`, with
/// an entry that is picked.
pub open spec fn picked_before(
    table: StringTable<CachedData>,
    key: Seq<char>,
    upto: int,
    now: u64,
    ttl_seconds: u64,
    expired: bool,
) -> bool {
    exists|p: int|
        0 <= p < upto && #[trigger] table.spec_key(p) == key && picked(
            table.spec_value(p)@,
            now,
            ttl_seconds,
            expired,
        )
}

/// A time-to-live cache of text payloads.
pub struct CacheService {
    cache_dir: String,
    ttl_seconds: u64,
    entries: StringTable<CachedData>,
}

impl View for CacheService {
    type V = CacheView;

    closed spec fn view(&self) -> CacheView {
        CacheView {
            cache_dir: self.cache_dir@,
            ttl_seconds: self.ttl_seconds,
            entries: self.entries@.map_values(|d: CachedData| d@),
        }
    }
}

impl CacheService {
    /// An empty cache for the directory `cache_dir`, with a time to live of 24
    /// hours.
    pub fn new(cache_dir: &str) -> (r: Self)
        ensures
            r@.cache_dir == cache_dir@,
            r@.ttl_seconds == DEFAULT_TTL_SECONDS,
            r@.entries == Map::<Seq<char>, CachedDataView>::empty(),
    {
        let r = CacheService {
            cache_dir: cache_dir.to_owned(),
            ttl_seconds: DEFAULT_TTL_SECONDS,
            entries: StringTable::new(),
        };
        assert(r@.entries =~= Map::<Seq<char>, CachedDataView>::empty());
        r
    }

    /// An empty cache for the directory `cache_dir`, with the time to live
    /// `ttl_seconds`.
    pub fn with_ttl(cache_dir: &str, ttl_seconds: u64) -> (r: Self)
        ensures
            r@.cache_dir == cache_dir@,
            r@.ttl_seconds == ttl_seconds,
            r@.entries == Map::<Seq<char>, CachedDataView>::empty(),
    {
        let mut service = Self::new(cache_dir);
        service.ttl_seconds = ttl_seconds;
        assert(service@.entries =~= Map::<Seq<char>, CachedDataView>::empty());
        service
    }

    /// The time to live, in seconds.
    pub fn ttl_seconds(&self) -> (r: u64)
        ensures
            r == self@.ttl_seconds,
    {
        self.ttl_seconds
    }

    /// The number of entries, valid or not.
    pub fn len(&self) -> (r: usize)
        ensures
            self@.entries.dom().finite(),
            r == self@.entries.dom().len(),
    {
        let r = self.entries.len();
        assert(self@.entries.dom() =~= self.entries@.dom());
        r
    }

    /// The path of the file that holds the entry of `key`.
    pub fn get_cache_path(&self, key: &str) -> (r: String)
        ensures
            r@ == cache_path(self@.cache_dir, key@),
    {
        let mut path = self.cache_dir.clone();
        path.append("/");
        path.append(key);
        path.append(".json");
        assert(path@ =~= cache_path(self@.cache_dir, key@));
        path
    }

    /// The age of the entry of `key` at `now`, in seconds: `None` if the key
    /// has no entry, or one that was written after `now`.
    pub fn get_cache_age(&self, key: &str, now: u64) -> (r: Option<u64>)
        ensures
            r == if self@.entries.contains_key(key@) {
                entry_age(self@.entries[key@], now)
            } else {
                None
            },
    {
        match self.entries.get(key) {
            Some(entry) => {
                if entry.timestamp <= now {
                    Some(now - entry.timestamp)
                } else {
                    None
                }
            },
            None => None,
        }
    }

    /// Whether `key` has an entry that is valid at the second `now`.
    pub fn is_valid_at(&self, key: &str, now: u64) -> (r: bool)
        ensures
            r == valid_at(self@, key@, now),
    {
        match self.entries.get(key) {
            Some(entry) => entry.timestamp <= now && now - entry.timestamp < self.ttl_seconds,
            None => false,
        }
    }

    /// Whether `key` has an entry that is valid at the second the clock shows.
    pub fn is_valid(&self, key: &str) -> (r: bool)
        ensures
            exists|now: u64| r == valid_at(self@, key@, now),
    {
        let now = seconds_of(current_timestamp_ms());
        let r = self.is_valid_at(key, now);
        assert(r == valid_at(self@, key@, now));
        r
    }

    /// The payload of `key`, if its entry is valid at the second `now`.
    pub fn read_at(&self, key: &str, now: u64) -> (r: Result<String, CacheError>)
        ensures
            read_outcome(self@, key@, now, r),
    {
        match self.entries.get(key) {
            Some(entry) => {
                if entry.timestamp <= now && now - entry.timestamp < self.ttl_seconds {
                    Ok(entry.data.clone())
                } else {
                    Err(CacheError::InvalidOrExpired)
                }
            },
            None => Err(CacheError::InvalidOrExpired),
        }
    }

    /// The payload of `key`, if its entry is valid at the second the clock
    /// shows.
    pub fn read(&self, key: &str) -> (r: Result<String, CacheError>)
        ensures
            exists|now: u64| read_outcome(self@, key@, now, r),
    {
        let now = seconds_of(current_timestamp_ms());
        let r = self.read_at(key, now);
        assert(read_outcome(self@, key@, now, r));
        r
    }

    /// Writes `data` under `key` with the stamp `now`, in place of what the
    /// key held. Returns the text of the file that holds the new entry. Under
    /// a time to live of 0 no entry is ever valid, this one neither.
    pub fn write_at(&mut self, key: &str, data: &str, now: u64) -> (r: String)
        ensures
            final(self)@ == written(old(self)@, key@, data@, now),
            r@ == envelope_text(now, data@),
    {
        self.entries.insert(key.to_owned(), CachedData { timestamp: now, data: data.to_owned() });
        assert(self@.entries =~= written(old(self)@, key@, data@, now).entries);
        encode_envelope(now, data)
    }

    /// Writes `data` under `key` with the second the clock shows as its stamp.
    pub fn write(&mut self, key: &str, data: &str) -> (r: String)
        ensures
            exists|now: u64|
                final(self)@ == written(old(self)@, key@, data@, now) && r@ == envelope_text(
                    now,
                    data@,
                ),
    {
        let now = seconds_of(current_timestamp_ms());
        let r = self.write_at(key, data, now);
        assert(self@ == written(old(self)@, key@, data@, now) && r@ == envelope_text(now, data@));
        r
    }

    /// Drops the entry of `key`. Returns whether there was one.
    pub fn clear(&mut self, key: &str) -> (r: bool)
        ensures
            final(self)@ == cleared(old(self)@, key@),
            r == old(self)@.entries.contains_key(key@),
    {
        let removed = self.entries.remove(key);
        assert(self@.entries =~= cleared(old(self)@, key@).entries);
        removed.is_some()
    }

    /// Drops every entry. Returns how many there were.
    pub fn clear_all(&mut self) -> (r: usize)
        ensures
            final(self)@ == emptied(old(self)@),
            old(self)@.entries.dom().finite(),
            r == old(self)@.entries.dom().len(),
    {
        let count = self.len();
        self.entries.clear();
        assert(self@.entries =~= emptied(old(self)@).entries);
        count
    }

    fn pick_keys(&self, now: u64, expired: bool) -> (r: Vec<String>)
        ensures
            no_key_twice(r@),
            forall|k: Seq<char>|
                listed_in(r@, k, r@.len() as int) <==> self@.entries.contains_key(k) && picked(
                    self@.entries[k],
                    now,
                    self@.ttl_seconds,
                    expired,
                ),
    {
        let n = self.entries.len();
        let ttl = self.ttl_seconds;
        let mut keys: Vec<String> = Vec::new();
        let mut i: usize = 0;
        while i < n
            invariant
                i <= n,
                n == self.entries.spec_len(),
                ttl == self.ttl_seconds,
                self.entries.listed(),
                no_key_twice(keys@),
                forall|j: int|
                    0 <= j < keys@.len() ==> picked_before(
                        self.entries,
                        (#[trigger] keys@[j])@,
                        i as int,
                        now,
                        ttl,
                        expired,
                    ),
                forall|p: int|
                    0 <= p < i && picked(self.entries.spec_value(p)@, now, ttl, expired)
                        ==> listed_in(keys@, #[trigger] self.entries.spec_key(p), keys@.len() as int),
            decreases n - i,
        {
            let entry = self.entries.value_at(i);
            let known = entry.timestamp <= now;
            let take = if expired {
                known && now - entry.timestamp > ttl
            } else {
                known && now - entry.timestamp < ttl
            };
            let ghost before = keys@;
            if take {
                let key = self.entries.key_at(i).clone();
                keys.push(key);
                proof {
                    assert forall|a: int, b: int| 0 <= a < b < keys@.len() implies keys@[a]@
                        != keys@[b]@ by {
                        if b == before.len() {
                            assert(keys@[a] == before[a]);
                            assert(picked_before(self.entries, before[a]@, i as int, now, ttl, expired));
                            let p = choose|p: int|
                                0 <= p < i && #[trigger] self.entries.spec_key(p) == before[a]@
                                    && picked(self.entries.spec_value(p)@, now, ttl, expired);
                            assert(self.entries.spec_key(p) != self.entries.spec_key(i as int));
                        } else {
                            assert(keys@[a] == before[a] && keys@[b] == before[b]);
                        }
                    }
                }
            }
            proof {
                assert forall|j: int| 0 <= j < keys@.len() implies picked_before(
                    self.entries,
                    (#[trigger] keys@[j])@,
                    i + 1,
                    now,
                    ttl,
                    expired,
                ) by {
                    if j < before.len() {
                        assert(keys@[j] == before[j]);
                        assert(picked_before(self.entries, before[j]@, i as int, now, ttl, expired));
                        let p = choose|p: int|
                            0 <= p < i && #[trigger] self.entries.spec_key(p) == before[j]@
                                && picked(self.entries.spec_value(p)@, now, ttl, expired);
                        assert(0 <= p < i + 1 && self.entries.spec_key(p) == keys@[j]@);
                    } else {
                        assert(self.entries.spec_key(i as int) == keys@[j]@);
                    }
                }
                assert forall|p: int|
                    0 <= p < i + 1 && picked(
                        self.entries.spec_value(p)@,
                        now,
                        ttl,
                        expired,
                    ) implies listed_in(
                    keys@,
                    #[trigger] self.entries.spec_key(p),
                    keys@.len() as int,
                ) by {
                    if p < i {
                        assert(listed_in(before, self.entries.spec_key(p), before.len() as int));
                        let q = choose|q: int|
                            0 <= q < before.len() && #[trigger] before[q]@
                                == self.entries.spec_key(p);
                        assert(keys@[q] == before[q]);
                    } else {
                        assert(take);
                        assert(keys@[before.len() as int]@ == self.entries.spec_key(p));
                    }
                }
            }
            i = i + 1;
        }
        proof {
            assert forall|k: Seq<char>|
                listed_in(keys@, k, keys@.len() as int) <==> self@.entries.contains_key(k)
                    && picked(self@.entries[k], now, self@.ttl_seconds, expired) by {
                if listed_in(keys@, k, keys@.len() as int) {
                    let q = choose|q: int| 0 <= q < keys@.len() && #[trigger] keys@[q]@ == k;
                    assert(picked_before(self.entries, keys@[q]@, n as int, now, ttl, expired));
                    let p = choose|p: int|
                        0 <= p < n && #[trigger] self.entries.spec_key(p) == keys@[q]@ && picked(
                            self.entries.spec_value(p)@,
                            now,
                            ttl,
                            expired,
                        );
                    assert(self.entries@.contains_key(self.entries.spec_key(p)));
                }
                if self@.entries.contains_key(k) && picked(
                    self@.entries[k],
                    now,
                    self@.ttl_seconds,
                    expired,
                ) {
                    assert(self.entries@.contains_key(k));
                    let p = choose|p: int|
                        0 <= p < self.entries.spec_len() && #[trigger] self.entries.spec_key(p)
                            == k;
                    assert(self.entries@[self.entries.spec_key(p)] == self.entries.spec_value(p));
                }
            }
        }
        keys
    }

    /// The keys whose entries are valid at the second `now`, each once.
    pub fn list_valid_keys_at(&self, now: u64) -> (r: Vec<String>)
        ensures
            no_key_twice(r@),
            forall|k: Seq<char>| listed_in(r@, k, r@.len() as int) <==> valid_at(self@, k, now),
    {
        self.pick_keys(now, false)
    }

    /// Drops the entries that have expired at the second `now`: those whose
    /// age is more than the time to live. Returns their keys, each once.
    pub fn clear_expired_at(&mut self, now: u64) -> (removed: Vec<String>)
        ensures
            expired_cleared(old(self)@, final(self)@, removed@, now),
    {
        let doomed = self.pick_keys(now, true);
        let ghost table = self.entries@;
        let mut j: usize = 0;
        while j < doomed.len()
            invariant
                j <= doomed@.len(),
                self.cache_dir == old(self).cache_dir,
                self.ttl_seconds == old(self).ttl_seconds,
                self.entries@ == table.remove_keys(
                    Set::new(|k: Seq<char>| listed_in(doomed@, k, j as int)),
                ),
            decreases doomed@.len() - j,
        {
            self.entries.remove(doomed[j].as_str());
            proof {
                let gone = Set::new(|k: Seq<char>| listed_in(doomed@, k, j as int));
                let gone_next = Set::new(|k: Seq<char>| listed_in(doomed@, k, j + 1));
                assert forall|k: Seq<char>| gone_next.contains(k) <==> (gone.contains(k) || k
                    == doomed@[j as int]@) by {
                    if gone.contains(k) {
                        let q = choose|q: int| 0 <= q < j && #[trigger] doomed@[q]@ == k;
                        assert(0 <= q < j + 1);
                    }
                    if k == doomed@[j as int]@ {
                        assert(0 <= j < j + 1 && doomed@[j as int]@ == k);
                    }
                }
                assert(self.entries@ =~= table.remove_keys(gone_next));
            }
            j = j + 1;
        }
        proof {
            let gone = Set::new(|k: Seq<char>| listed_in(doomed@, k, doomed@.len() as int));
            assert forall|k: Seq<char>| gone.contains(k) <==> expired_at(old(self)@, k, now) by {}
            assert(self@.entries =~= without_expired(old(self)@, now).entries);
        }
        doomed
    }

    /// Drops the entries that have expired at the second the clock shows.
    pub fn clear_expired(&mut self) -> (removed: Vec<String>)
        ensures
            exists|now: u64| expired_cleared(old(self)@, final(self)@, removed@, now),
    {
        let now = seconds_of(current_timestamp_ms());
        let removed = self.clear_expired_at(now);
        assert(expired_cleared(old(self)@, self@, removed@, now));
        removed
    }

    /// Takes in a file of the cache directory, by its name and its text. A
    /// file that is not named for a key, or whose text is no envelope, is
    /// passed over: a corrupt entry is a miss. Returns whether the file became
    /// an entry.
    pub fn load(&mut self, name: &str, content: &str) -> (r: bool)
        ensures
            final(self)@ == loaded(old(self)@, name@, content@),
            r == (key_of_file(name@) is Some && parse_envelope(content@) is Some),
    {
        let key = match key_of_file_name(name) {
            Some(key) => key,
            None => {
                return false;
            },
        };
        match decode_envelope(content) {
            Some(found) => {
                self.entries.insert(key, found);
                assert(self@.entries =~= loaded(old(self)@, name@, content@).entries);
                true
            },
            None => false,
        }
    }
}

/// The key whose entry a file named `name` holds, if it is named for one.
pub fn key_of_file_name(name: &str) -> (r: Option<String>)
    ensures
        match r {
            Some(key) => key_of_file(name@) == Some(key@),
            None => key_of_file(name@) is None,
        },
{
    let n = name.unicode_len();
    if n <= 5 {
        return None;
    }
    let ending = name.substring_char(n - 5, n);
    if same_text(ending, ".json") {
        Some(name.substring_char(0, n - 5).to_owned())
    } else {
        None
    }
}

} // verus!
