use vstd::prelude::*;

use crate::time::Timestamp;

verus! {

/// The cache key under which a provider stores its fetched API data.
pub const DATA_KEY: &'static str = "data";

/// The number of seconds a provider keeps its fetched data by default; the
/// constant parameter is that number.
pub fn default_cache_expiry<const SECS: u64>() -> (secs: u64)
    ensures
        secs == SECS,
{
    SECS
}

/// The name of the file that holds the cache of the provider called `provider`.
pub open spec fn cache_file_name_of(provider: Seq<char>) -> Seq<char> {
    "provider."@ + provider + ".toml"@
}

/// The name of the cache file of a provider: `provider.<name>.toml`.
pub fn cache_file_name(provider: &str) -> (name: String)
    ensures
        name@ == cache_file_name_of(provider@),
{
    let name = "provider.".to_owned();
    let name = name.concat(provider);
    name.concat(".toml")
}

/// The contents of a cache file: named entries, each key present once.
/// Each provider stores independent entries in its file (such as a login session
/// beside cached API results), keyed by name.
#[derive(Clone, Debug, PartialEq)]
pub struct CacheTable<V> {
    entries: Vec<(String, V)>,
}

/// The map that a list of entries describes, later entries overriding earlier ones.
pub open spec fn entries_map<V>(entries: Seq<(String, V)>) -> Map<Seq<char>, V>
    decreases entries.len(),
{
    if entries.len() == 0 {
        Map::empty()
    } else {
        entries_map(entries.drop_last()).insert(entries.last().0@, entries.last().1)
    }
}

/// The keys of the entries, in their order.
pub open spec fn keys_of<V>(entries: Seq<(String, V)>) -> Seq<Seq<char>> {
    entries.map_values(|e: (String, V)| e.0@)
}

/// No key occurs twice in the entries.
pub open spec fn keys_unique<V>(entries: Seq<(String, V)>) -> bool {
    forall|i: int, j: int|
        0 <= i < entries.len() && 0 <= j < entries.len() && i != j ==> #[trigger] entries[i].0@
            != #[trigger] entries[j].0@
}

/// With unique keys, each entry is what the map holds under its key, and the map holds
/// no other key.
proof fn lemma_entries_map<V>(entries: Seq<(String, V)>)
    requires
        keys_unique(entries),
    ensures
        forall|i: int|
            0 <= i < entries.len() ==> #[trigger] entries_map(entries).contains_key(entries[i].0@)
                && entries_map(entries)[entries[i].0@] == entries[i].1,
        forall|k: Seq<char>|
            #[trigger] entries_map(entries).contains_key(k) ==> exists|i: int|
                0 <= i < entries.len() && entries[i].0@ == k,
    decreases entries.len(),
{
    if entries.len() > 0 {
        let init = entries.drop_last();
        assert(keys_unique(init)) by {
            assert forall|i: int, j: int|
                0 <= i < init.len() && 0 <= j < init.len() && i != j implies #[trigger] init[i].0@
                != #[trigger] init[j].0@ by {
                assert(init[i] == entries[i] && init[j] == entries[j]);
            }
        }
        lemma_entries_map(init);
        assert forall|k: Seq<char>| #[trigger] entries_map(entries).contains_key(k) implies exists|
            i: int,
        | 0 <= i < entries.len() && entries[i].0@ == k by {
            if k != entries.last().0@ {
                assert(entries_map(init).contains_key(k));
                let i = choose|i: int| 0 <= i < init.len() && init[i].0@ == k;
                assert(entries[i] == init[i]);
            } else {
                assert(entries[entries.len() - 1].0@ == k);
            }
        }
        assert forall|i: int| 0 <= i < entries.len() implies #[trigger] entries_map(
            entries,
        ).contains_key(entries[i].0@) && entries_map(entries)[entries[i].0@] == entries[i].1 by {
            if i < entries.len() - 1 {
                assert(entries[i] == init[i]);
                assert(entries_map(init).contains_key(init[i].0@));
                assert(entries[i].0@ != entries[entries.len() - 1].0@);
            }
        }
    }
}

/// Replacing the value of an entry whose key is unique leaves the map as if that key
/// had been inserted with the new value.
proof fn lemma_entries_map_update<V>(entries: Seq<(String, V)>, i: int, value: V)
    requires
        keys_unique(entries),
        0 <= i < entries.len(),
    ensures
        keys_unique(entries.update(i, (entries[i].0, value))),
        entries_map(entries.update(i, (entries[i].0, value))) == entries_map(entries).insert(
            entries[i].0@,
            value,
        ),
{
    let updated = entries.update(i, (entries[i].0, value));
    assert(keys_unique(updated)) by {
        assert forall|a: int, b: int|
            0 <= a < updated.len() && 0 <= b < updated.len() && a != b implies #[trigger] updated[a].0@
            != #[trigger] updated[b].0@ by {
            assert(updated[a].0 == entries[a].0 && updated[b].0 == entries[b].0);
        }
    }
    lemma_entries_map(entries);
    lemma_entries_map(updated);
    let lhs = entries_map(updated);
    let rhs = entries_map(entries).insert(entries[i].0@, value);
    assert forall|k: Seq<char>| lhs.contains_key(k) <==> rhs.contains_key(k) by {
        if lhs.contains_key(k) {
            let j = choose|j: int| 0 <= j < updated.len() && updated[j].0@ == k;
            assert(updated[j].0 == entries[j].0);
            assert(entries_map(entries).contains_key(entries[j].0@));
        }
        if rhs.contains_key(k) && k != entries[i].0@ {
            let j = choose|j: int| 0 <= j < entries.len() && entries[j].0@ == k;
            assert(updated[j].0 == entries[j].0);
            assert(lhs.contains_key(updated[j].0@));
        }
        if k == entries[i].0@ {
            assert(lhs.contains_key(updated[i].0@));
        }
    }
    assert forall|k: Seq<char>| #[trigger] lhs.contains_key(k) implies lhs[k] == rhs[k] by {
        let j = choose|j: int| 0 <= j < updated.len() && updated[j].0@ == k;
        assert(updated[j].0 == entries[j].0);
        if j != i {
            assert(entries_map(entries)[entries[j].0@] == entries[j].1);
        }
    }
    assert(lhs =~= rhs);
}

impl<V> CacheTable<V> {
    /// The keys of the table are unique.
    pub closed spec fn well_formed(&self) -> bool {
        keys_unique(self.entries@)
    }

    /// The table as a map from keys to values.
    pub closed spec fn view(&self) -> Map<Seq<char>, V> {
        entries_map(self.entries@)
    }

    /// The keys of the table in the order in which they were first stored.
    pub closed spec fn keys(&self) -> Seq<Seq<char>> {
        keys_of(self.entries@)
    }

    /// A table with no entries.
    pub fn new() -> (table: Self)
        ensures
            table.well_formed(),
            table.view() == Map::<Seq<char>, V>::empty(),
            table.keys() == Seq::<Seq<char>>::empty(),
    {
        CacheTable { entries: Vec::new() }
    }

    /// The number of entries.
    pub fn len(&self) -> (n: usize)
        requires
            self.well_formed(),
        ensures
            n == self.view().len(),
    {
        proof {
            self.lemma_len();
        }
        self.entries.len()
    }

    /// The map holds exactly as many keys as there are entries.
    proof fn lemma_len(&self)
        requires
            self.well_formed(),
        ensures
            self.view().dom().finite(),
            self.view().len() == self.entries@.len(),
    {
        lemma_map_len(self.entries@);
    }

    /// The value stored under `key`, if any.
    pub fn get(&self, key: &str) -> (value: Option<&V>)
        requires
            self.well_formed(),
        ensures
            value == (if self.view().contains_key(key@) {
                Some(&self.view()[key@])
            } else {
                None
            }),
    {
        proof {
            lemma_entries_map(self.entries@);
        }
        let wanted = key.to_owned();
        let mut i: usize = 0;
        while i < self.entries.len()
            invariant
                0 <= i <= self.entries@.len(),
                wanted@ == key@,
                keys_unique(self.entries@),
                forall|j: int| 0 <= j < i ==> #[trigger] self.entries@[j].0@ != key@,
            decreases self.entries@.len() - i,
        {
            if self.entries[i].0 == wanted {
                proof {
                    lemma_entries_map(self.entries@);
                    assert(entries_map(self.entries@).contains_key(self.entries@[i as int].0@));
                }
                return Some(&self.entries[i].1);
            }
            i = i + 1;
        }
        proof {
            lemma_entries_map(self.entries@);
            if self.view().contains_key(key@) {
                let j = choose|j: int| 0 <= j < self.entries@.len() && self.entries@[j].0@ == key@;
                assert(self.entries@[j].0@ != key@);
            }
        }
        None
    }

    /// Stores `value` under `key`, replacing what the key held before. A key already
    /// present keeps its place; a new key comes last.
    pub fn insert(&mut self, key: String, value: V)
        requires
            old(self).well_formed(),
        ensures
            final(self).well_formed(),
            final(self).view() == old(self).view().insert(key@, value),
            final(self).keys() == (if old(self).view().contains_key(key@) {
                old(self).keys()
            } else {
                old(self).keys().push(key@)
            }),
    {
        proof {
            lemma_entries_map(self.entries@);
        }
        let mut i: usize = 0;
        while i < self.entries.len()
            invariant
                0 <= i <= self.entries@.len(),
                keys_unique(self.entries@),
                self.entries@ == old(self).entries@,
                forall|j: int| 0 <= j < i ==> #[trigger] self.entries@[j].0@ != key@,
            decreases self.entries@.len() - i,
        {
            if self.entries[i].0 == key {
                proof {
                    lemma_entries_map_update(self.entries@, i as int, value);
                    lemma_entries_map(self.entries@);
                    assert(entries_map(self.entries@).contains_key(self.entries@[i as int].0@));
                }
                let ghost before = self.entries@;
                let k = self.entries[i].0.clone();
                self.entries.set(i, (k, value));
                proof {
                    assert(keys_of(self.entries@) =~= keys_of(before));
                }
                return;
            }
            i = i + 1;
        }
        let ghost before = self.entries@;
        proof {
            if entries_map(before).contains_key(key@) {
                let j = choose|j: int| 0 <= j < before.len() && before[j].0@ == key@;
                assert(before[j].0@ != key@);
            }
        }
        self.entries.push((key, value));
        proof {
            assert(keys_of(self.entries@) =~= keys_of(before).push(key@));
            assert(self.entries@.drop_last() == before);
            assert forall|a: int, b: int|
                0 <= a < self.entries@.len() && 0 <= b < self.entries@.len() && a != b implies #[trigger] self.entries@[a].0@
                != #[trigger] self.entries@[b].0@ by {
                if a < before.len() && b < before.len() {
                    assert(self.entries@[a] == before[a] && self.entries@[b] == before[b]);
                } else if a < before.len() {
                    assert(self.entries@[a] == before[a]);
                } else {
                    assert(self.entries@[b] == before[b]);
                }
            }
        }
    }

    /// The entries in the order in which their keys were first stored.
    pub fn entries(&self) -> (entries: &Vec<(String, V)>)
        requires
            self.well_formed(),
        ensures
            keys_unique(entries@),
            entries_map(entries@) == self.view(),
            keys_of(entries@) == self.keys(),
    {
        &self.entries
    }
}

/// The map of unique entries holds as many keys as there are entries.
proof fn lemma_map_len<V>(entries: Seq<(String, V)>)
    requires
        keys_unique(entries),
    ensures
        entries_map(entries).dom().finite(),
        entries_map(entries).len() == entries.len(),
    decreases entries.len(),
{
    if entries.len() > 0 {
        let init = entries.drop_last();
        assert(keys_unique(init)) by {
            assert forall|i: int, j: int|
                0 <= i < init.len() && 0 <= j < init.len() && i != j implies #[trigger] init[i].0@
                != #[trigger] init[j].0@ by {
                assert(init[i] == entries[i] && init[j] == entries[j]);
            }
        }
        lemma_map_len(init);
        lemma_entries_map(init);
        if entries_map(init).contains_key(entries.last().0@) {
            let i = choose|i: int| 0 <= i < init.len() && init[i].0@ == entries.last().0@;
            assert(entries[i] == init[i]);
            assert(entries[i].0@ != entries[entries.len() - 1].0@);
        }
    }
}

/// Reading a key of the cache gives back the last value written under it; writing a
/// key leaves every other key as it was. `after` is the table that writing `value`
/// under `key` into `before` gives (`CacheTable::insert`); reading is `CacheTable::get`.
pub proof fn law_read_after_write<V>(
    before: CacheTable<V>,
    after: CacheTable<V>,
    key: Seq<char>,
    value: V,
    other: Seq<char>,
)
    requires
        before.well_formed(),
        after.view() == before.view().insert(key, value),
    ensures
        after.view().contains_key(key),
        after.view()[key] == value,
        other != key ==> (after.view().contains_key(other) == before.view().contains_key(other)),
        other != key && before.view().contains_key(other) ==> after.view()[other] == before.view()[other],
        after.view().len() == before.view().len() + (if before.view().contains_key(key) {
            0int
        } else {
            1int
        }),
{
    before.lemma_len();
}

/// A cached value together with the instant until which it may be used.
#[derive(Clone, Debug, PartialEq)]
pub struct CachedEntry<T> {
    pub data: T,
    pub expires_at: Timestamp,
}

/// The data of a cache entry that has not yet expired at `now`.
pub open spec fn fresh_data<T>(entry: Option<CachedEntry<T>>, now: Timestamp) -> Option<T> {
    match entry {
        Some(e) => if now.precedes(e.expires_at) {
            Some(e.data)
        } else {
            None
        },
        None => None,
    }
}

/// The data of the cached entry, if there is one and it expires after `now`;
/// otherwise the data has to be fetched anew.
pub fn cached_if_fresh<T>(entry: Option<CachedEntry<T>>, now: Timestamp) -> (data: Option<T>)
    ensures
        data == fresh_data(entry, now),
{
    match entry {
        Some(e) => if e.expires_at.is_after(&now) {
            Some(e.data)
        } else {
            None
        },
        None => None,
    }
}

/// The entry keeps `data` from `written` for `ttl_secs` seconds: it holds the data and
/// expires exactly that many seconds after `written`.
pub open spec fn keeps_for<T>(entry: CachedEntry<T>, data: T, written: Timestamp, ttl_secs: int) -> bool {
    &&& entry.data == data
    &&& entry.expires_at.secs == written.secs + ttl_secs
    &&& entry.expires_at.nanos == written.nanos
}

/// The entry that stores freshly fetched data at `now` for `ttl_secs` seconds.
pub fn entry_for_fetched<T>(data: T, now: Timestamp, ttl_secs: i64) -> (entry: CachedEntry<T>)
    requires
        now.is_regular(),
        0 <= ttl_secs <= crate::time::MAX_SPAN_SECS,
        now.secs + ttl_secs <= crate::time::MAX_INSTANT_SECS,
    ensures
        keeps_for(entry, data, now, ttl_secs as int),
        entry.expires_at == now.plus_secs(ttl_secs as int),
{
    CachedEntry { data, expires_at: crate::time::expiry_after(now, ttl_secs) }
}

/// What a fetch at `now` gives: for fetched data, the entry that keeps it for `ttl_secs`
/// seconds (to be written, its data handed on); for an error, the error and no entry.
pub open spec fn fetch_outcome<T, E>(
    fetched: Result<T, E>,
    out: Result<CachedEntry<T>, E>,
    now: Timestamp,
    ttl_secs: int,
) -> bool {
    match fetched {
        Ok(d) => out matches Ok(entry) && keeps_for(entry, d, now, ttl_secs),
        Err(e) => out == Err::<CachedEntry<T>, E>(e),
    }
}

/// The outcome of fetching data that was not fresh in the cache: on success, the entry
/// to write (keeping the data for `ttl_secs` seconds from `now`), whose data is also
/// what the caller gets; on failure the error, and nothing is written (so the time
/// bounds matter only on success).
pub fn entry_after_fetch<T, E>(fetched: Result<T, E>, now: Timestamp, ttl_secs: i64) -> (out: Result<
    CachedEntry<T>,
    E,
>)
    requires
        fetched is Ok ==> {
            &&& now.is_regular()
            &&& 0 <= ttl_secs <= crate::time::MAX_SPAN_SECS
            &&& now.secs + ttl_secs <= crate::time::MAX_INSTANT_SECS
        },
    ensures
        fetch_outcome(fetched, out, now, ttl_secs as int),
{
    match fetched {
        Ok(data) => Ok(entry_for_fetched(data, now, ttl_secs)),
        Err(e) => Err(e),
    }
}

/// An entry that keeps data from `written` for `ttl_secs` seconds is used at a later `now`
/// exactly while `now` comes before its expiry: so within a positive time to live a read
/// gives back the data and spares another request, and with none it never does.
pub proof fn law_cache_window<T>(entry: CachedEntry<T>, data: T, written: Timestamp, ttl_secs: int, now: Timestamp)
    requires
        keeps_for(entry, data, written, ttl_secs),
        !now.precedes(written),
    ensures
        fresh_data(Some(entry), now) == (if now.precedes(entry.expires_at) {
            Some(data)
        } else {
            None
        }),
        now.secs < written.secs + ttl_secs ==> fresh_data(Some(entry), now) == Some(data),
        now.secs > written.secs + ttl_secs ==> fresh_data(Some(entry), now) is None,
        ttl_secs <= 0 ==> fresh_data(Some(entry), now) is None,
{
}

/// Fetching through the cache asks the service at most once per window: after a fetch at
/// `written` whose outcome was `out` (`entry_after_fetch`) succeeds with data `d`, every
/// later read at `now` before `written` plus the time to live is answered with `d` from
/// the written entry, without fetching; a failed fetch leaves no entry, so the next read
/// fetches again.
pub proof fn law_fetch_then_reuse<T, E>(
    fetched: Result<T, E>,
    out: Result<CachedEntry<T>, E>,
    written: Timestamp,
    ttl_secs: int,
    now: Timestamp,
)
    requires
        fetch_outcome(fetched, out, written, ttl_secs),
        !now.precedes(written),
        now.secs < written.secs + ttl_secs,
    ensures
        fetched matches Ok(d) ==> (out matches Ok(entry) && fresh_data(Some(entry), now) == Some(d)),
        fetched is Err ==> out is Err,
{
}

} // verus!
