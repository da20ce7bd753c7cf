//! Bounded cache of rendered thumbnails, least recently used out first.

use vstd::prelude::*;
use std::num::NonZeroUsize;
use lru::LruCache;

verus! {

#[verifier::external_type_specification]
#[verifier::external_body]
#[verifier::reject_recursive_types(K)]
#[verifier::reject_recursive_types(V)]
#[verifier::reject_recursive_types(S)]
pub struct ExLruCache<K, V, S>(LruCache<K, V, S>);

#[verifier::external_type_specification]
#[verifier::external_body]
pub struct ExDefaultHasher(lru::DefaultHasher);

/// Key of a cached thumbnail: the path of the file and the edge length in
/// pixels.
pub type CacheKey = (Seq<char>, u32);

/// The entries of a cache from the most to the least recently used, each a
/// key and the handle of its bitmap.
pub uninterp spec fn cache_entries(cache: &LruCache<(String, u32), isize>) -> Seq<(CacheKey, isize)>;

/// The number of entries a cache was made to hold.
pub uninterp spec fn cache_limit(cache: &LruCache<(String, u32), isize>) -> nat;

/// Calls `LruCache::new` with the capacity: the cache is empty and holds at
/// most `capacity` entries.
#[verifier::external_body]
pub(crate) fn lru_new(capacity: usize) -> (cache: LruCache<(String, u32), isize>)
    requires
        capacity > 0,
    ensures
        cache_entries(&cache) == Seq::<(CacheKey, isize)>::empty(),
        cache_limit(&cache) == capacity,
{
    LruCache::new(NonZeroUsize::new(capacity).unwrap())
}

/// Whether some entry has the key.
pub open spec fn has_key(entries: Seq<(CacheKey, isize)>, key: CacheKey) -> bool {
    exists|i: int| 0 <= i < entries.len() && (#[trigger] entries[i]).0 == key
}

/// The position of an entry with the key, where there is one.
pub open spec fn key_index(entries: Seq<(CacheKey, isize)>, key: CacheKey) -> int {
    choose|i: int| 0 <= i < entries.len() && (#[trigger] entries[i]).0 == key
}

/// The handle stored under the key, if any.
pub open spec fn lookup(entries: Seq<(CacheKey, isize)>, key: CacheKey) -> Option<isize> {
    if has_key(entries, key) {
        Some(entries[key_index(entries, key)].1)
    } else {
        None
    }
}

/// Whether no key occurs twice.
pub open spec fn distinct_keys(entries: Seq<(CacheKey, isize)>) -> bool {
    forall|i: int, j: int|
        0 <= i < j < entries.len() ==> (#[trigger] entries[i]).0 != (#[trigger] entries[j]).0
}

/// The entries after a handle was stored under a key. The new entry is the
/// most recently used. An entry that had the key is replaced by it; else,
/// where the cache was full, the least recently used entry leaves.
pub open spec fn entries_after_put(
    entries: Seq<(CacheKey, isize)>,
    limit: nat,
    key: CacheKey,
    handle: isize,
) -> Seq<(CacheKey, isize)> {
    if has_key(entries, key) {
        seq![(key, handle)] + entries.remove(key_index(entries, key))
    } else if entries.len() == limit {
        seq![(key, handle)] + entries.drop_last()
    } else {
        seq![(key, handle)] + entries
    }
}

/// Calls `LruCache::put`. The entries change as `entries_after_put` says,
/// the limit stays, and the handle that the key had before is returned.
#[verifier::external_body]
pub(crate) fn lru_put(
    cache: &mut LruCache<(String, u32), isize>,
    path: String,
    size: u32,
    handle: isize,
) -> (replaced: Option<isize>)
    ensures
        cache_entries(final(cache)) == entries_after_put(
            cache_entries(old(cache)),
            cache_limit(old(cache)),
            (path@, size),
            handle,
        ),
        cache_limit(final(cache)) == cache_limit(old(cache)),
        replaced == lookup(cache_entries(old(cache)), (path@, size)),
{
    cache.put((path, size), handle)
}

/// Calls `LruCache::peek`, which leaves the order of use as it is: the
/// handle stored under the key, if any.
#[verifier::external_body]
pub(crate) fn lru_peek(cache: &LruCache<(String, u32), isize>, path: String, size: u32) -> (found:
    Option<isize>)
    ensures
        found == lookup(cache_entries(cache), (path@, size)),
{
    cache.peek(&(path, size)).copied()
}

/// Calls `LruCache::clear`: no entry is left, the limit stays.
#[verifier::external_body]
pub(crate) fn lru_clear(cache: &mut LruCache<(String, u32), isize>)
    ensures
        cache_entries(final(cache)) == Seq::<(CacheKey, isize)>::empty(),
        cache_limit(final(cache)) == cache_limit(old(cache)),
{
    cache.clear()
}

/// Calls `LruCache::len`: the number of entries.
#[verifier::external_body]
pub(crate) fn lru_len(cache: &LruCache<(String, u32), isize>) -> (len: usize)
    ensures
        len == cache_entries(cache).len(),
{
    cache.len()
}

/// Thumbnails that were delivered, by path and pixel size.
pub struct ThumbnailCache {
    cache: LruCache<(String, u32), isize>,
}

impl ThumbnailCache {
    /// The entries from the most to the least recently used.
    pub closed spec fn entries(&self) -> Seq<(CacheKey, isize)> {
        cache_entries(&self.cache)
    }

    /// The number of entries the cache holds at most.
    pub closed spec fn limit(&self) -> nat {
        cache_limit(&self.cache)
    }

    /// The cache is within its limit and holds each key once.
    pub open spec fn wf(&self) -> bool {
        &&& self.limit() > 0
        &&& self.entries().len() <= self.limit()
        &&& distinct_keys(self.entries())
    }

    /// An empty cache for at most `capacity` thumbnails.
    pub fn new(capacity: usize) -> (cache: Self)
        requires
            capacity > 0,
        ensures
            cache.wf(),
            cache.limit() == capacity,
            cache.entries() == Seq::<(CacheKey, isize)>::empty(),
    {
        ThumbnailCache { cache: lru_new(capacity) }
    }

    /// Stores a thumbnail as the most recently used entry and returns the
    /// handle it replaces under the same key, if any.
    pub fn put(&mut self, path: String, size: u32, handle: isize) -> (replaced: Option<isize>)
        requires
            old(self).wf(),
        ensures
            final(self).wf(),
            final(self).limit() == old(self).limit(),
            final(self).entries() == entries_after_put(
                old(self).entries(),
                old(self).limit(),
                (path@, size),
                handle,
            ),
            replaced == lookup(old(self).entries(), (path@, size)),
    {
        proof {
            lemma_put_keeps_wf(self.entries(), self.limit(), (path@, size), handle);
        }
        lru_put(&mut self.cache, path, size, handle)
    }

    /// The thumbnail stored for a path and size, if any. Looking does not
    /// count as use.
    pub fn peek(&self, path: &str, size: u32) -> (found: Option<isize>)
        ensures
            found == lookup(self.entries(), (path@, size)),
    {
        lru_peek(&self.cache, path.to_owned(), size)
    }

    /// Drops every thumbnail.
    pub fn clear(&mut self)
        requires
            old(self).wf(),
        ensures
            final(self).wf(),
            final(self).limit() == old(self).limit(),
            final(self).entries() == Seq::<(CacheKey, isize)>::empty(),
    {
        lru_clear(&mut self.cache)
    }

    /// The number of thumbnails held.
    pub fn len(&self) -> (len: usize)
        ensures
            len == self.entries().len(),
    {
        lru_len(&self.cache)
    }
}

/// Storing a thumbnail keeps the cache within its limit and its keys
/// distinct.
pub proof fn lemma_put_keeps_wf(
    entries: Seq<(CacheKey, isize)>,
    limit: nat,
    key: CacheKey,
    handle: isize,
)
    requires
        limit > 0,
        entries.len() <= limit,
        distinct_keys(entries),
    ensures
        entries_after_put(entries, limit, key, handle).len() <= limit,
        distinct_keys(entries_after_put(entries, limit, key, handle)),
        entries_after_put(entries, limit, key, handle)[0] == (key, handle),
        lookup(entries_after_put(entries, limit, key, handle), key) == Some(handle),
{
    let after = entries_after_put(entries, limit, key, handle);
    let rest = after.subrange(1, after.len() as int);
    assert(after[0] == (key, handle));
    if has_key(entries, key) {
        let at = key_index(entries, key);
        assert(rest =~= entries.remove(at));
        assert forall|i: int| 0 <= i < rest.len() implies (#[trigger] rest[i]).0 != key by {
            if i < at {
                assert(rest[i] == entries[i]);
            } else {
                assert(rest[i] == entries[i + 1]);
            }
        }
        assert forall|i: int, j: int| 0 <= i < j < rest.len() implies (#[trigger] rest[i]).0 != (
        #[trigger] rest[j]).0 by {
            let a = if i < at { i } else { i + 1 };
            let b = if j < at { j } else { j + 1 };
            assert(rest[i] == entries[a]);
            assert(rest[j] == entries[b]);
        }
    } else if entries.len() == limit {
        assert(rest =~= entries.drop_last());
        assert forall|i: int| 0 <= i < rest.len() implies (#[trigger] rest[i]).0 != key by {
            assert(rest[i] == entries[i]);
        }
    } else {
        assert(rest =~= entries);
    }
    assert forall|i: int, j: int| 0 <= i < j < after.len() implies (#[trigger] after[i]).0 != (
    #[trigger] after[j]).0 by {
        assert(after[j] == rest[j - 1]);
        if i > 0 {
            assert(after[i] == rest[i - 1]);
        }
    }
    assert(has_key(after, key));
    let found = key_index(after, key);
    if found != 0 {
        assert(after[0].0 != after[found].0);
    }
}

/// Storing a thumbnail under a new key in a full cache evicts the least
/// recently used entry and no other: the entries before it move one place
/// back in the order of use.
pub proof fn lemma_full_cache_evicts_least_recent(
    entries: Seq<(CacheKey, isize)>,
    limit: nat,
    key: CacheKey,
    handle: isize,
)
    requires
        limit > 0,
        entries.len() == limit,
        distinct_keys(entries),
        !has_key(entries, key),
    ensures
        entries_after_put(entries, limit, key, handle).len() == limit,
        !has_key(entries_after_put(entries, limit, key, handle), entries.last().0),
        forall|i: int|
            0 <= i < limit - 1 ==> #[trigger] entries_after_put(entries, limit, key, handle)[i + 1]
                == entries[i],
{
    let after = entries_after_put(entries, limit, key, handle);
    let gone = entries.last().0;
    assert(entries[limit - 1].0 == gone);
    assert forall|i: int| 0 <= i < after.len() implies (#[trigger] after[i]).0 != gone by {
        if i == 0 {
            if key == gone {
                assert(has_key(entries, key));
            }
        } else {
            assert(after[i] == entries[i - 1]);
        }
    }
}

/// The entries after a run of thumbnails was stored, the first of the run
/// first.
pub open spec fn entries_after_puts(
    entries: Seq<(CacheKey, isize)>,
    limit: nat,
    puts: Seq<(CacheKey, isize)>,
) -> Seq<(CacheKey, isize)>
    decreases puts.len(),
{
    if puts.len() == 0 {
        entries
    } else {
        entries_after_put(
            entries_after_puts(entries, limit, puts.drop_last()),
            limit,
            puts.last().0,
            puts.last().1,
        )
    }
}

/// The last `limit` thumbnails of a run, the newest first.
pub open spec fn newest_first(puts: Seq<(CacheKey, isize)>, limit: nat) -> Seq<(CacheKey, isize)> {
    Seq::new(
        if puts.len() <= limit {
            puts.len()
        } else {
            limit
        },
        |i: int| puts[puts.len() - 1 - i],
    )
}

/// Storing thumbnails under distinct keys into an empty cache leaves the
/// newest of them, as many as the limit allows: whatever exceeds the limit
/// is evicted oldest first.
pub proof fn lemma_distinct_puts_keep_newest(limit: nat, puts: Seq<(CacheKey, isize)>)
    requires
        limit > 0,
        distinct_keys(puts),
    ensures
        entries_after_puts(Seq::<(CacheKey, isize)>::empty(), limit, puts) == newest_first(
            puts,
            limit,
        ),
    decreases puts.len(),
{
    let empty = Seq::<(CacheKey, isize)>::empty();
    if puts.len() == 0 {
        assert(newest_first(puts, limit) =~= empty);
    } else {
        let earlier = puts.drop_last();
        assert forall|i: int, j: int| 0 <= i < j < earlier.len() implies (#[trigger] earlier[i]).0
            != (#[trigger] earlier[j]).0 by {
            assert(earlier[i] == puts[i]);
            assert(earlier[j] == puts[j]);
        }
        lemma_distinct_puts_keep_newest(limit, earlier);
        let before = newest_first(earlier, limit);
        let key = puts.last().0;
        let handle = puts.last().1;
        assert(entries_after_puts(empty, limit, earlier) == before);
        assert forall|i: int| 0 <= i < before.len() implies (#[trigger] before[i]).0 != key by {
            assert(before[i] == puts[earlier.len() - 1 - i]);
            assert(puts[puts.len() - 1].0 == key);
        }
        assert(!has_key(before, key));
        assert(entries_after_put(before, limit, key, handle) =~= newest_first(puts, limit));
    }
}

} // verus!
