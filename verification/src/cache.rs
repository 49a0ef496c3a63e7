//! The cache of file contents: a bounded collection that forgets what was not used for a while.
//!
//! A cache is seen as the sequence of its entries, from the one used longest ago to the one used
//! last. Entries whose time is over stand at the front of that sequence; when they go depends on
//! the clock, so the contracts here leave open how many of them go.

use lru_time_cache::LruCache;
use vstd::prelude::*;

verus! {

/// The longest time, in seconds, that a cache may be made to keep an entry.
pub const MAX_TTL_SECS: u64 = 0x10000;

/// The largest number of entries that a cache may be made for.
pub const MAX_CAPACITY: usize = 0x10000;

/// A file and the content that is remembered of it.
pub type Entry = (Seq<char>, Seq<u8>);

/// The content remembered of the file `key`, if any is.
pub open spec fn lookup(entries: Seq<Entry>, key: Seq<char>) -> Option<Seq<u8>>
    decreases entries.len(),
{
    if entries.len() == 0 {
        None
    } else if entries.last().0 == key {
        Some(entries.last().1)
    } else {
        lookup(entries.drop_last(), key)
    }
}

/// The entries but for that of the file `key`.
pub open spec fn without(entries: Seq<Entry>, key: Seq<char>) -> Seq<Entry> {
    entries.filter(|e: Entry| e.0 != key)
}

/// The entries after a successful or vain search for the file `key`, when the first `expired`
/// entries had to go: what was found is now the entry used last.
pub open spec fn touched(entries: Seq<Entry>, key: Seq<char>, expired: int) -> Seq<Entry> {
    match lookup(entries.skip(expired), key) {
        Some(value) => without(entries.skip(expired), key).push((key, value)),
        None => entries.skip(expired),
    }
}

/// The entries that stay when one more is to be added: those used last, one fewer than the
/// capacity.
pub open spec fn with_room(entries: Seq<Entry>, capacity: int) -> Seq<Entry> {
    if entries.len() >= capacity {
        entries.skip(entries.len() - capacity + 1)
    } else {
        entries
    }
}

/// The entries after `value` was stored for the file `key`. A file that had an entry has its
/// entry replaced; for another, the first `expired` entries go, and then as many as are needed
/// to make room.
pub open spec fn stored(
    entries: Seq<Entry>,
    key: Seq<char>,
    value: Seq<u8>,
    capacity: int,
    expired: int,
) -> Seq<Entry> {
    match lookup(entries, key) {
        Some(_) => without(entries, key).push((key, value)),
        None => with_room(entries.skip(expired), capacity).push((key, value)),
    }
}

/// Whether no file has two entries.
pub open spec fn distinct(entries: Seq<Entry>) -> bool {
    forall|i: int, j: int|
        0 <= i < j < entries.len() ==> (#[trigger] entries[i]).0 != (#[trigger] entries[j]).0
}

/// Whether the entries are such that a cache of this capacity can hold them.
pub open spec fn bounded(entries: Seq<Entry>, capacity: int) -> bool {
    distinct(entries) && entries.len() <= capacity
}

/// A file has an entry if and only if something is remembered of it.
proof fn lemma_lookup(entries: Seq<Entry>, key: Seq<char>)
    ensures
        lookup(entries, key) is Some <==> exists|i: int|
            0 <= i < entries.len() && (#[trigger] entries[i]).0 == key,
    decreases entries.len(),
{
    if entries.len() > 0 {
        let front = entries.drop_last();
        lemma_lookup(front, key);
        assert(entries.last() == entries[entries.len() - 1]);
        assert forall|i: int| 0 <= i < front.len() implies front[i] == #[trigger] entries[i] by {}
        if lookup(front, key) is Some {
            let i = choose|i: int| 0 <= i < front.len() && (#[trigger] front[i]).0 == key;
            assert(entries[i].0 == key);
        }
        if lookup(entries, key) is None {
            assert forall|i: int| 0 <= i < entries.len() implies (#[trigger] entries[i]).0
                != key by {
                if i < front.len() {
                    assert(front[i].0 != key);
                }
            }
        }
    }
}

/// What is remembered after the first entries went was remembered before.
pub(crate) proof fn lemma_lookup_skip(entries: Seq<Entry>, key: Seq<char>, n: int)
    requires
        0 <= n <= entries.len(),
    ensures
        lookup(entries.skip(n), key) is Some ==> lookup(entries, key) == lookup(
            entries.skip(n),
            key,
        ),
    decreases entries.len(),
{
    if n < entries.len() {
        assert(entries.skip(n).last() == entries.last());
        assert(entries.skip(n).drop_last() =~= entries.drop_last().skip(n));
        lemma_lookup_skip(entries.drop_last(), key, n);
    }
}

/// The entries without that of one file: nothing else changes.
proof fn lemma_without(entries: Seq<Entry>, key: Seq<char>, other: Seq<char>)
    ensures
        lookup(without(entries, key), key) is None,
        other != key ==> lookup(without(entries, key), other) == lookup(entries, other),
        without(entries, key).len() <= entries.len(),
        lookup(entries, key) is Some ==> without(entries, key).len() < entries.len(),
        distinct(entries) ==> distinct(without(entries, key)),
    decreases entries.len(),
{
    reveal(Seq::filter);
    if entries.len() > 0 {
        let front = entries.drop_last();
        lemma_without(front, key, other);
        if entries.last().0 != key {
            assert(without(entries, key) == without(front, key).push(entries.last()));
            assert(without(entries, key).drop_last() =~= without(front, key));
            if distinct(entries) {
                lemma_lookup(front, entries.last().0);
                lemma_without(front, key, entries.last().0);
                lemma_lookup(without(front, key), entries.last().0);
                assert forall|i: int, j: int|
                    0 <= i < j < without(entries, key).len() implies (
                #[trigger] without(entries, key)[i]).0 != (
                #[trigger] without(entries, key)[j]).0 by {
                    assert(without(entries, key)[i] == without(front, key)[i]);
                }
            }
        } else {
            assert(without(entries, key) == without(front, key));
        }
    }
}

/// Putting an entry of a file that has none at the end keeps the entries distinct.
proof fn lemma_push(entries: Seq<Entry>, key: Seq<char>, value: Seq<u8>)
    requires
        lookup(entries, key) is None,
        distinct(entries),
    ensures
        distinct(entries.push((key, value))),
{
    lemma_lookup(entries, key);
}

/// A search keeps a cache within its bounds, and changes nothing that is remembered: what it
/// does not drop stays.
pub proof fn law_search_keeps_the_cache(
    entries: Seq<Entry>,
    key: Seq<char>,
    expired: int,
    capacity: int,
    other: Seq<char>,
)
    requires
        bounded(entries, capacity),
        0 <= expired <= entries.len(),
    ensures
        bounded(touched(entries, key, expired), capacity),
        lookup(touched(entries, key, expired), other) == lookup(entries.skip(expired), other),
        lookup(touched(entries, key, expired), other) matches Some(v) ==> lookup(entries, other)
            == Some(v),
{
    let live = entries.skip(expired);
    lemma_lookup_skip(entries, other, expired);
    lemma_without(live, key, other);
    if let Some(value) = lookup(live, key) {
        lemma_push(without(live, key), key, value);
        assert(without(live, key).push((key, value)).drop_last() =~= without(live, key));
    }
}

/// Storing keeps a cache within its bounds.
pub proof fn law_storing_keeps_the_bounds(
    entries: Seq<Entry>,
    key: Seq<char>,
    value: Seq<u8>,
    capacity: int,
    expired: int,
)
    requires
        bounded(entries, capacity),
        0 < capacity,
        0 <= expired <= entries.len(),
    ensures
        bounded(stored(entries, key, value, capacity, expired), capacity),
{
    if lookup(entries, key) is Some {
        lemma_without(entries, key, key);
        lemma_push(without(entries, key), key, value);
    } else {
        let room = with_room(entries.skip(expired), capacity);
        lemma_lookup(entries, key);
        lemma_lookup(room, key);
        lemma_push(room, key, value);
    }
}

/// A cache that stored a content for a file gives that content for it, and none other, for as
/// long as it gives any.
pub proof fn law_cache_gives_what_was_stored(
    entries: Seq<Entry>,
    key: Seq<char>,
    value: Seq<u8>,
    capacity: int,
    expired: int,
    later: int,
)
    requires
        0 < capacity,
        0 <= expired <= entries.len(),
        0 <= later <= stored(entries, key, value, capacity, expired).len(),
    ensures
        lookup(stored(entries, key, value, capacity, expired), key) == Some(value),
        lookup(stored(entries, key, value, capacity, expired).skip(later), key) matches Some(v)
            ==> v == value,
{
    lemma_lookup_skip(stored(entries, key, value, capacity, expired), key, later);
}

/// Storing a content for one file changes nothing for another: what is remembered of any other
/// file was remembered before.
pub proof fn law_storing_changes_no_other_file(
    entries: Seq<Entry>,
    key: Seq<char>,
    value: Seq<u8>,
    capacity: int,
    expired: int,
    other: Seq<char>,
)
    requires
        0 < capacity,
        0 <= expired <= entries.len(),
        other != key,
    ensures
        lookup(stored(entries, key, value, capacity, expired), other) matches Some(v) ==> lookup(
            entries,
            other,
        ) == Some(v),
{
    if lookup(entries, key) is Some {
        lemma_without(entries, key, other);
        assert(without(entries, key).push((key, value)).drop_last() =~= without(entries, key));
    } else {
        let live = entries.skip(expired);
        let room = with_room(live, capacity);
        assert(room.push((key, value)).drop_last() =~= room);
        lemma_lookup_skip(entries, other, expired);
        if live.len() >= capacity {
            lemma_lookup_skip(live, other, live.len() - capacity + 1);
        }
    }
}

/// The entry used last is not the one that makes room: unless its time is over, it is still
/// there after a content was stored for another file.
pub proof fn law_entry_used_last_stays(
    entries: Seq<Entry>,
    key: Seq<char>,
    value: Seq<u8>,
    capacity: int,
    expired: int,
)
    requires
        bounded(entries, capacity),
        1 < capacity,
        0 <= expired < entries.len(),
        entries.last().0 != key,
    ensures
        lookup(stored(entries, key, value, capacity, expired), entries.last().0) == Some(
            entries.last().1,
        ),
{
    let last = entries.last();
    if lookup(entries, key) is Some {
        lemma_without(entries, key, last.0);
        assert(lookup(entries, last.0) == Some(last.1));
        assert(without(entries, key).push((key, value)).drop_last() =~= without(entries, key));
    } else {
        let room = with_room(entries.skip(expired), capacity);
        assert(room.push((key, value)).drop_last() =~= room);
        assert(room.last() == last);
        assert(lookup(room, last.0) == Some(last.1));
    }
}

/// A file whose entry was taken out has none, and every other file has what it had.
pub proof fn law_removed_entry_is_gone(
    entries: Seq<Entry>,
    key: Seq<char>,
    other: Seq<char>,
    capacity: int,
)
    requires
        bounded(entries, capacity),
    ensures
        lookup(without(entries, key), key) is None,
        other != key ==> lookup(without(entries, key), other) == lookup(entries, other),
        bounded(without(entries, key), capacity),
{
    lemma_without(entries, key, other);
}

/// `LruCache`, declared. What one of them holds is told by [`cache_entries`].
#[verifier::external_type_specification]
#[verifier::external_body]
#[verifier::reject_recursive_types(Key)]
#[verifier::reject_recursive_types(Value)]
pub struct ExLruCache<Key, Value>(LruCache<Key, Value>);

/// The entries of a cache, from the one used longest ago to the one used last. Those whose time
/// is over count as long as they were not dropped.
pub uninterp spec fn cache_entries(cache: LruCache<String, Vec<u8>>) -> Seq<(Seq<char>, Seq<u8>)>;

/// How many entries the cache was made for.
pub uninterp spec fn cache_capacity(cache: LruCache<String, Vec<u8>>) -> int;

/// After how many seconds without use the cache was made to drop an entry.
pub uninterp spec fn cache_ttl_secs(cache: LruCache<String, Vec<u8>>) -> int;

/// `LruCache::with_expiry_duration_and_capacity` makes a cache that is empty and has the limits
/// that it is given. Kept out: a capacity of zero, with which the first insertion panics, one so
/// large that the room for it cannot be had, and a time so long that it cannot be added to the
/// clock.
#[verifier::external_body]
pub(crate) fn new_cache(ttl_secs: u64, capacity: usize) -> (r: LruCache<String, Vec<u8>>)
    requires
        ttl_secs <= MAX_TTL_SECS,
        0 < capacity <= MAX_CAPACITY,
    ensures
        cache_entries(r) == Seq::<(Seq<char>, Seq<u8>)>::empty(),
        cache_capacity(r) == capacity,
        cache_ttl_secs(r) == ttl_secs,
{
    let ttl = std::time::Duration::from_secs(ttl_secs);
    LruCache::with_expiry_duration_and_capacity(ttl, capacity)
}

/// `LruCache::get` drops the entries whose time is over, which are the first ones, as many as the
/// clock says. Among the others it gives the content remembered of the file, if there is any, and
/// makes that entry the one used last. Kept out: a time so long that it cannot be added to the
/// clock.
#[verifier::external_body]
pub(crate) fn cache_get<'a>(cache: &'a mut LruCache<String, Vec<u8>>, key: &str) -> (r: Option<
    &'a Vec<u8>,
>)
    requires
        cache_ttl_secs(*old(cache)) <= MAX_TTL_SECS,
    ensures
        exists|expired: int|
            {
                &&& 0 <= expired <= cache_entries(*old(cache)).len()
                &&& cache_entries(*final(cache)) == #[trigger] touched(
                    cache_entries(*old(cache)),
                    key@,
                    expired,
                )
                &&& match r {
                    Some(v) => lookup(cache_entries(*old(cache)).skip(expired), key@) == Some(v@),
                    None => lookup(cache_entries(*old(cache)).skip(expired), key@) is None,
                }
            },
        cache_capacity(*final(cache)) == cache_capacity(*old(cache)),
        cache_ttl_secs(*final(cache)) == cache_ttl_secs(*old(cache)),
{
    cache.get(key)
}

/// `LruCache::insert` stores a content for a file and gives the one that it replaces. For a file
/// that had no entry it first drops the entries whose time is over, which are the first ones, as
/// many as the clock says, and then as many more of the first ones as leave room for one. Kept
/// out: a capacity of zero, with which it panics, and a time so long that it cannot be added to
/// the clock.
#[verifier::external_body]
pub(crate) fn cache_insert(
    cache: &mut LruCache<String, Vec<u8>>,
    key: String,
    value: Vec<u8>,
) -> (r: Option<Vec<u8>>)
    requires
        cache_capacity(*old(cache)) > 0,
        cache_ttl_secs(*old(cache)) <= MAX_TTL_SECS,
    ensures
        exists|expired: int|
            {
                &&& 0 <= expired <= cache_entries(*old(cache)).len()
                &&& cache_entries(*final(cache)) == #[trigger] stored(
                    cache_entries(*old(cache)),
                    key@,
                    value@,
                    cache_capacity(*old(cache)),
                    expired,
                )
            },
        match r {
            Some(v) => lookup(cache_entries(*old(cache)), key@) == Some(v@),
            None => lookup(cache_entries(*old(cache)), key@) is None,
        },
        cache_capacity(*final(cache)) == cache_capacity(*old(cache)),
        cache_ttl_secs(*final(cache)) == cache_ttl_secs(*old(cache)),
{
    cache.insert(key, value)
}

/// `LruCache::remove` takes out the entry of a file, whether or not its time is over, and gives
/// the content that was remembered.
#[verifier::external_body]
pub(crate) fn cache_remove(cache: &mut LruCache<String, Vec<u8>>, key: &str) -> (r: Option<Vec<u8>>)
    ensures
        cache_entries(*final(cache)) == without(cache_entries(*old(cache)), key@),
        match r {
            Some(v) => lookup(cache_entries(*old(cache)), key@) == Some(v@),
            None => lookup(cache_entries(*old(cache)), key@) is None,
        },
        cache_capacity(*final(cache)) == cache_capacity(*old(cache)),
        cache_ttl_secs(*final(cache)) == cache_ttl_secs(*old(cache)),
{
    cache.remove(key)
}

/// What is remembered of a file is what stands in its entry, the last one if there are several,
/// and nothing if there is none.
pub proof fn law_lookup(entries: Seq<Entry>, key: Seq<char>, i: int)
    ensures
        0 <= i < entries.len() && entries[i].0 == key && (forall|j: int|
            i < j < entries.len() ==> (#[trigger] entries[j]).0 != key) ==> lookup(entries, key)
            == Some(entries[i].1),
        (forall|j: int| 0 <= j < entries.len() ==> (#[trigger] entries[j]).0 != key) ==> lookup(
            entries,
            key,
        ) is None,
    decreases entries.len(),
{
    lemma_lookup(entries, key);
    if entries.len() > 0 && 0 <= i < entries.len() && entries[i].0 == key && (forall|j: int|
        i < j < entries.len() ==> (#[trigger] entries[j]).0 != key) {
        if i < entries.len() - 1 {
            assert(entries[entries.len() - 1].0 != key);
            let front = entries.drop_last();
            assert forall|j: int| i < j < front.len() implies (#[trigger] front[j]).0 != key by {
                assert(front[j] == entries[j]);
            }
            law_lookup(front, key, i);
        }
    }
}

/// Taking out the entry of a file goes through the entries one by one: those of other files stay,
/// in order, and that of the file goes.
pub proof fn law_without(entries: Seq<Entry>, key: Seq<char>, entry: Entry)
    ensures
        without(Seq::empty(), key) == Seq::<Entry>::empty(),
        entry.0 == key ==> without(entries.push(entry), key) == without(entries, key),
        entry.0 != key ==> without(entries.push(entry), key) == without(entries, key).push(entry),
{
    reveal(Seq::filter);
    assert(entries.push(entry).drop_last() =~= entries);
}

/// A search that finds something makes it the entry used last, and one that finds nothing leaves
/// the entries alone; the first `expired` entries are gone either way.
pub proof fn law_search(entries: Seq<Entry>, key: Seq<char>, expired: int)
    requires
        0 <= expired <= entries.len(),
    ensures
        lookup(entries.skip(expired), key) is None ==> touched(entries, key, expired)
            == entries.skip(expired),
        lookup(entries.skip(expired), key) matches Some(value) ==> touched(entries, key, expired)
            == without(entries.skip(expired), key).push((key, value)),
{
}

/// Storing a content for a file that has an entry replaces that entry and drops none.
pub proof fn law_storing_again(
    entries: Seq<Entry>,
    key: Seq<char>,
    value: Seq<u8>,
    capacity: int,
    expired: int,
)
    requires
        lookup(entries, key) is Some,
    ensures
        stored(entries, key, value, capacity, expired) == without(entries, key).push((key, value)),
{
}

/// Storing a content for a file that has no entry puts it last. Before it stay the entries that
/// did not expire: all of them, or as many of those used last as leave room for one.
pub proof fn law_storing_anew(
    entries: Seq<Entry>,
    key: Seq<char>,
    value: Seq<u8>,
    capacity: int,
    expired: int,
    i: int,
)
    requires
        lookup(entries, key) is None,
        0 < capacity,
        0 <= expired <= entries.len(),
    ensures
        ({
            let live = entries.len() - expired;
            let kept = if live < capacity {
                live
            } else {
                capacity - 1
            };
            let after = stored(entries, key, value, capacity, expired);
            &&& after.len() == kept + 1
            &&& after.last() == (key, value)
            &&& 0 <= i < kept ==> after[i] == entries[entries.len() - kept + i]
        }),
{
}

} // verus!
