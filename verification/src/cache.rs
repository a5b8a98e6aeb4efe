//! The feeds that users own, and the cache of them.

use crate::listing;
use crate::sql::{self, Feed};
use std::collections::BTreeMap;
use std::time::Duration;
use ttl_cache::TtlCache;
use vstd::prelude::*;

verus! {

/// The feeds of one user: the name of the channel under the number of the source.
pub type FeedList = BTreeMap<i32, String>;

/// A [`FeedList`] as characters.
pub open spec fn feed_map(feeds: Map<i32, String>) -> Map<i32, Seq<char>> {
    feeds.map_values(|s: String| s@)
}

/// The order of source numbers.
pub open spec fn by_number() -> spec_fn(i32, i32) -> bool {
    |a: i32, b: i32| a < b
}

/// The feeds of one user in ascending order of their numbers.
pub open spec fn feed_listing(feeds: Map<i32, Seq<char>>) -> Seq<(i32, Seq<char>)> {
    listing::listing(feeds, by_number())
}

/// A list of feeds as characters.
pub open spec fn feed_rows(rows: Seq<(i32, String)>) -> Seq<(i32, Seq<char>)> {
    rows.map_values(|r: (i32, String)| (r.0, r.1@))
}

/// The feeds of one user in ascending order of their numbers.
pub fn feed_entries(feeds: &FeedList) -> (r: Vec<(i32, String)>)
    ensures
        feed_rows(r@) == feed_listing(feed_map(feeds@)),
        r@.len() == feeds@.len(),
        listing::is_listing(feed_rows(r@), feed_map(feeds@), by_number()),
{
    let mut out: Vec<(i32, String)> = Vec::new();
    let iter = feeds.iter();
    let ghost all = vstd::std_specs::iter::IteratorSpec::remaining(&iter);
    let ghost keys = all.map_values(|kv: (&i32, &String)| *kv.0);
    assert(vstd::std_specs::btree::increasing_seq(keys));
    for entry in it: iter
        invariant
            it.seq() == all,
            out@.len() == it.index(),
            forall|i: int|
                0 <= i < out@.len() ==> #[trigger] out@[i] == (*all[i].0, *all[i].1),
    {
        out.push((*entry.0, entry.1.clone()));
    }
    proof {
        let list = feed_rows(out@);
        let map = feed_map(feeds@);
        assert(all == vstd::std_specs::iter::IteratorSpec::remaining(
            &vstd::std_specs::btree::spec_btree_map_iter(feeds),
        ));
        assert forall|i: int, j: int| 0 <= i < j < list.len() implies by_number()(
            (#[trigger] list[i]).0,
            (#[trigger] list[j]).0,
        ) by {
            assert(vstd::std_specs::cmp::OrdSpec::cmp_spec(&keys[i], &keys[j]) is Less);
        }
        assert forall|i: int| 0 <= i < list.len() implies map.contains_key((#[trigger] list[i]).0)
            && map[list[i].0] == list[i].1 by {
            assert(feeds@.contains_key(*all[i].0));
        }
        assert forall|k: i32| #[trigger] map.contains_key(k) implies exists|i: int|
            0 <= i < list.len() && (#[trigger] list[i]).0 == k by {
            assert(feeds@.contains_key(k));
            assert(all.contains((&k, &feeds@[k])));
            let i = choose|i: int| 0 <= i < all.len() && all[i] == (&k, &feeds@[k]);
            assert(list[i].0 == k);
        }
        listing::listing_is(list, map, by_number());
    }
    out
}

/// The outside type `ttl_cache::TtlCache`.
#[verifier::external_type_specification]
#[verifier::external_body]
#[verifier::reject_recursive_types(K)]
#[verifier::reject_recursive_types(V)]
#[verifier::reject_recursive_types(S)]
pub struct ExTtlCache<K: Eq + std::hash::Hash, V, S: std::hash::BuildHasher>(TtlCache<K, V, S>);

/// The lists of feeds that were asked for lately, by their owners.
pub type UserCache = TtlCache<i64, FeedList>;

/// What a cache holds, the entry that was stored first in front: the owners and their feeds. Entries
/// that are too old to be handed out are still held.
pub uninterp spec fn cached(cache: UserCache) -> Seq<(i64, Map<i32, Seq<char>>)>;

/// How many entries a cache holds at most.
pub uninterp spec fn cache_limit(cache: UserCache) -> nat;

/// The entries of a cache but for that of one owner.
pub open spec fn without(
    entries: Seq<(i64, Map<i32, Seq<char>>)>,
    owner: i64,
) -> Seq<(i64, Map<i32, Seq<char>>)>
    decreases entries.len(),
{
    if entries.len() == 0 {
        entries
    } else {
        let front = without(entries.drop_last(), owner);
        if entries.last().0 == owner {
            front
        } else {
            front.push(entries.last())
        }
    }
}

/// The entries of a cache after one was stored: it takes the place of an older one of the same
/// owner and is the youngest, and where there are more than the limit the oldest one leaves.
pub open spec fn stored(
    entries: Seq<(i64, Map<i32, Seq<char>>)>,
    limit: nat,
    owner: i64,
    feeds: Map<i32, Seq<char>>,
) -> Seq<(i64, Map<i32, Seq<char>>)> {
    let all = without(entries, owner).push((owner, feeds));
    if all.len() > limit {
        all.skip(1)
    } else {
        all
    }
}

/// `ttl_cache::TtlCache::new`: an empty cache with this limit.
#[verifier::external_body]
pub(crate) fn cache_new(limit: usize) -> (r: UserCache)
    ensures
        cached(r) == Seq::<(i64, Map<i32, Seq<char>>)>::empty(),
        cache_limit(r) == limit,
{
    TtlCache::new(limit)
}

/// `ttl_cache::TtlCache::get`: the entry of an owner. Nothing is found where there is no such entry,
/// or where its time is up; when that is the contract does not say, since it depends on the clock.
#[verifier::external_body]
pub(crate) fn cache_get(cache: &UserCache, owner: i64) -> (r: Option<&FeedList>)
    ensures
        match r {
            Some(feeds) => cached(*cache).contains((owner, feed_map(feeds@))),
            None => true,
        },
{
    cache.get(&owner)
}

/// Whether this is what looking for an owner in a cache finds. It is not told by the cache alone, since
/// it depends on the clock.
pub closed spec fn finds(cache: UserCache, owner: i64, found: Option<&FeedList>) -> bool {
    call_ensures(cache_get, (&cache, owner), found)
}

/// The feeds that are found in a cache for an owner: those of an entry of that owner, if any.
pub(crate) fn look_up(cache: &UserCache, owner: i64) -> (r: Option<&FeedList>)
    ensures
        finds(*cache, owner, r),
        r matches Some(feeds) ==> cached(*cache).contains((owner, feed_map(feeds@))),
{
    cache_get(cache, owner)
}

/// `ttl_cache::TtlCache::get_mut`: the entry of an owner, to be changed in its place. When an entry
/// is too old to be found the contract does not say, since it depends on the clock.
#[verifier::external_body]
pub(crate) fn cache_get_mut(cache: &mut UserCache, owner: i64) -> (r: Option<&mut FeedList>)
    ensures
        cache_limit(*final(cache)) == cache_limit(*old(cache)),
        match r {
            Some(feeds) => exists|i: int|
                {
                    &&& 0 <= i < cached(*old(cache)).len()
                    &&& #[trigger] cached(*old(cache))[i] == (owner, feed_map(feeds@))
                    &&& cached(*final(cache)) == cached(*old(cache)).update(
                        i,
                        (owner, feed_map(final(feeds)@)),
                    )
                },
            None => cached(*final(cache)) == cached(*old(cache)),
        },
{
    cache.get_mut(&owner)
}

/// `ttl_cache::TtlCache::insert`: stores the feeds of an owner for some seconds. How long they can
/// be found the contract does not say, since it depends on the clock. A time that reaches past what
/// the clock can show is left out here.
#[verifier::external_body]
pub(crate) fn cache_insert(cache: &mut UserCache, owner: i64, feeds: FeedList, seconds: u64)
    requires
        seconds <= u32::MAX,
    ensures
        cache_limit(*final(cache)) == cache_limit(*old(cache)),
        cached(*final(cache)) == stored(
            cached(*old(cache)),
            cache_limit(*old(cache)),
            owner,
            feed_map(feeds@),
        ),
{
    cache.insert(owner, feeds, Duration::from_secs(seconds));
}

/// How many users' feeds are cached at most.
pub const CACHE_LIMIT: usize = 10000;

/// How many seconds the feeds of a user are cached: three hours.
pub const CACHE_SECONDS: u64 = 10800;

/// Whether no owner has two entries.
pub open spec fn one_each(entries: Seq<(i64, Map<i32, Seq<char>>)>) -> bool {
    forall|i: int, j: int|
        0 <= i < j < entries.len() ==> (#[trigger] entries[i]).0 != (#[trigger] entries[j]).0
}

/// Whether a cache is in order: no owner has two entries, and there are not more than the limit.
pub open spec fn cache_wf(cache: UserCache) -> bool {
    &&& one_each(cached(cache))
    &&& cached(cache).len() <= cache_limit(cache)
    &&& cache_limit(cache) == CACHE_LIMIT
}

/// Whether the entry of one owner, and nothing else, is changed from one list of feeds to another.
pub open spec fn entry_changed(
    before: Seq<(i64, Map<i32, Seq<char>>)>,
    after: Seq<(i64, Map<i32, Seq<char>>)>,
    owner: i64,
    from: Map<i32, Seq<char>>,
    to: Map<i32, Seq<char>>,
) -> bool {
    exists|i: int|
        {
            &&& 0 <= i < before.len()
            &&& #[trigger] before[i] == (owner, from)
            &&& after == before.update(i, (owner, to))
        }
}

/// Whether a feed joins those that are cached for its owner, and nothing else changes.
pub open spec fn feed_added(
    before: Seq<(i64, Map<i32, Seq<char>>)>,
    after: Seq<(i64, Map<i32, Seq<char>>)>,
    owner: i64,
    source_id: i32,
    channel: Seq<char>,
) -> bool {
    exists|feeds: Map<i32, Seq<char>>, more: Map<i32, Seq<char>>|
        {
            &&& #[trigger] entry_changed(before, after, owner, feeds, more)
            &&& more == feeds.insert(source_id, channel)
        }
}

/// Whether a feed leaves those that are cached for its owner, and nothing else changes.
pub open spec fn feed_removed(
    before: Seq<(i64, Map<i32, Seq<char>>)>,
    after: Seq<(i64, Map<i32, Seq<char>>)>,
    owner: i64,
    source_id: i32,
) -> bool {
    exists|feeds: Map<i32, Seq<char>>, fewer: Map<i32, Seq<char>>|
        {
            &&& #[trigger] entry_changed(before, after, owner, feeds, fewer)
            &&& fewer == feeds.remove(source_id)
        }
}

/// The feeds in rows of the database: the last of several rows with one number counts.
pub open spec fn feeds_in(rows: Seq<sql::FeedView>) -> Map<i32, Seq<char>>
    decreases rows.len(),
{
    if rows.len() == 0 {
        Map::empty()
    } else {
        feeds_in(rows.drop_last()).insert(rows.last().source_id, rows.last().channel)
    }
}

/// Rows of the database as characters.
pub open spec fn row_views(rows: Seq<Feed>) -> Seq<sql::FeedView> {
    rows.map_values(|f: Feed| f@)
}

/// See [`feeds_in`].
pub fn collect_feeds(rows: Vec<Feed>) -> (r: FeedList)
    ensures
        feed_map(r@) == feeds_in(row_views(rows@)),
{
    let mut feeds: FeedList = BTreeMap::new();
    let ghost given = rows@;
    let ghost all = row_views(given);
    assert(all.take(0) =~= Seq::<sql::FeedView>::empty());
    assert(feed_map(feeds@) =~= Map::<i32, Seq<char>>::empty());
    for row in it: rows
        invariant
            it.seq() == given,
            all == row_views(given),
            feed_map(feeds@) == feeds_in(all.take(it.index())),
    {
        proof {
            let next = all.take(it.index() + 1);
            assert(next.drop_last() =~= all.take(it.index()));
            assert(next.last() == row@);
        }
        let ghost before = feeds@;
        feeds.insert(row.source_id, row.channel);
        assert(feed_map(feeds@) =~= feed_map(before).insert(row.source_id, row.channel@));
    }
    assert(all.take(all.len() as int) =~= all);
    feeds
}

proof fn without_is_the_rest(entries: Seq<(i64, Map<i32, Seq<char>>)>, owner: i64)
    ensures
        without(entries, owner).len() <= entries.len(),
        forall|i: int|
            0 <= i < without(entries, owner).len() ==> {
                &&& (#[trigger] without(entries, owner)[i]).0 != owner
                &&& entries.contains(without(entries, owner)[i])
            },
        one_each(entries) ==> one_each(without(entries, owner)),
        one_each(entries) && (exists|i: int|
            0 <= i < entries.len() && (#[trigger] entries[i]).0 == owner) ==> without(
            entries,
            owner,
        ).len() < entries.len(),
    decreases entries.len(),
{
    if entries.len() > 0 {
        let front = entries.drop_last();
        without_is_the_rest(front, owner);
        let rest = without(entries, owner);
        assert forall|i: int| 0 <= i < rest.len() implies {
            &&& (#[trigger] rest[i]).0 != owner
            &&& entries.contains(rest[i])
        } by {
            if i < without(front, owner).len() {
                assert(rest[i] == without(front, owner)[i]);
                let k = choose|k: int| 0 <= k < front.len() && front[k] == rest[i];
                assert(entries[k] == rest[i]);
            } else {
                assert(entries[entries.len() - 1] == rest[i]);
            }
        }
        if one_each(entries) {
            assert forall|i: int, j: int| 0 <= i < j < rest.len() implies (#[trigger] rest[i]).0 != (
            #[trigger] rest[j]).0 by {
                assert(rest[i] == without(front, owner)[i]);
                if j < without(front, owner).len() {
                    assert(rest[j] == without(front, owner)[j]);
                } else {
                    let k = choose|k: int| 0 <= k < front.len() && front[k] == rest[i];
                    assert(entries[k] == rest[i] && entries[entries.len() - 1] == rest[j]);
                }
            }
            if exists|i: int| 0 <= i < entries.len() && (#[trigger] entries[i]).0 == owner {
                let i = choose|i: int| 0 <= i < entries.len() && (#[trigger] entries[i]).0 == owner;
                if i < front.len() {
                    assert(front[i].0 == owner);
                }
            }
        }
    }
}

/// Storing an entry keeps a cache in order: no owner has two entries, there are not more than the
/// limit, and the new entry is there, the last to leave.
pub proof fn storing_keeps_order(
    entries: Seq<(i64, Map<i32, Seq<char>>)>,
    limit: nat,
    owner: i64,
    feeds: Map<i32, Seq<char>>,
)
    requires
        one_each(entries),
        entries.len() <= limit,
        limit > 0,
    ensures
        one_each(stored(entries, limit, owner, feeds)),
        0 < stored(entries, limit, owner, feeds).len() <= limit,
        stored(entries, limit, owner, feeds).last() == (owner, feeds),
{
    without_is_the_rest(entries, owner);
    let all = without(entries, owner).push((owner, feeds));
    assert(one_each(all));
    let kept = stored(entries, limit, owner, feeds);
    if all.len() > limit {
        assert forall|i: int, j: int| 0 <= i < j < kept.len() implies (#[trigger] kept[i]).0 != (
        #[trigger] kept[j]).0 by {
            assert(kept[i] == all[i + 1] && kept[j] == all[j + 1]);
        }
    }
}

proof fn without_keeps_the_others(entries: Seq<(i64, Map<i32, Seq<char>>)>, owner: i64)
    ensures
        forall|i: int|
            0 <= i < entries.len() && (#[trigger] entries[i]).0 != owner ==> without(
                entries,
                owner,
            ).contains(entries[i]),
        entries.len() > 0 && entries[0].0 != owner ==> without(entries, owner).len() > 0 && without(
            entries,
            owner,
        )[0] == entries[0],
    decreases entries.len(),
{
    if entries.len() > 0 {
        let front = entries.drop_last();
        without_keeps_the_others(front, owner);
        let rest = without(entries, owner);
        assert forall|i: int| 0 <= i < entries.len() && (#[trigger] entries[i]).0 != owner implies
            rest.contains(entries[i]) by {
            if i < front.len() {
                assert(front[i] == entries[i]);
                let k = choose|k: int|
                    0 <= k < without(front, owner).len() && without(front, owner)[k] == entries[i];
                assert(rest[k] == entries[i]);
            } else {
                assert(rest[rest.len() - 1] == entries[i]);
            }
        }
        if front.len() > 0 {
            assert(front[0] == entries[0]);
        }
    }
}

/// Storing an entry leaves those of other owners where they are, but for the oldest one, which leaves
/// where the cache is full.
pub proof fn storing_keeps_the_others(
    entries: Seq<(i64, Map<i32, Seq<char>>)>,
    limit: nat,
    owner: i64,
    feeds: Map<i32, Seq<char>>,
)
    requires
        one_each(entries),
        entries.len() <= limit,
        limit > 0,
    ensures
        forall|i: int|
            {
                &&& (#[trigger] entries[i]).0 != owner
                &&& 0 <= i < entries.len()
                &&& i > 0 || entries.len() < limit
            } ==> stored(entries, limit, owner, feeds).contains(entries[i]),
{
    without_is_the_rest(entries, owner);
    without_keeps_the_others(entries, owner);
    let rest = without(entries, owner);
    let all = rest.push((owner, feeds));
    let kept = stored(entries, limit, owner, feeds);
    assert forall|i: int|
        {
            &&& (#[trigger] entries[i]).0 != owner
            &&& 0 <= i < entries.len()
            &&& i > 0 || entries.len() < limit
        } implies kept.contains(entries[i]) by {
        assert(rest.contains(entries[i]));
        let k = choose|k: int| 0 <= k < rest.len() && rest[k] == entries[i];
        assert(all[k] == entries[i]);
        if all.len() > limit {
            assert(rest.len() == entries.len());
            if entries[0].0 == owner {
                assert(exists|j: int| 0 <= j < entries.len() && (#[trigger] entries[j]).0 == owner);
            }
            assert(rest[0] == entries[0]);
            assert(entries[0].0 != entries[i].0);
            assert(kept[k - 1] == all[k]);
        }
    }
}

/// Changing the feeds of one owner keeps a cache in order.
pub proof fn changing_keeps_order(
    before: Seq<(i64, Map<i32, Seq<char>>)>,
    after: Seq<(i64, Map<i32, Seq<char>>)>,
    owner: i64,
    from: Map<i32, Seq<char>>,
    to: Map<i32, Seq<char>>,
)
    requires
        entry_changed(before, after, owner, from, to),
    ensures
        one_each(before) ==> one_each(after),
        after.len() == before.len(),
{
    if one_each(before) {
        assert forall|j: int, k: int| 0 <= j < k < after.len() implies (#[trigger] after[j]).0 != (
        #[trigger] after[k]).0 by {
            assert(after[j].0 == before[j].0 && after[k].0 == before[k].0);
        }
    }
}

/// Whether everything that is cached is what the database holds.
pub open spec fn coherent(
    entries: Seq<(i64, Map<i32, Seq<char>>)>,
    db: spec_fn(i64) -> Map<i32, Seq<char>>,
) -> bool {
    forall|i: int| 0 <= i < entries.len() ==> (#[trigger] entries[i]).1 == db(entries[i].0)
}

/// Whether two states of the database differ in the feeds of one owner at most.
pub open spec fn same_but_for(
    before: spec_fn(i64) -> Map<i32, Seq<char>>,
    after: spec_fn(i64) -> Map<i32, Seq<char>>,
    owner: i64,
) -> bool {
    forall|o: i64| o != owner ==> #[trigger] after(o) == before(o)
}

proof fn changing_keeps_coherence(
    before: Seq<(i64, Map<i32, Seq<char>>)>,
    after: Seq<(i64, Map<i32, Seq<char>>)>,
    owner: i64,
    from: Map<i32, Seq<char>>,
    to: Map<i32, Seq<char>>,
    db: spec_fn(i64) -> Map<i32, Seq<char>>,
    later: spec_fn(i64) -> Map<i32, Seq<char>>,
)
    requires
        one_each(before),
        coherent(before, db),
        entry_changed(before, after, owner, from, to),
        same_but_for(db, later, owner),
        db(owner) == from ==> later(owner) == to,
    ensures
        coherent(after, later),
{
    let i = choose|i: int|
        {
            &&& 0 <= i < before.len()
            &&& #[trigger] before[i] == (owner, from)
            &&& after == before.update(i, (owner, to))
        };
    assert forall|j: int| 0 <= j < after.len() implies (#[trigger] after[j]).1 == later(
        after[j].0,
    ) by {
        if j != i {
            assert(after[j] == before[j]);
        }
    }
}

/// A cache that agrees with the database still does when the feeds of one owner were changed there
/// and were then loaded from there.
pub proof fn loading_keeps_coherence(
    before: Seq<(i64, Map<i32, Seq<char>>)>,
    limit: nat,
    owner: i64,
    db: spec_fn(i64) -> Map<i32, Seq<char>>,
    later: spec_fn(i64) -> Map<i32, Seq<char>>,
)
    requires
        coherent(before, db),
        same_but_for(db, later, owner),
    ensures
        coherent(stored(before, limit, owner, later(owner)), later),
{
    without_is_the_rest(before, owner);
    let rest = without(before, owner);
    let all = rest.push((owner, later(owner)));
    assert forall|i: int| 0 <= i < all.len() implies (#[trigger] all[i]).1 == later(all[i].0) by {
        if i < rest.len() {
            assert(all[i] == rest[i]);
            let k = choose|k: int| 0 <= k < before.len() && before[k] == rest[i];
            assert(before[k].1 == db(before[k].0));
        }
    }
    let kept = stored(before, limit, owner, later(owner));
    if all.len() > limit {
        assert forall|i: int| 0 <= i < kept.len() implies (#[trigger] kept[i]).1 == later(
            kept[i].0,
        ) by {
            assert(kept[i] == all[i + 1]);
        }
    }
}

/// A cache that agrees with the database still does when a feed was added to both.
pub proof fn adding_keeps_coherence(
    before: Seq<(i64, Map<i32, Seq<char>>)>,
    after: Seq<(i64, Map<i32, Seq<char>>)>,
    owner: i64,
    source_id: i32,
    channel: Seq<char>,
    db: spec_fn(i64) -> Map<i32, Seq<char>>,
    later: spec_fn(i64) -> Map<i32, Seq<char>>,
)
    requires
        one_each(before),
        coherent(before, db),
        feed_added(before, after, owner, source_id, channel),
        same_but_for(db, later, owner),
        later(owner) == db(owner).insert(source_id, channel),
    ensures
        coherent(after, later),
{
    let (feeds, more) = choose|feeds: Map<i32, Seq<char>>, more: Map<i32, Seq<char>>|
        {
            &&& #[trigger] entry_changed(before, after, owner, feeds, more)
            &&& more == feeds.insert(source_id, channel)
        };
    changing_keeps_coherence(before, after, owner, feeds, more, db, later);
}

/// A cache that agrees with the database still does when a feed was removed from both.
pub proof fn removing_keeps_coherence(
    before: Seq<(i64, Map<i32, Seq<char>>)>,
    after: Seq<(i64, Map<i32, Seq<char>>)>,
    owner: i64,
    source_id: i32,
    db: spec_fn(i64) -> Map<i32, Seq<char>>,
    later: spec_fn(i64) -> Map<i32, Seq<char>>,
)
    requires
        one_each(before),
        coherent(before, db),
        feed_removed(before, after, owner, source_id),
        same_but_for(db, later, owner),
        later(owner) == db(owner).remove(source_id),
    ensures
        coherent(after, later),
{
    let (feeds, fewer) = choose|feeds: Map<i32, Seq<char>>, fewer: Map<i32, Seq<char>>|
        {
            &&& #[trigger] entry_changed(before, after, owner, feeds, fewer)
            &&& fewer == feeds.remove(source_id)
        };
    changing_keeps_coherence(before, after, owner, feeds, fewer, db, later);
}

} // verus!
