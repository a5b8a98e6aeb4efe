//! The entries of a map in ascending order of their keys.

use vstd::prelude::*;

verus! {

/// Whether `lt` orders the keys strictly and totally.
pub open spec fn strict_order<K>(lt: spec_fn(K, K) -> bool) -> bool {
    &&& forall|a: K| !(#[trigger] lt(a, a))
    &&& forall|a: K, b: K, c: K| #[trigger] lt(a, b) && #[trigger] lt(b, c) ==> lt(a, c)
    &&& forall|a: K, b: K| a == b || #[trigger] lt(a, b) || lt(b, a)
}

/// Whether a list holds the entries of a map, each of them once, in ascending order of the keys.
pub open spec fn is_listing<K, V>(
    list: Seq<(K, V)>,
    map: Map<K, V>,
    lt: spec_fn(K, K) -> bool,
) -> bool {
    &&& forall|i: int, j: int|
        0 <= i < j < list.len() ==> lt((#[trigger] list[i]).0, (#[trigger] list[j]).0)
    &&& forall|i: int|
        0 <= i < list.len() ==> map.contains_key((#[trigger] list[i]).0) && map[list[i].0]
            == list[i].1
    &&& forall|k: K| #[trigger]
        map.contains_key(k) ==> exists|i: int| 0 <= i < list.len() && (#[trigger] list[i]).0 == k
}

/// The entries of a map in ascending order of the keys.
pub open spec fn listing<K, V>(map: Map<K, V>, lt: spec_fn(K, K) -> bool) -> Seq<(K, V)> {
    choose|list: Seq<(K, V)>| is_listing(list, map, lt)
}

/// A map has one listing at most.
pub proof fn listing_is_unique<K, V>(
    a: Seq<(K, V)>,
    b: Seq<(K, V)>,
    map: Map<K, V>,
    lt: spec_fn(K, K) -> bool,
)
    requires
        strict_order(lt),
        is_listing(a, map, lt),
        is_listing(b, map, lt),
    ensures
        a == b,
    decreases a.len(),
{
    if a.len() == 0 {
        if b.len() > 0 {
            assert(map.contains_key(b[0].0));
        }
        assert(a =~= b);
    } else {
        assert(map.contains_key(a[0].0));
        let last = a.last().0;
        assert(map.contains_key(last));
        let j = choose|j: int| 0 <= j < b.len() && (#[trigger] b[j]).0 == last;
        let other = b.last().0;
        assert(map.contains_key(other));
        let i = choose|i: int| 0 <= i < a.len() && (#[trigger] a[i]).0 == other;
        if last != other {
            assert(lt(b[j].0, b[b.len() - 1].0));
            assert(lt(a[i].0, a[a.len() - 1].0));
            assert(lt(last, last));
        }
        let rest = map.remove(last);
        listing_drops_last(a, map, lt);
        listing_drops_last(b, map, lt);
        listing_is_unique(a.drop_last(), b.drop_last(), rest, lt);
        assert(a.last() == b.last());
        assert(a =~= a.drop_last().push(a.last()));
        assert(b =~= b.drop_last().push(b.last()));
    }
}

proof fn listing_drops_last<K, V>(a: Seq<(K, V)>, map: Map<K, V>, lt: spec_fn(K, K) -> bool)
    requires
        strict_order(lt),
        is_listing(a, map, lt),
        a.len() > 0,
    ensures
        is_listing(a.drop_last(), map.remove(a.last().0), lt),
{
    let last = a.last().0;
    let rest = map.remove(last);
    let front = a.drop_last();
    assert forall|i: int| 0 <= i < front.len() implies rest.contains_key((#[trigger] front[i]).0)
        && rest[front[i].0] == front[i].1 by {
        assert(front[i] == a[i]);
        assert(lt(a[i].0, a[a.len() - 1].0));
    }
    assert forall|k: K| #[trigger] rest.contains_key(k) implies exists|i: int|
        0 <= i < front.len() && (#[trigger] front[i]).0 == k by {
        assert(map.contains_key(k));
        let i = choose|i: int| 0 <= i < a.len() && (#[trigger] a[i]).0 == k;
        assert(i != a.len() - 1);
        assert(front[i].0 == k);
    }
    assert forall|i: int, j: int| 0 <= i < j < front.len() implies lt(
        (#[trigger] front[i]).0,
        (#[trigger] front[j]).0,
    ) by {
        assert(front[i] == a[i] && front[j] == a[j]);
    }
}

/// A list that is a listing of a map is the listing of that map.
pub proof fn listing_is<K, V>(list: Seq<(K, V)>, map: Map<K, V>, lt: spec_fn(K, K) -> bool)
    requires
        strict_order(lt),
        is_listing(list, map, lt),
    ensures
        listing(map, lt) == list,
        is_listing(listing(map, lt), map, lt),
{
    listing_is_unique(listing(map, lt), list, map, lt);
}

} // verus!
