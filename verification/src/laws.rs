use vstd::prelude::*;

use crate::handler::{
    ReplyView, lookup_outcome, not_found_body, internal_error_body, consults_store,
};
use crate::record::RecordView;
use crate::serial::serialized;

verus! {

/// The cache after `n` miss-populations of one identifier with the same
/// record: the shape any interleaving of concurrent misses for that
/// identifier leaves behind, since every writer computes the same value
/// from the same durable source.
pub open spec fn populate_n(
    cache: Map<i32, Seq<char>>,
    id: i32,
    r: RecordView,
    n: nat,
) -> Map<i32, Seq<char>>
    decreases n,
{
    if n == 0 {
        cache
    } else {
        populate_n(cache, id, r, (n - 1) as nat).insert(id, serialized(r))
    }
}

/// Repeating a population of one identifier with the same record changes
/// nothing: the write-back after a miss is idempotent, so the benign race
/// between two concurrent misses for one key is harmless.
pub proof fn lemma_population_idempotent_step(cache: Map<i32, Seq<char>>, id: i32, r: RecordView)
    ensures
        cache.insert(id, serialized(r)).insert(id, serialized(r)) == cache.insert(
            id,
            serialized(r),
        ),
{
    assert(cache.insert(id, serialized(r)).insert(id, serialized(r)) =~= cache.insert(
        id,
        serialized(r),
    ));
}

/// Idempotent population: however many concurrent lookups of one
/// identifier race to populate an empty cache, the cache ends up holding
/// exactly one entry for that identifier, whose value is the record's
/// canonical serialization.
pub proof fn lemma_idempotent_population(id: i32, r: RecordView, n: nat)
    requires
        n >= 1,
    ensures
        populate_n(Map::empty(), id, r, n) == Map::<i32, Seq<char>>::empty().insert(
            id,
            serialized(r),
        ),
        populate_n(Map::empty(), id, r, n).dom() == Set::<i32>::empty().insert(id),
        populate_n(Map::empty(), id, r, n).len() == 1,
        populate_n(Map::empty(), id, r, n)[id] == serialized(r),
    decreases n,
{
    if n == 1 {
        assert(populate_n(Map::empty(), id, r, 0) == Map::<i32, Seq<char>>::empty());
    } else {
        lemma_idempotent_population(id, r, (n - 1) as nat);
        lemma_population_idempotent_step(Map::empty(), id, r);
    }
    assert(populate_n(Map::empty(), id, r, n) =~= Map::<i32, Seq<char>>::empty().insert(
        id,
        serialized(r),
    ));
    assert(populate_n(Map::empty(), id, r, n).dom() =~= Set::<i32>::empty().insert(id));
}

/// Cache precedence: once the cache holds an entry for an identifier, a
/// lookup serves that entry's value unchanged, whatever the backing store
/// would answer — even if the store's record has since been altered. This
/// is the intended, permanent staleness of a cache that is never
/// invalidated, not a defect.
pub proof fn lemma_cache_precedence(
    cache: Map<i32, Seq<char>>,
    id: i32,
    first: ReplyView,
    second: ReplyView,
)
    requires
        cache.contains_key(id),
    ensures
        lookup_outcome(cache, id, first) == lookup_outcome(cache, id, second),
        lookup_outcome(cache, id, first).status == 200,
        lookup_outcome(cache, id, first).body == cache[id],
        lookup_outcome(cache, id, first).cache == cache,
        !consults_store(cache, id),
{
}

/// Miss-to-hit transition: the first lookup of a never-seen identifier
/// that the store holds consults the store, answers 200 with the record's
/// canonical serialization, and adds exactly one cache entry; an
/// immediately following lookup of the same identifier answers 200 with
/// the identical body without consulting the store, and changes nothing.
pub proof fn lemma_miss_to_hit(
    cache: Map<i32, Seq<char>>,
    id: i32,
    r: RecordView,
    later: ReplyView,
)
    requires
        !cache.contains_key(id),
        cache.dom().finite(),
        r.id == id as int,
    ensures
        ({
            let first = lookup_outcome(cache, id, ReplyView::Found(r));
            let second = lookup_outcome(first.cache, id, later);
            &&& consults_store(cache, id)
            &&& first.status == 200
            &&& first.body == serialized(r)
            &&& first.cache == cache.insert(id, serialized(r))
            &&& first.cache.dom() == cache.dom().insert(id)
            &&& first.cache.len() == cache.len() + 1
            &&& !consults_store(first.cache, id)
            &&& second.status == 200
            &&& second.body == first.body
            &&& second.cache == first.cache
        }),
{
    let first = lookup_outcome(cache, id, ReplyView::Found(r));
    assert(first.cache.dom() =~= cache.dom().insert(id));
}

/// Not-found is not cached: a lookup of an identifier the store does not
/// hold answers 404, naming the identifier, and writes nothing; so an
/// immediately repeated lookup misses again, consults the store a second
/// time, and answers 404 with the identical body.
pub proof fn lemma_not_found_not_cached(cache: Map<i32, Seq<char>>, id: i32)
    requires
        !cache.contains_key(id),
    ensures
        ({
            let first = lookup_outcome(cache, id, ReplyView::Missing);
            let second = lookup_outcome(first.cache, id, ReplyView::Missing);
            &&& consults_store(cache, id)
            &&& first.status == 404
            &&& first.body == not_found_body(id as int)
            &&& first.cache == cache
            &&& consults_store(first.cache, id)
            &&& second.status == 404
            &&& second.body == first.body
            &&& second.cache == cache
        }),
{
}

/// Store fault isolation: whatever the cache holds, a lookup whose
/// backing-store call fails leaves the cache exactly as it was — no entry
/// appears, and a pre-existing entry is untouched. The response is 500 on
/// a miss; a pre-existing entry is served as usual, since a hit never
/// reaches the store.
pub proof fn lemma_store_fault_isolation(cache: Map<i32, Seq<char>>, id: i32)
    ensures
        ({
            let out = lookup_outcome(cache, id, ReplyView::Fault);
            &&& out.cache == cache
            &&& (!cache.contains_key(id) ==> out.status == 500 && out.body
                == internal_error_body())
            &&& (cache.contains_key(id) ==> out.status == 200 && out.body == cache[id])
        }),
{
}

} // verus!
