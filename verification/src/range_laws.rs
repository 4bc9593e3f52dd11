//! What holds of every available range.
use vstd::prelude::*;
use crate::available_range::{
    is_first_available, is_first_missing, AvailableRange, AvailableRangeKey,
};
use crate::error::RpcError;
use crate::names::{field_names_differ, type_names_differ};
use crate::pipelines::pipelines_for;
use crate::string_set::texts;
use crate::strings::{precedes, precedes_is_irreflexive, precedes_is_transitive};

verus! {

/// The range holds exactly the checkpoints that every pipeline still has data for: from its first
/// checkpoint on no pipeline has lost any, and of those before it one has.
pub proof fn range_is_what_all_pipelines_hold(
    needed: Set<Seq<char>>,
    lo: Map<Seq<char>, u64>,
    first: u64,
    checkpoint: u64,
)
    requires
        is_first_available(needed, lo, first),
    ensures
        first <= checkpoint <==> forall|p: Seq<char>| #[trigger]
            needed.contains(p) ==> lo[p] <= checkpoint,
{
}

/// Every one of the pipelines `needed` has a watermark and still holds data for `checkpoint`.
pub open spec fn all_hold(needed: Set<Seq<char>>, lo: Map<Seq<char>, u64>, checkpoint: int) -> bool {
    forall|p: Seq<char>| #[trigger]
        needed.contains(p) ==> lo.contains_key(p) && lo[p] <= checkpoint
}

/// A checkpoint is the first available one if and only if it and all after it are held by every
/// pipeline, and none before it is.
pub proof fn first_available_starts_what_all_hold(
    needed: Set<Seq<char>>,
    lo: Map<Seq<char>, u64>,
    first: u64,
)
    ensures
        is_first_available(needed, lo, first) <==> forall|c: int|
            0 <= c ==> (first <= c <==> #[trigger] all_hold(needed, lo, c)),
{
    if forall|c: int| 0 <= c ==> (first <= c <==> #[trigger] all_hold(needed, lo, c)) {
        assert(all_hold(needed, lo, first as int));
        if first > 0 {
            assert(!all_hold(needed, lo, first - 1));
        }
    }
}

/// The watermarks decide what the first checkpoint is.
pub proof fn first_available_is_unique(
    needed: Set<Seq<char>>,
    lo: Map<Seq<char>, u64>,
    a: u64,
    b: u64,
)
    requires
        is_first_available(needed, lo, a),
        is_first_available(needed, lo, b),
    ensures
        a == b,
{
}

/// Only the watermarks of the pipelines that are needed count: for the first checkpoint, and for
/// which pipeline is the first without a watermark.
pub proof fn other_pipelines_do_not_count(
    needed: Set<Seq<char>>,
    lo: Map<Seq<char>, u64>,
    other: Map<Seq<char>, u64>,
    first: u64,
    missing: Seq<char>,
)
    requires
        forall|p: Seq<char>| #[trigger]
            needed.contains(p) ==> lo.contains_key(p) == other.contains_key(p) && (lo.contains_key(p)
                ==> lo[p] == other[p]),
    ensures
        is_first_available(needed, lo, first) == is_first_available(needed, other, first),
        is_first_missing(needed, lo, missing) == is_first_missing(needed, other, missing),
{
}

/// When data is pruned, so that watermarks rise, the range does not grow.
pub proof fn pruning_never_grows_the_range(
    needed: Set<Seq<char>>,
    lo: Map<Seq<char>, u64>,
    later: Map<Seq<char>, u64>,
    first: u64,
    first_later: u64,
)
    requires
        is_first_available(needed, lo, first),
        is_first_available(needed, later, first_later),
        forall|p: Seq<char>| #[trigger] needed.contains(p) ==> lo[p] <= later[p],
    ensures
        first <= first_later,
{
}

/// Data from more pipelines is available for no more checkpoints.
pub proof fn more_pipelines_never_grow_the_range(
    needed: Set<Seq<char>>,
    more: Set<Seq<char>>,
    lo: Map<Seq<char>, u64>,
    first: u64,
    first_more: u64,
)
    requires
        needed.subset_of(more),
        is_first_available(needed, lo, first),
        is_first_available(more, lo, first_more),
    ensures
        first <= first_more,
{
}

/// Where data from more pipelines has a range, data from fewer has one too.
pub proof fn fewer_pipelines_have_a_range(
    needed: Set<Seq<char>>,
    more: Set<Seq<char>>,
    lo: Map<Seq<char>, u64>,
    first_more: u64,
)
    requires
        needed.subset_of(more),
        is_first_available(more, lo, first_more),
    ensures
        needed.subset_of(lo.dom()),
{
}

/// There is a range if and only if every pipeline behind the key has a watermark, and then its
/// first checkpoint does not depend on how it came about; otherwise there is an error, which names
/// the same pipeline however it came about.
pub proof fn outcome_is_decided<S: Clone>(
    lo: Map<Seq<char>, u64>,
    scope: S,
    key: AvailableRangeKey,
    a: Result<AvailableRange<S>, RpcError>,
    b: Result<AvailableRange<S>, RpcError>,
)
    requires
        AvailableRange::follows(lo, scope, key, a),
        AvailableRange::follows(lo, scope, key, b),
    ensures
        a is Ok <==> key.pipelines().subset_of(lo.dom()),
        b is Ok <==> a is Ok,
        match (a, b) {
            (Ok(x), Ok(y)) => x.first == y.first,
            (
                Err(RpcError::NoWatermark { pipeline: p }),
                Err(RpcError::NoWatermark { pipeline: q }),
            ) => p@ == q@,
            _ => false,
        },
{
    pipelines_decide_the_outcome(lo, scope, scope, key, key, a, b);
}

/// Two keys with the same pipelines behind them have the same outcome, whatever the scopes: the
/// same first checkpoint, or an error that names the same pipeline.
pub proof fn pipelines_decide_the_outcome<S: Clone, T: Clone>(
    lo: Map<Seq<char>, u64>,
    scope_a: S,
    scope_b: T,
    key_a: AvailableRangeKey,
    key_b: AvailableRangeKey,
    a: Result<AvailableRange<S>, RpcError>,
    b: Result<AvailableRange<T>, RpcError>,
)
    requires
        key_a.pipelines() == key_b.pipelines(),
        AvailableRange::follows(lo, scope_a, key_a, a),
        AvailableRange::follows(lo, scope_b, key_b, b),
    ensures
        a is Ok <==> key_a.pipelines().subset_of(lo.dom()),
        b is Ok <==> a is Ok,
        match (a, b) {
            (Ok(x), Ok(y)) => x.first == y.first,
            (
                Err(RpcError::NoWatermark { pipeline: p }),
                Err(RpcError::NoWatermark { pipeline: q }),
            ) => p@ == q@,
            _ => false,
        },
{
    if let (
        Err(RpcError::NoWatermark { pipeline: p }),
        Err(RpcError::NoWatermark { pipeline: q }),
    ) = (a, b) {
        if p@ != q@ {
            precedes_is_transitive(p@, q@, p@);
            precedes_is_irreflexive(p@);
        }
    }
}

/// Where no pipeline is behind the key, the range starts at the first checkpoint of all, whatever
/// the watermarks.
pub proof fn no_pipeline_no_limit<S: Clone>(
    lo: Map<Seq<char>, u64>,
    scope: S,
    key: AvailableRangeKey,
    res: Result<AvailableRange<S>, RpcError>,
)
    requires
        key.pipelines() == Set::<Seq<char>>::empty(),
        AvailableRange::follows(lo, scope, key, res),
    ensures
        res is Ok,
        res->Ok_0.first == 0,
{
}

/// `s` stands somewhere in the list of filters of `key`.
pub open spec fn lists(key: AvailableRangeKey, s: Seq<char>) -> bool {
    &&& key.filters matches Some(v)
    &&& exists|i: int| 0 <= i < v@.len() && #[trigger] v@[i]@ == s
}

/// A key asks for its own type and field, with exactly the filters that it lists: a string is among
/// the filters if and only if it stands somewhere in the list.
pub proof fn key_asks_for_what_it_holds(key: AvailableRangeKey, s: Seq<char>)
    ensures
        key.field is None ==> key.field_name() is None,
        key.field matches Some(f) ==> key.field_name() == Some(f@),
        key.filters is None ==> !key.filter_set().contains(s),
        key.filters matches Some(v) ==> (key.filter_set().contains(s) <==> exists|i: int|
            0 <= i < v@.len() && #[trigger] v@[i]@ == s),
        key.pipelines() == pipelines_for(key.type_@, key.field_name(), key.filter_set()),
{
    if let Some(v) = key.filters {
        lemma_listed(v@, s);
    }
}

/// A string is among the texts of `v` if and only if one of the strings of `v` holds it.
pub proof fn lemma_listed(v: Seq<String>, s: Seq<char>)
    ensures
        texts(v).to_set().contains(s) <==> exists|i: int| 0 <= i < v.len() && #[trigger] v[i]@ == s,
{
    if texts(v).contains(s) {
        let i = choose|i: int| 0 <= i < texts(v).len() && texts(v)[i] == s;
        assert(v[i]@ == s);
    }
    if exists|i: int| 0 <= i < v.len() && #[trigger] v[i]@ == s {
        let i = choose|i: int| 0 <= i < v.len() && #[trigger] v[i]@ == s;
        assert(texts(v)[i] == s);
    }
}

/// A range that follows from watermarks holds exactly the checkpoints that every pipeline behind the
/// key's own type, field and filters still has data for, and it is within the scope that was given.
pub proof fn range_holds_what_the_pipelines_of_its_key_hold<S: Clone>(
    lo: Map<Seq<char>, u64>,
    scope: S,
    key: AvailableRangeKey,
    range: AvailableRange<S>,
    filters: Set<Seq<char>>,
    checkpoint: u64,
)
    requires
        AvailableRange::follows(lo, scope, key, Ok(range)),
        forall|s: Seq<char>| #[trigger]
            filters.contains(s) <==> lists(key, s),
    ensures
        cloned(scope, range.scope),
        ({
            let field = match key.field {
                Some(f) => Some(f@),
                None => None,
            };
            range.first <= checkpoint <==> all_hold(
                pipelines_for(key.type_@, field, filters),
                lo,
                checkpoint as int,
            )
        }),
{
    assert forall|s: Seq<char>| filters.contains(s) == key.filter_set().contains(s) by {
        key_asks_for_what_it_holds(key, s);
    }
    assert(filters =~= key.filter_set());
    key_asks_for_what_it_holds(key, Seq::empty());
    first_available_starts_what_all_hold(key.pipelines(), lo, range.first);
    assert(range.first <= checkpoint <==> all_hold(key.pipelines(), lo, checkpoint as int));
}

/// Only a missing watermark keeps a range from being given: the error names a pipeline behind the
/// key's own type, field and filters that has none, and every other such pipeline comes after it.
pub proof fn error_names_the_first_pipeline_without_watermark<S: Clone>(
    lo: Map<Seq<char>, u64>,
    scope: S,
    key: AvailableRangeKey,
    error: RpcError,
    filters: Set<Seq<char>>,
    p: Seq<char>,
)
    requires
        AvailableRange::follows(lo, scope, key, Err(error)),
        forall|s: Seq<char>| #[trigger]
            filters.contains(s) <==> lists(key, s),
    ensures
        ({
            let field = match key.field {
                Some(f) => Some(f@),
                None => None,
            };
            let needed = pipelines_for(key.type_@, field, filters);
            &&& error matches RpcError::NoWatermark { pipeline }
            &&& needed.contains(pipeline@)
            &&& !lo.contains_key(pipeline@)
            &&& needed.contains(p) && !lo.contains_key(p) && p != pipeline@ ==> precedes(
                pipeline@,
                p,
            ) && !precedes(p, pipeline@)
        }),
{
    assert forall|s: Seq<char>| filters.contains(s) == key.filter_set().contains(s) by {
        key_asks_for_what_it_holds(key, s);
    }
    assert(filters =~= key.filter_set());
    if let RpcError::NoWatermark { pipeline } = error {
        if precedes(pipeline@, p) && precedes(p, pipeline@) {
            precedes_is_transitive(p, pipeline@, p);
            precedes_is_irreflexive(p);
        }
    }
}

/// Where exactly one pipeline is behind the key's own type, field and filters, the range starts at
/// the watermark of that pipeline, and there is no range where it has none.
pub proof fn single_pipeline_sets_the_start<S: Clone>(
    lo: Map<Seq<char>, u64>,
    scope: S,
    key: AvailableRangeKey,
    res: Result<AvailableRange<S>, RpcError>,
    p: Seq<char>,
)
    requires
        AvailableRange::follows(lo, scope, key, res),
        pipelines_for(key.type_@, key.field_name(), key.filter_set()) == set![p],
    ensures
        res is Ok <==> lo.contains_key(p),
        res matches Ok(range) ==> range.first == lo[p],
        res matches Err(RpcError::NoWatermark { pipeline }) ==> pipeline@ == p,
{
    assert(key.pipelines().contains(p));
}

/// A range for balances, for owned objects or for a listing of dynamic fields starts at the
/// watermark of the consistent store, whichever type offers the field and whatever the filters.
pub proof fn consistent_ranges_start_with_the_consistent_store<S: Clone>(
    lo: Map<Seq<char>, u64>,
    scope: S,
    key: AvailableRangeKey,
    res: Result<AvailableRange<S>, RpcError>,
)
    requires
        AvailableRange::follows(lo, scope, key, res),
        ({
            let t = key.type_@;
            &&& key.field matches Some(f)
            &&& {
                ||| (f@ == "balance"@ || f@ == "balances"@ || f@ == "multiGetBalances"@) && (t
                    == "Address"@ || t == "CoinMetadata"@ || t == "IAddressable"@ || t
                    == "MovePackage"@ || t == "Object"@)
                ||| f@ == "objects"@ && (t == "Address"@ || t == "CoinMetadata"@ || t
                    == "IAddressable"@ || t == "IObject"@ || t == "Object"@ || t == "Query"@)
                ||| f@ == "dynamicFields"@ && (t == "Address"@ || t == "CoinMetadata"@ || t
                    == "IMoveObject"@ || t == "Object"@)
            }
        }),
    ensures
        res is Ok <==> lo.contains_key("consistent"@),
        res matches Ok(range) ==> range.first == lo["consistent"@],
{
    type_names_differ();
    field_names_differ();
    assert(key.pipelines().contains("consistent"@));
    assert(key.pipelines() =~= set!["consistent"@]);
    single_pipeline_sets_the_start(lo, scope, key, res, "consistent"@);
}

/// A range for dynamic fields that are looked up by name starts at the watermark of the object
/// versions, whichever type offers the field and whatever the filters; so does one for what is read
/// off a version of an object.
pub proof fn version_ranges_start_with_the_object_versions<S: Clone>(
    lo: Map<Seq<char>, u64>,
    scope: S,
    key: AvailableRangeKey,
    res: Result<AvailableRange<S>, RpcError>,
)
    requires
        AvailableRange::follows(lo, scope, key, res),
        ({
            let t = key.type_@;
            &&& key.field matches Some(f)
            &&& {
                ||| (f@ == "dynamicField"@ || f@ == "dynamicObjectField"@ || f@
                    == "multiGetDynamicFields"@ || f@ == "multiGetDynamicObjectFields"@) && (t
                    == "Address"@ || t == "IMoveObject"@ || t == "Object"@)
                ||| (f@ == "digest"@ || f@ == "objectAt"@ || f@ == "objectBcs"@ || f@
                    == "objectVersionsAfter"@ || f@ == "objectVersionsBefore"@ || f@ == "owner"@
                    || f@ == "storageRebate"@ || f@ == "version"@) && (t == "IObject"@ || t
                    == "MovePackage"@ || t == "Object"@)
                ||| (f@ == "objectAt"@ || f@ == "objectVersionsAfter"@ || f@
                    == "objectVersionsBefore"@) && t == "CoinMetadata"@
                ||| f@ == "asObject"@ && t == "Address"@
            }
        }),
    ensures
        res is Ok <==> lo.contains_key("obj_versions"@),
        res matches Ok(range) ==> range.first == lo["obj_versions"@],
{
    type_names_differ();
    field_names_differ();
    assert(key.pipelines() =~= set!["obj_versions"@]);
    single_pipeline_sets_the_start(lo, scope, key, res, "obj_versions"@);
}

/// How often and in what order a key lists its filters makes no difference: keys that agree on type
/// and field and list the same strings have the same pipelines behind them.
pub proof fn filters_form_a_set(a: AvailableRangeKey, b: AvailableRangeKey)
    requires
        a.type_@ == b.type_@,
        match (a.field, b.field) {
            (Some(f), Some(g)) => f@ == g@,
            (None, None) => true,
            _ => false,
        },
        forall|s: Seq<char>| #[trigger] lists(a, s) <==> lists(b, s),
    ensures
        a.pipelines() == b.pipelines(),
{
    assert forall|s: Seq<char>| a.filter_set().contains(s) == b.filter_set().contains(s) by {
        key_asks_for_what_it_holds(a, s);
        key_asks_for_what_it_holds(b, s);
        assert(lists(a, s) == lists(b, s));
    }
    assert(a.filter_set() =~= b.filter_set());
}

} // verus!
