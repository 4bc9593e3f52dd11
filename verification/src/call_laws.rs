//! What the calls of the library give, in terms of their arguments and results, and how they relate
//! to each other.
use vstd::prelude::*;
use async_graphql::Context;
use crate::available_range::{first_available, AvailableRange, AvailableRangeKey};
use crate::context::context_watermarks;
use crate::error::RpcError;
use crate::pipelines::{collect_pipelines, pipelines_for};
use crate::range_laws::{all_hold, lists};
use crate::range_laws::{
    error_names_the_first_pipeline_without_watermark, first_available_starts_what_all_hold,
    range_holds_what_the_pipelines_of_its_key_hold,
};
use crate::string_set::{ascending_goes_up_step_by_step, texts_are_what_the_strings_hold, StringSet};
use crate::strings::{order, precedes, precedes_is_irreflexive, precedes_is_transitive, Order};
use crate::watermarks::Watermarks;

verus! {

/// Collecting keeps what was collected before, adds the pipelines behind the type, the field and the
/// filters of the call, and adds nothing else; without a field it adds nothing.
pub proof fn collecting_adds_what_the_field_needs(
    type_: &str,
    field: Option<&str>,
    filters: StringSet,
    pipelines: &mut StringSet,
    p: Seq<char>,
)
    requires
        call_ensures(collect_pipelines, (type_, field, filters, pipelines), ()),
    ensures
        final(pipelines)@.contains(p) <==> {
            ||| old(pipelines)@.contains(p)
            ||| {
                &&& field matches Some(f)
                &&& pipelines_for(type_@, Some(f@), filters@).contains(p)
            }
        },
{
}

/// A range that is given for a key holds exactly the checkpoints that every pipeline behind the
/// key's type, field and listed filters still holds by the watermarks of the call.
pub proof fn given_range_holds_what_all_pipelines_hold<S: Clone>(
    watermarks: &Watermarks,
    scope: &S,
    key: AvailableRangeKey,
    range: AvailableRange<S>,
    field: Option<Seq<char>>,
    filters: Set<Seq<char>>,
    checkpoint: u64,
)
    requires
        call_ensures(
            AvailableRange::<S>::from_watermarks,
            (watermarks, scope, key),
            Ok::<AvailableRange<S>, RpcError>(range),
        ),
        match key.field {
            Some(f) => field == Some(f@),
            None => field is None,
        },
        forall|s: Seq<char>| #[trigger]
            filters.contains(s) <==> (key.filters matches Some(v) && exists|i: int|
                0 <= i < v@.len() && #[trigger] v@[i]@ == s),
    ensures
        cloned(*scope, range.scope),
        range.first <= checkpoint <==> forall|p: Seq<char>| #[trigger]
            pipelines_for(key.type_@, field, filters).contains(p) ==> watermarks@.contains_key(p)
                && watermarks@[p] <= checkpoint,
{
    assert forall|s: Seq<char>| #[trigger] filters.contains(s) <==> lists(key, s) by {}
    range_holds_what_the_pipelines_of_its_key_hold(
        watermarks@,
        *scope,
        key,
        range,
        filters,
        checkpoint,
    );
}

/// Where no range is given, a pipeline behind the key's type, field and listed filters has no
/// watermark; the error names the first such pipeline.
pub proof fn refused_range_lacks_a_watermark<S: Clone>(
    watermarks: &Watermarks,
    scope: &S,
    key: AvailableRangeKey,
    error: RpcError,
    field: Option<Seq<char>>,
    filters: Set<Seq<char>>,
    p: Seq<char>,
)
    requires
        call_ensures(
            AvailableRange::<S>::from_watermarks,
            (watermarks, scope, key),
            Err::<AvailableRange<S>, RpcError>(error),
        ),
        match key.field {
            Some(f) => field == Some(f@),
            None => field is None,
        },
        forall|s: Seq<char>| #[trigger]
            filters.contains(s) <==> (key.filters matches Some(v) && exists|i: int|
                0 <= i < v@.len() && #[trigger] v@[i]@ == s),
    ensures
        ({
            let needed = pipelines_for(key.type_@, field, filters);
            &&& error matches RpcError::NoWatermark { pipeline }
            &&& needed.contains(pipeline@)
            &&& !watermarks@.contains_key(pipeline@)
            &&& needed.contains(p) && !watermarks@.contains_key(p) && p != pipeline@ ==> precedes(
                pipeline@,
                p,
            )
        }),
{
    assert forall|s: Seq<char>| #[trigger] filters.contains(s) <==> lists(key, s) by {}
    error_names_the_first_pipeline_without_watermark(
        watermarks@,
        *scope,
        key,
        error,
        filters,
        p,
    );
}

/// In a context that holds watermarks the outcome is that of these watermarks: the same start, or an
/// error that names the same pipeline. In a context without them the server's error comes back.
pub proof fn context_only_hands_over_its_watermarks<S: Clone>(
    ctx: &Context<'_>,
    watermarks: &Watermarks,
    scope: &S,
    key: AvailableRangeKey,
    in_context: Result<AvailableRange<S>, RpcError>,
    direct: Result<AvailableRange<S>, RpcError>,
)
    requires
        call_ensures(AvailableRange::<S>::new, (ctx, scope, key), in_context),
        call_ensures(AvailableRange::<S>::from_watermarks, (watermarks, scope, key), direct),
    ensures
        context_watermarks(ctx) is None ==> in_context matches Err(RpcError::GraphQl(_)),
        context_watermarks(ctx) == Some(watermarks@) ==> match (in_context, direct) {
            (Ok(x), Ok(y)) => x.first == y.first && cloned(*scope, x.scope),
            (
                Err(RpcError::NoWatermark { pipeline: p }),
                Err(RpcError::NoWatermark { pipeline: q }),
            ) => p@ == q@,
            _ => false,
        },
{
    if context_watermarks(ctx) == Some(watermarks@) {
        crate::range_laws::outcome_is_decided(watermarks@, *scope, key, in_context, direct);
    }
}

/// The ends of a range are what the lookup makes of the scope: the lower end of the scope with the
/// first checkpoint, the upper end of the scope alone. Neither fails.
pub proof fn ends_are_looked_up_in_the_scope<S: Clone, C, F: FnOnce(S, Option<u64>) -> Option<C>>(
    range: &AvailableRange<S>,
    lookup: F,
    first: Result<Option<C>, RpcError>,
    last: Result<Option<C>, RpcError>,
)
    requires
        call_ensures(AvailableRange::<S>::first::<C, F>, (range, lookup), first),
        call_ensures(AvailableRange::<S>::last::<C, F>, (range, lookup), last),
    ensures
        first is Ok,
        last is Ok,
        exists|s: S| #[trigger]
            cloned(range.scope, s) && lookup.ensures((s, Some(range.first)), first->Ok_0),
        exists|s: S| #[trigger] cloned(range.scope, s) && lookup.ensures((s, None), last->Ok_0),
{
}

/// A copy of a range starts where the range starts, in a copy of its scope.
pub proof fn copy_keeps_the_range<S: Clone>(range: &AvailableRange<S>, copy: AvailableRange<S>)
    requires
        call_ensures(AvailableRange::<S>::clone, (range,), copy),
    ensures
        copy.first == range.first,
        cloned(range.scope, copy.scope),
{
}

/// The first checkpoint that is found for some pipelines starts what all of them hold.
pub proof fn found_start_is_the_first_that_all_hold(
    watermarks: &Watermarks,
    pipelines: &StringSet,
    first: u64,
    checkpoint: u64,
)
    requires
        call_ensures(first_available, (watermarks, pipelines), Ok::<u64, RpcError>(first)),
    ensures
        first <= checkpoint <==> forall|p: Seq<char>| #[trigger]
            pipelines@.contains(p) ==> watermarks@.contains_key(p) && watermarks@[p] <= checkpoint,
{
    first_available_starts_what_all_hold(pipelines@, watermarks@, first);
    assert(first <= checkpoint <==> all_hold(pipelines@, watermarks@, checkpoint as int));
}

/// No start is found only where one of the pipelines has no watermark; the error names the first
/// such pipeline.
pub proof fn start_is_found_unless_a_watermark_is_missing(
    watermarks: &Watermarks,
    pipelines: &StringSet,
    error: RpcError,
    p: Seq<char>,
)
    requires
        call_ensures(first_available, (watermarks, pipelines), Err::<u64, RpcError>(error)),
    ensures
        error matches RpcError::NoWatermark { pipeline } && pipelines@.contains(pipeline@)
            && !watermarks@.contains_key(pipeline@) && (pipelines@.contains(p)
            && !watermarks@.contains_key(p) && p != pipeline@ ==> precedes(pipeline@, p)),
{
}

/// A watermark that was set is read back; the other pipelines keep theirs.
pub proof fn watermark_is_read_back(
    watermarks: &mut Watermarks,
    pipeline: String,
    checkpoint: u64,
    before: &Watermarks,
    after: &Watermarks,
    asked: &str,
    read_before: Result<u64, RpcError>,
    read_after: Result<u64, RpcError>,
)
    requires
        call_ensures(Watermarks::set_lo_watermark, (watermarks, pipeline, checkpoint), ()),
        *before == *old(watermarks),
        *after == *final(watermarks),
        call_ensures(Watermarks::pipeline_lo_watermark, (before, asked), read_before),
        call_ensures(Watermarks::pipeline_lo_watermark, (after, asked), read_after),
    ensures
        asked@ == pipeline@ ==> read_after == Ok::<u64, RpcError>(checkpoint),
        asked@ != pipeline@ ==> match (read_before, read_after) {
            (Ok(a), Ok(b)) => a == b,
            (Err(_), Err(_)) => true,
            _ => false,
        },
        read_after matches Err(e) ==> e matches RpcError::NoWatermark { pipeline: missing }
            && missing@ == asked@,
{
}

/// At first no pipeline has a watermark.
pub proof fn new_watermarks_are_empty(
    watermarks: &Watermarks,
    asked: &str,
    read: Result<u64, RpcError>,
)
    requires
        call_ensures(Watermarks::new, (), *watermarks),
        call_ensures(Watermarks::pipeline_lo_watermark, (watermarks, asked), read),
    ensures
        read is Err,
{
}

/// After a string is put into a set it is found there; all others are found as before. The call says
/// whether it was not found before.
pub proof fn inserted_string_is_found(
    set: &mut StringSet,
    s: String,
    new: bool,
    before: &StringSet,
    after: &StringSet,
    asked: &str,
    found_before: bool,
    found_after: bool,
)
    requires
        call_ensures(StringSet::insert, (set, s), new),
        *before == *old(set),
        *after == *final(set),
        call_ensures(StringSet::contains, (before, asked), found_before),
        call_ensures(StringSet::contains, (after, asked), found_after),
    ensures
        found_after == (found_before || asked@ == s@),
        asked@ == s@ ==> new == !found_before,
{
}

/// What is found in a set that was made of a list is what stands in the list.
pub proof fn listed_strings_are_found(
    strings: Vec<String>,
    set: &StringSet,
    asked: &str,
    found: bool,
)
    requires
        call_ensures(StringSet::from_vec, (strings,), *set),
        call_ensures(StringSet::contains, (set, asked), found),
    ensures
        found <==> exists|i: int| 0 <= i < strings@.len() && #[trigger] strings@[i]@ == asked@,
{
    crate::range_laws::lemma_listed(strings@, asked@);
}

/// Nothing is found in a set exactly when it is empty; a new set is.
pub proof fn empty_set_has_nothing(set: &StringSet, asked: &str, empty: bool, found: bool)
    requires
        call_ensures(StringSet::is_empty, (set,), empty),
        call_ensures(StringSet::contains, (set, asked), found),
    ensures
        empty ==> !found,
        !empty ==> exists|s: Seq<char>| set@.contains(s),
        call_ensures(StringSet::new, (), *set) ==> empty,
{
    if forall|s: Seq<char>| !set@.contains(s) {
        assert(set@ =~= Set::<Seq<char>>::empty());
    }
}

/// The members of a set are exactly what is found in it, each once, each preceding the next.
pub proof fn members_are_what_is_found(
    set: &StringSet,
    members: &Vec<String>,
    asked: &str,
    found: bool,
    i: int,
)
    requires
        call_ensures(StringSet::members, (set,), members),
        call_ensures(StringSet::contains, (set, asked), found),
    ensures
        found <==> exists|k: int| 0 <= k < members@.len() && #[trigger] members@[k]@ == asked@,
        0 < i < members@.len() ==> precedes(members@[i - 1]@, members@[i]@),
{
    crate::range_laws::lemma_listed(members@, asked@);
    let all = crate::string_set::texts(members@);
    ascending_goes_up_step_by_step(all);
    texts_are_what_the_strings_hold(members@, i);
    texts_are_what_the_strings_hold(members@, i - 1);
    if 0 < i < members@.len() {
        assert(precedes(all[i - 1], all[i]));
    }
}

/// Where one string stands to another follows from which of them precedes, and the other one stands
/// the opposite way to the first.
pub proof fn order_goes_by_precedence(a: &str, b: &str, ab: Order, ba: Order)
    requires
        call_ensures(order, (a, b), ab),
        call_ensures(order, (b, a), ba),
    ensures
        ab is Before <==> precedes(a@, b@),
        ab is Same <==> a@ == b@,
        ab is After <==> precedes(b@, a@),
        ab is Before <==> ba is After,
        ab is Same <==> ba is Same,
{
    precedes_is_irreflexive(a@);
    precedes_is_irreflexive(b@);
    if precedes(a@, b@) && precedes(b@, a@) {
        precedes_is_transitive(a@, b@, a@);
    }
}

} // verus!
