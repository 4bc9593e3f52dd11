//! The range itself, and the query component that it is asked for.
use vstd::prelude::*;
use async_graphql::Context;
use crate::context::{context_watermarks, watermarks_in};
use crate::error::RpcError;
use crate::pipelines::{collect_pipelines, pipelines_for};
use crate::string_set::{ascending, texts, StringSet};
use crate::strings::precedes;
use crate::watermarks::Watermarks;

verus! {

/// Identifies a GraphQL query component that is used to determine the range of checkpoints for
/// which data is available (for data that can be tied to a particular checkpoint).
///
/// Both `type_` and `field` are required. The `filters` are optional and provide retention
/// information for filtered queries.
#[derive(Debug, Clone, Eq, PartialEq)]
pub struct AvailableRangeKey {
    /// The GraphQL type to check retention for
    pub type_: String,
    /// The specific field within the type to check retention for
    pub field: Option<String>,
    /// Optional filters to check retention for filtered queries
    pub filters: Option<Vec<String>>,
}

impl AvailableRangeKey {
    /// The name of the field, if one is given.
    pub open spec fn field_name(self) -> Option<Seq<char>> {
        match self.field {
            Some(f) => Some(f@),
            None => None,
        }
    }

    /// The filters as a set: none where none are given.
    pub open spec fn filter_set(self) -> Set<Seq<char>> {
        match self.filters {
            Some(v) => texts(v@).to_set(),
            None => Set::empty(),
        }
    }

    /// The pipelines that the data comes from.
    pub open spec fn pipelines(self) -> Set<Seq<char>> {
        pipelines_for(self.type_@, self.field_name(), self.filter_set())
    }
}

/// `first` is the first checkpoint that none of the pipelines `needed` has lost: the highest of
/// their lower watermarks `lo`, or 0 where there is no pipeline.
pub open spec fn is_first_available(
    needed: Set<Seq<char>>,
    lo: Map<Seq<char>, u64>,
    first: u64,
) -> bool {
    &&& forall|p: Seq<char>| #[trigger] needed.contains(p) ==> lo.contains_key(p) && lo[p] <= first
    &&& first == 0 || exists|p: Seq<char>| #[trigger] needed.contains(p) && lo[p] == first
}

/// `missing` is the least of the pipelines `needed` that have no lower watermark in `lo`.
pub open spec fn is_first_missing(
    needed: Set<Seq<char>>,
    lo: Map<Seq<char>, u64>,
    missing: Seq<char>,
) -> bool {
    &&& needed.contains(missing)
    &&& !lo.contains_key(missing)
    &&& forall|p: Seq<char>| #[trigger]
        needed.contains(p) && !lo.contains_key(p) ==> p == missing || precedes(
            missing,
            p,
        )
}

/// Checkpoint range for which data is available, within the scope of a query.
pub struct AvailableRange<S> {
    pub scope: S,
    pub first: u64,
}

impl<S: Clone> Clone for AvailableRange<S> {
    fn clone(&self) -> (res: Self)
        ensures
            cloned(self.scope, res.scope),
            res.first == self.first,
    {
        AvailableRange { scope: self.scope.clone(), first: self.first }
    }
}

impl<S: Clone> AvailableRange<S> {
    /// What is made of the watermarks `lo`: a range where all of the pipelines behind `key` have
    /// one, otherwise an error that names the first of them that has none.
    pub open spec fn follows(
        lo: Map<Seq<char>, u64>,
        scope: S,
        key: AvailableRangeKey,
        res: Result<AvailableRange<S>, RpcError>,
    ) -> bool {
        match res {
            Ok(range) => {
                &&& cloned(scope, range.scope)
                &&& is_first_available(key.pipelines(), lo, range.first)
            },
            Err(RpcError::NoWatermark { pipeline }) => is_first_missing(
                key.pipelines(),
                lo,
                pipeline@,
            ),
            Err(RpcError::GraphQl(_)) => false,
        }
    }

    /// Get retention information for a specific query type and field
    pub fn new(ctx: &Context<'_>, scope: &S, retention_key: AvailableRangeKey) -> (res: Result<
        Self,
        RpcError,
    >)
        ensures
            match context_watermarks(ctx) {
                Some(lo) => Self::follows(lo, *scope, retention_key, res),
                None => res matches Err(RpcError::GraphQl(_)),
            },
    {
        match watermarks_in(ctx) {
            Ok(watermarks) => Self::from_watermarks(watermarks, scope, retention_key),
            Err(e) => Err(RpcError::GraphQl(e)),
        }
    }

    /// Retention information for a specific query type and field, from given watermarks
    pub fn from_watermarks(
        watermarks: &Watermarks,
        scope: &S,
        retention_key: AvailableRangeKey,
    ) -> (res: Result<Self, RpcError>)
        ensures
            Self::follows(watermarks@, *scope, retention_key, res),
    {
        let filters: StringSet = match retention_key.filters {
            Some(v) => StringSet::from_vec(v),
            None => StringSet::new(),
        };
        let field: Option<&str> = match &retention_key.field {
            Some(f) => Some(f.as_str()),
            None => None,
        };
        let mut pipelines = StringSet::new();
        collect_pipelines(retention_key.type_.as_str(), field, filters, &mut pipelines);
        assert(pipelines@ =~= retention_key.pipelines());
        match first_available(watermarks, &pipelines) {
            Ok(first) => Ok(AvailableRange { scope: scope.clone(), first }),
            Err(e) => Err(e),
        }
    }

    /// Inclusive lower checkpoint for which data is available: what `with_sequence_number` makes
    /// of the scope and the sequence number.
    pub fn first<C, F: FnOnce(S, Option<u64>) -> Option<C>>(&self, with_sequence_number: F) -> (res:
        Result<Option<C>, RpcError>)
        requires
            forall|s: S| #[trigger]
                cloned(self.scope, s) ==> with_sequence_number.requires((s, Some(self.first))),
        ensures
            res is Ok,
            exists|s: S| #[trigger]
                cloned(self.scope, s) && with_sequence_number.ensures(
                    (s, Some(self.first)),
                    res->Ok_0,
                ),
    {
        let scope = self.scope.clone();
        assert(cloned(self.scope, scope));
        Ok(with_sequence_number(scope, Some(self.first)))
    }

    /// Inclusive upper checkpoint for which data is available: what `with_sequence_number` makes
    /// of the scope without a sequence number, which stands for the last checkpoint in it.
    pub fn last<C, F: FnOnce(S, Option<u64>) -> Option<C>>(&self, with_sequence_number: F) -> (res:
        Result<Option<C>, RpcError>)
        requires
            forall|s: S| #[trigger]
                cloned(self.scope, s) ==> with_sequence_number.requires((s, None)),
        ensures
            res is Ok,
            exists|s: S| #[trigger]
                cloned(self.scope, s) && with_sequence_number.ensures((s, None), res->Ok_0),
    {
        let scope = self.scope.clone();
        assert(cloned(self.scope, scope));
        Ok(with_sequence_number(scope, None))
    }
}

/// The first checkpoint that none of `pipelines` has lost, or an error that names the first of
/// them that has no watermark.
pub fn first_available(watermarks: &Watermarks, pipelines: &StringSet) -> (res: Result<
    u64,
    RpcError,
>)
    ensures
        match res {
            Ok(first) => is_first_available(pipelines@, watermarks@, first),
            Err(RpcError::NoWatermark { pipeline }) => is_first_missing(
                pipelines@,
                watermarks@,
                pipeline@,
            ),
            Err(RpcError::GraphQl(_)) => false,
        },
{
    let members: &Vec<String> = pipelines.members();
    let ghost all = texts(members@);
    let mut first: u64 = 0;
    let mut i: usize = 0;
    while i < members.len()
        invariant
            i <= members@.len(),
            all == texts(members@),
            all.to_set() == pipelines@,
            ascending(all),
            forall|j: int|
                0 <= j < i ==> watermarks@.contains_key(#[trigger] all[j]) && watermarks@[all[j]]
                    <= first,
            first == 0 || exists|j: int| 0 <= j < i && watermarks@[#[trigger] all[j]] == first,
        decreases members@.len() - i,
    {
        assert(all[i as int] == members@[i as int]@);
        match watermarks.pipeline_lo_watermark(members[i].as_str()) {
            Ok(checkpoint) => {
                if checkpoint > first {
                    first = checkpoint;
                }
            },
            Err(e) => {
                assert(pipelines@.contains(all[i as int]));
                return Err(e);
            },
        }
        i = i + 1;
    }
    proof {
        if first != 0 {
            let j = choose|j: int| 0 <= j < all.len() && watermarks@[#[trigger] all[j]] == first;
            assert(pipelines@.contains(all[j]));
        }
    }
    Ok(first)
}

} // verus!
