//! What is shared through the context of a GraphQL request.
use vstd::prelude::*;
use std::sync::Arc;
use async_graphql::parser::types::Field;
use async_graphql::{Context, ContextBase, Error, Positioned};
use crate::watermarks::Watermarks;

verus! {

/// The server's `ContextBase`, of which `Context` is an instance: carried through, never opened.
#[verifier::external_type_specification]
#[verifier::external_body]
#[verifier::reject_recursive_types(T)]
pub struct ExContextBase<'a, T>(ContextBase<'a, T>);

/// The server's `Positioned`, which occurs in the type `Context`.
#[verifier::external_type_specification]
#[verifier::external_body]
#[verifier::reject_recursive_types(T)]
pub struct ExPositioned<T: ?Sized>(Positioned<T>);

/// The server's `Field`, which occurs in the type `Context`.
#[verifier::external_type_specification]
#[verifier::external_body]
pub struct ExField(Field);

/// The watermarks among the data of a context, if there are any.
pub uninterp spec fn context_watermarks(ctx: &Context<'_>) -> Option<Map<Seq<char>, u64>>;

/// `Context::data`, asked for the shared watermarks. The call goes through the data of the
/// execution, the request, the session and the schema, each of which holds at most one value of a
/// type, and hands out the first value of the type that it finds, or an error where there is none.
/// Nothing is claimed of what the error says: it holds the name that the compiler gives the type.
#[verifier::external_body]
pub(crate) fn watermarks_in<'a>(ctx: &Context<'a>) -> (res: Result<&'a Arc<Watermarks>, Error>)
    ensures
        match res {
            Ok(watermarks) => context_watermarks(ctx) == Some(watermarks@),
            Err(_) => context_watermarks(ctx) is None,
        },
{
    ctx.data::<Arc<Watermarks>>()
}

} // verus!
