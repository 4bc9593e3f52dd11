//! Why a range could not be given.
use vstd::prelude::*;
use async_graphql::Error;

verus! {

/// The server's `Error`: carried through, never opened.
#[verifier::external_type_specification]
#[verifier::external_body]
pub struct ExError(Error);

/// Why a range could not be given.
#[derive(Debug)]
pub enum RpcError {
    /// The server could not hand out what was asked of it.
    GraphQl(Error),
    /// The pipeline has no lower watermark.
    NoWatermark { pipeline: String },
}

} // verus!
