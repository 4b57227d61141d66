//! Path lookup over tree-shaped values.
//!
//! A [types::Tokenizer] decides the syntax of a path; a [types::Queryable]
//! value says how it is descended one step at a time. [lookup] resolves a
//! whole path against a value.
use vstd::prelude::*;

pub mod default;
pub mod error;
pub mod kind;
pub mod numeral;
pub mod types;

use error::Error;
use types::{Query, Queryable, Tokenizer};

verus! {

/// Resolves the path `query` against `v`, with the syntax of the tokenizer `T`.
///
/// ```
/// // lookup::<_, DefaultTokenizer>(&value, "[0].name");
/// // lookup::<_, SlashTokenizer>(&value, "/0/name");
/// ```
pub fn lookup<V: Queryable, T: Tokenizer>(v: &V, query: &str) -> (r: Result<V, Error>)
    ensures
        types::query_result_view(r) == types::query_model::<V, T>(*v, query@),
{
    v.query::<T>(query)
}

/// A lookup has no hidden state: two lookups of one path on one unchanged
/// value give the same answer.
pub proof fn lemma_lookup_idempotent<V: Queryable, T: Tokenizer>(
    v: V,
    path: Seq<char>,
    first: Result<V, Error>,
    second: Result<V, Error>,
)
    requires
        types::query_result_view(first) == types::query_model::<V, T>(v, path),
        types::query_result_view(second) == types::query_model::<V, T>(v, path),
    ensures
        types::query_result_view(first) == types::query_result_view(second),
        first is Ok <==> second is Ok,
        first is Ok ==> first->Ok_0 == second->Ok_0,
{
}

} // verus!
