//! How operations are named after the index they query.

use vstd::prelude::*;
use vstd::string::*;
use crate::text::{lowercase, replace_char, replaced, to_lowercase};

verus! {

/// The name of the operation on the table itself.
pub const PRIMARY_NAME: &'static str = "query";

/// What the name of every operation on a secondary index begins with.
pub const INDEX_PREFIX: &'static str = "query_";

/// An index name in the form it takes inside an operation name: lower-cased,
/// with every `-` turned into `_`.
pub open spec fn normalized(index: Seq<char>) -> Seq<char> {
    replaced(lowercase(index), '-', "_"@)
}

/// The operation name derived from an optional index name: `query` for the
/// table, `query_` followed by the normalized index name for an index.
pub open spec fn operation_name(index: Option<Seq<char>>) -> Seq<char> {
    match index {
        None => PRIMARY_NAME@,
        Some(name) => INDEX_PREFIX@ + normalized(name),
    }
}

/// Names the operation on an index from the lower-cased index name.
pub fn index_operation_name(lowered: &str) -> (name: String)
    ensures
        name@ == INDEX_PREFIX@ + replaced(lowered@, '-', "_"@),
{
    let body = replace_char(lowered, '-', "_");
    String::from_str(INDEX_PREFIX).concat(body.as_str())
}

/// Derives the name of the operation on the index called `index`.
pub fn name_index_operation(index: &str) -> (name: String)
    ensures
        name@ == operation_name(Some(index@)),
{
    let lowered = to_lowercase(index);
    index_operation_name(lowered.as_str())
}

/// Derives the operation name for the table (`None`) or for a named index.
pub fn derive_operation_name(index: &Option<String>) -> (name: String)
    ensures
        name@ == operation_name(index.deep_view()),
{
    match index {
        None => String::from_str(PRIMARY_NAME),
        Some(index_name) => name_index_operation(index_name.as_str()),
    }
}

/// The operation on the table is never named like an operation on an index,
/// whatever the index is called.
pub proof fn lemma_primary_name_is_reserved(index: Seq<char>)
    ensures
        operation_name(Some(index)) != operation_name(None),
{
    reveal_strlit("query");
    reveal_strlit("query_");
    assert(operation_name(Some(index)).len() >= 6);
    assert(operation_name(None).len() == 5);
}

} // verus!
