//! The field selection with which a collection of wallets is serialized.
//!
//! A selection is written as JSON:API query parameters and parsed by the
//! `jsonapi` crate. The parameters are composed here, character by
//! character under a contract; the parsing is the crate's.

use jsonapi::query::Query;
use vstd::prelude::*;

verus! {

/// The query parameters as the `jsonapi` crate parses them.
#[verifier::external_type_specification]
#[verifier::external_body]
pub struct ExQuery(jsonapi::query::Query);

/// What `jsonapi::query::Query::from_params` makes of a parameter string.
pub uninterp spec fn parsed_query(params: Seq<char>) -> Query;

/// A character of a resource type or of a field name: a lower-case letter
/// or an underscore.
pub open spec fn is_name_char(c: char) -> bool {
    ('a' <= c && c <= 'z') || c == '_'
}

/// A resource type: one or more name characters.
pub open spec fn is_name(name: Seq<char>) -> bool {
    &&& name.len() > 0
    &&& forall|i: int| 0 <= i < name.len() ==> is_name_char(#[trigger] name[i])
}

/// A list of field names: name characters and the commas between them.
pub open spec fn is_name_list(names: Seq<char>) -> bool {
    forall|i: int| 0 <= i < names.len() ==> is_name_char(#[trigger] names[i]) || names[i] == ','
}

/// The parameters that select `fields` of the resources of type `kind`
/// and include no related resource.
pub open spec fn selection_params(kind: Seq<char>, fields: Seq<char>) -> Seq<char> {
    "include=[]&fields["@ + kind + "]="@ + fields
}

/// The parameters select the fields of one resource type and nothing else.
pub open spec fn is_selection(params: Seq<char>) -> bool {
    exists|kind: Seq<char>, fields: Seq<char>|
        is_name(kind) && is_name_list(fields) && params == #[trigger] selection_params(
            kind,
            fields,
        )
}

/// The parameters that select `fields` of the resources of type `kind`
/// and include no related resource.
pub fn field_selection_params(kind: &str, fields: &str) -> (params: String)
    ensures
        params@ == selection_params(kind@, fields@),
{
    let mut params = String::from_str("include=[]&fields[");
    params.append(kind);
    params.append("]=");
    params.append(fields);
    params
}

/// Calls `jsonapi::query::Query::from_params`.
///
/// The contract names the result and says nothing of what it holds. It
/// admits only parameters that select the fields of one resource type: on
/// other input the parser underneath can panic.
#[verifier::external_body]
fn parse_selection(params: &str) -> (query: Query)
    requires
        is_selection(params@),
    ensures
        query == parsed_query(params@),
{
    Query::from_params(params)
}

/// The query that selects `fields` of the resources of type `kind`.
pub(crate) fn field_selection(kind: &str, fields: &str) -> (query: Query)
    requires
        is_name(kind@),
        is_name_list(fields@),
    ensures
        query == parsed_query(selection_params(kind@, fields@)),
{
    let params = field_selection_params(kind, fields);
    parse_selection(params.as_str())
}

} // verus!
