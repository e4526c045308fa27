//! Names of tables, and the names by which a primary key is recognised.

use vstd::prelude::*;

verus! {

/// The snake case form of a string, as `convert_case` computes it for
/// `Case::Snake` with its default word boundaries.
pub uninterp spec fn snake_case(s: Seq<char>) -> Seq<char>;

/// Calls `convert_case::Casing::to_case` with `convert_case::Case::Snake`.
///
/// The conversion reads nothing but the string, so the contract gives its
/// result a name, [`snake_case`], and claims nothing more of it.
#[verifier::external_body]
pub(crate) fn to_snake_case(s: &String) -> (r: String)
    ensures
        r@ == snake_case(s@),
{
    convert_case::Casing::to_case(s, convert_case::Case::Snake)
}

/// Whether a column of this name is taken for the primary key of the table
/// `table_name` where no column is marked: `id`, `uuid`, or the table's name
/// followed by `_id` or `_uuid`.
pub open spec fn is_primary_key_name(name: Seq<char>, table_name: Seq<char>) -> bool {
    ||| name == "id"@
    ||| name == "uuid"@
    ||| name == table_name + "_id"@
    ||| name == table_name + "_uuid"@
}

/// Decides [`is_primary_key_name`].
pub fn names_primary_key(name: &String, table_name: &String) -> (r: bool)
    ensures
        r == is_primary_key_name(name@, table_name@),
{
    if *name == String::from_str("id") || *name == String::from_str("uuid") {
        return true;
    }
    let with_id = table_name.clone().concat("_id");
    if *name == with_id {
        return true;
    }
    let with_uuid = table_name.clone().concat("_uuid");
    *name == with_uuid
}

} // verus!
