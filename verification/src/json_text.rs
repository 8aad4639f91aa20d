//! JSON text for rows of named texts.

use serde_json::Value;
use vstd::prelude::*;

verus! {

/// The text that `serde_json::to_string_pretty` gives for the JSON object
/// with the one member `key`: an array that holds one object for each row,
/// whose members are the names and texts of the row, as strings, in the
/// order of the row.
pub uninterp spec fn pretty_rows_text(
    key: Seq<char>,
    rows: Seq<Seq<(Seq<char>, Seq<char>)>>,
) -> Seq<char>;

/// Builds a `serde_json::Value` from `key` and `rows` and hands it to
/// `serde_json::to_string_pretty`, which does not fail on a value made of
/// objects, arrays and strings.
#[verifier::external_body]
pub(crate) fn pretty_rows(key: &str, rows: &Vec<Vec<(String, String)>>) -> (text: String)
    ensures
        text@ == pretty_rows_text(key@, rows.deep_view()),
{
    let object = |row: &Vec<(String, String)>| {
        Value::Object(row.iter().map(|(k, v)| (k.clone(), Value::String(v.clone()))).collect())
    };
    let mut root = serde_json::Map::new();
    root.insert(key.to_owned(), Value::Array(rows.iter().map(object).collect()));
    serde_json::to_string_pretty(&Value::Object(root)).unwrap()
}

} // verus!
