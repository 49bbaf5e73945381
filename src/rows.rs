//! Rows as the store returns them: JSON values read only through their
//! string fields.

use vstd::prelude::*;
use crate::text::{is_blank, has_substring, lower_of, strip_char, trim};
use crate::text::{contains_text, is_blank_text, lowercase, strip, trim_text};

verus! {

/// A row record, or any other JSON value.
#[verifier::external_type_specification]
#[verifier::external_body]
pub struct ExValue(serde_json::Value);

/// The fields of a JSON object whose values are strings, by key; empty for
/// a value that is not an object.
pub uninterp spec fn text_fields(v: serde_json::Value) -> Map<Seq<char>, Seq<char>>;

/// Relies on the derived `Clone` of `serde_json::Value`: a deep copy.
pub assume_specification[ <serde_json::Value as Clone>::clone ](v: &serde_json::Value) -> (r:
    serde_json::Value)
    ensures
        r == *v,
;

/// Relies on `serde_json::Value::get` with a `&str` key and on
/// `Value::as_str`: the string stored under `key` in a JSON object.
#[verifier::external_body]
pub(crate) fn text_field(row: &serde_json::Value, key: &str) -> (r: Option<String>)
    ensures
        r is Some <==> text_fields(*row).contains_key(key@),
        r matches Some(t) ==> t@ == text_fields(*row)[key@],
{
    row.get(key).and_then(serde_json::Value::as_str).map(|t| t.to_string())
}

/// The `id` column of a row, when it holds a string.
pub open spec fn row_id(row: serde_json::Value) -> Option<Seq<char>> {
    if text_fields(row).contains_key("id"@) {
        Some(text_fields(row)["id"@])
    } else {
        None
    }
}

/// Reads the `id` column of a row.
pub fn extract_id(row: &serde_json::Value) -> (r: Option<String>)
    ensures
        r is Some <==> row_id(*row) is Some,
        r matches Some(id) ==> row_id(*row) == Some(id@),
{
    text_field(row, "id")
}

/// A row with a non-empty string in its `id` column, as every written row
/// must be.
pub open spec fn has_id(row: serde_json::Value) -> bool {
    row_id(row) matches Some(id) && id.len() > 0
}

/// Whether a row carries a non-empty identifier.
pub fn row_has_id(row: &serde_json::Value) -> (r: bool)
    ensures
        r == has_id(*row),
{
    match extract_id(row) {
        Some(id) => !id.as_str().is_empty(),
        None => false,
    }
}

/// The identifier an insert hands back, without the JSON quotes that may
/// surround it.
pub fn normalize_id(raw: &str) -> (r: String)
    ensures
        r@ == strip_char(raw@, '"'),
{
    strip(raw, '"').to_owned()
}

/// The needle of an account search: the trimmed, lower-cased search text,
/// or none when the text is absent or blank.
pub open spec fn search_needle(search: Option<Seq<char>>) -> Option<Seq<char>> {
    match search {
        Some(s) => if is_blank(s) {
            None
        } else {
            Some(lower_of(trim(s)))
        },
        None => None,
    }
}

/// A row whose `name` column, lower-cased, holds `needle`. A row without a
/// `name` string never matches.
pub open spec fn name_matches(row: serde_json::Value, needle: Seq<char>) -> bool {
    &&& text_fields(row).contains_key("name"@)
    &&& has_substring(lower_of(text_fields(row)["name"@]), needle)
}

/// The rows whose name holds `needle`, in their order.
pub open spec fn rows_named(rows: Seq<serde_json::Value>, needle: Seq<char>) -> Seq<
    serde_json::Value,
> {
    rows.filter(|row: serde_json::Value| name_matches(row, needle))
}

/// The rows an account listing keeps for a search text.
pub open spec fn accounts_found(rows: Seq<serde_json::Value>, search: Option<Seq<char>>) -> Seq<
    serde_json::Value,
> {
    match search_needle(search) {
        Some(needle) => rows_named(rows, needle),
        None => rows,
    }
}

/// The view of an optional string.
pub open spec fn opt_view(s: Option<String>) -> Option<Seq<char>> {
    match s {
        Some(t) => Some(t@),
        None => None,
    }
}

/// Keeps the rows whose name contains `needle` (already lower-cased),
/// comparing against each lower-cased name.
pub fn keep_rows_named(rows: &Vec<serde_json::Value>, needle: &str) -> (r: Vec<serde_json::Value>)
    ensures
        r@ == rows_named(rows@, needle@),
{
    let mut out: Vec<serde_json::Value> = Vec::new();
    let mut i: usize = 0;
    while i < rows.len()
        invariant
            i <= rows@.len(),
            out@ == rows_named(rows@.subrange(0, i as int), needle@),
        decreases rows@.len() - i,
    {
        let ghost pre = rows@.subrange(0, i as int);
        let ghost next = rows@.subrange(0, i + 1);
        assert(next.drop_last() =~= pre);
        assert(next.last() == rows@[i as int]);
        proof {
            reveal(Seq::filter);
        }
        let keep = match text_field(&rows[i], "name") {
            Some(name) => {
                let lower = lowercase(name.as_str());
                contains_text(lower.as_str(), needle)
            },
            None => false,
        };
        if keep {
            out.push(rows[i].clone());
        }
        i = i + 1;
    }
    assert(rows@.subrange(0, rows@.len() as int) =~= rows@);
    out
}

/// Applies the search text of an account listing to the rows the store
/// returned: blank or absent text keeps every row.
pub fn filter_accounts(rows: Vec<serde_json::Value>, search: &Option<String>) -> (r: Vec<
    serde_json::Value,
>)
    ensures
        r@ == accounts_found(rows@, opt_view(*search)),
{
    match search {
        Some(s) => {
            if is_blank_text(s.as_str()) {
                rows
            } else {
                let needle = lowercase(trim_text(s.as_str()));
                keep_rows_named(&rows, needle.as_str())
            }
        },
        None => rows,
    }
}

} // verus!
