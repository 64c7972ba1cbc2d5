use vstd::prelude::*;

verus! {

/// The JSON string literal that serde_json writes for `s`.
pub uninterp spec fn json_quoted(s: Seq<char>) -> Seq<char>;

/// The string under `key` in the JSON object that `text` holds, if `text`
/// parses, is an object, and holds a string there.
pub uninterp spec fn json_str_field(text: Seq<char>, key: Seq<char>) -> Option<Seq<char>>;

/// The boolean under `key` in the JSON object that `text` holds, if any.
pub uninterp spec fn json_bool_field(text: Seq<char>, key: Seq<char>) -> Option<bool>;

/// The member `key` of the JSON object that `text` holds, written back as
/// JSON text, if `text` parses, is an object and has that member.
pub uninterp spec fn json_member(text: Seq<char>, key: Seq<char>) -> Option<Seq<char>>;

/// The elements, each written back as JSON text, of the array that `text`
/// holds, if it parses and is an array.
pub uninterp spec fn json_elements(text: Seq<char>) -> Option<Seq<Seq<char>>>;

/// Text that JSON strings carry unescaped: no `"`, no `\`, no control
/// character below U+0020.
pub open spec fn needs_no_escape(s: Seq<char>) -> bool {
    forall|i: int| 0 <= i < s.len() ==> s[i] != '"' && s[i] != '\\' && (s[i] as u32) >= 0x20
}

/// `s` between double quotes.
pub open spec fn plain_quoted(s: Seq<char>) -> Seq<char> {
    seq!['"'] + s + seq!['"']
}

/// Relies on serde_json::to_string of a `str`: the quoted, escaped JSON
/// string literal, which escapes only `"`, `\` and characters below
/// U+0020. Writing a string into memory does not fail.
#[verifier::external_body]
pub(crate) fn quote(s: &str) -> (r: String)
    ensures
        r@ == json_quoted(s@),
        needs_no_escape(s@) ==> r@ == plain_quoted(s@),
{
    serde_json::to_string(s).unwrap_or_default()
}

/// Relies on serde_json::from_str into a `Value`, `Value::get` and
/// `Value::as_str`: the string member `key` of the object in `text`.
#[verifier::external_body]
pub(crate) fn str_field(text: &str, key: &str) -> (r: Option<String>)
    ensures
        match r {
            Some(s) => json_str_field(text@, key@) == Some(s@),
            None => json_str_field(text@, key@) is None,
        },
{
    let v: serde_json::Value = serde_json::from_str(text).ok()?;
    let s = v.get(key)?.as_str()?;
    Some(s.to_string())
}

/// Relies on serde_json::from_str into a `Value`, `Value::get` and
/// `Value::as_bool`: the boolean member `key` of the object in `text`.
#[verifier::external_body]
pub(crate) fn bool_field(text: &str, key: &str) -> (r: Option<bool>)
    ensures
        r == json_bool_field(text@, key@),
{
    let v: serde_json::Value = serde_json::from_str(text).ok()?;
    v.get(key)?.as_bool()
}

/// Relies on serde_json::from_str into a `Value`, `Value::get` and
/// serde_json::to_string: the member `key` of the object in `text`, as JSON
/// text. With the `arbitrary_precision` feature numbers keep the digits they
/// were written with.
#[verifier::external_body]
pub(crate) fn member(text: &str, key: &str) -> (r: Option<String>)
    ensures
        opt_view(r) == json_member(text@, key@),
{
    let v: serde_json::Value = serde_json::from_str(text).ok()?;
    serde_json::to_string(v.get(key)?).ok()
}

/// Relies on serde_json::from_str into a `Value`, `Value::as_array` and
/// serde_json::to_string of each element: the elements of the array in
/// `text`, each as JSON text. With the `arbitrary_precision` feature numbers
/// keep the digits they were written with.
#[verifier::external_body]
pub(crate) fn elements(text: &str) -> (r: Option<Vec<String>>)
    ensures
        match r {
            Some(items) => json_elements(text@) == Some(items@.map_values(|s: String| s@)),
            None => json_elements(text@) is None,
        },
{
    let v: serde_json::Value = serde_json::from_str(text).ok()?;
    let items = v.as_array()?;
    Some(items.iter().map(|e| serde_json::to_string(e).unwrap_or_default()).collect())
}

/// The view of an optional string.
pub open spec fn opt_view(o: Option<String>) -> Option<Seq<char>> {
    match o {
        Some(s) => Some(s@),
        None => None,
    }
}

} // verus!
