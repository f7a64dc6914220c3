//! Questions about YAML documents.

use vstd::prelude::*;

verus! {

/// The string that three nested mapping keys find in a YAML document, if there is one.
pub uninterp spec fn yaml_text_at(
    document: Seq<char>,
    first: Seq<char>,
    second: Seq<char>,
    third: Seq<char>,
) -> Option<Seq<char>>;

/// Finds a string with `serde_yaml_ng::from_str`, `serde_yaml_ng::Value::get` and
/// `serde_yaml_ng::Value::as_str`: nothing where the document is not YAML, a key is
/// absent, or the value is no string. The result is named [`yaml_text_at`].
#[verifier::external_body]
pub(crate) fn find_text(document: &str, first: &str, second: &str, third: &str) -> (r: Option<
    String,
>)
    ensures
        r is Some == yaml_text_at(document@, first@, second@, third@) is Some,
        r matches Some(s) ==> yaml_text_at(document@, first@, second@, third@) == Some(s@),
{
    let value: serde_yaml_ng::Value = serde_yaml_ng::from_str(document).ok()?;
    value.get(first)?.get(second)?.get(third)?.as_str().map(str::to_owned)
}

/// Whether `candidate` is a YAML document equal to `document` but for the value under
/// three nested keys, which is the string `value`.
pub uninterp spec fn yaml_differs_only_at(
    document: Seq<char>,
    candidate: Seq<char>,
    first: Seq<char>,
    second: Seq<char>,
    third: Seq<char>,
    value: Seq<char>,
) -> bool;

/// Reads both documents with `serde_yaml_ng::from_str`, puts the string at the keys of
/// the first through `serde_yaml_ng::Value::get_mut`, and compares the two values: false
/// where either is not YAML or a key is absent. The result is named
/// [`yaml_differs_only_at`]. Where it holds, the candidate has the string at the keys.
#[verifier::external_body]
pub(crate) fn differs_only_at(
    document: &str,
    candidate: &str,
    first: &str,
    second: &str,
    third: &str,
    value: &str,
) -> (r: bool)
    ensures
        r == yaml_differs_only_at(document@, candidate@, first@, second@, third@, value@),
        r ==> yaml_text_at(candidate@, first@, second@, third@) == Some(value@),
{
    let Ok(mut expected) = serde_yaml_ng::from_str::<serde_yaml_ng::Value>(document) else {
        return false;
    };
    match expected.get_mut(first).and_then(|v| v.get_mut(second)).and_then(|v| v.get_mut(third)) {
        Some(slot) => *slot = serde_yaml_ng::Value::String(value.to_owned()),
        None => return false,
    }
    serde_yaml_ng::from_str::<serde_yaml_ng::Value>(candidate).ok() == Some(expected)
}

/// The string that a YAML scalar denotes, if it denotes one.
pub uninterp spec fn yaml_string(scalar: Seq<char>) -> Option<Seq<char>>;

/// Reads a string with `serde_yaml_ng::from_str::<String>`. The result is named
/// [`yaml_string`].
#[verifier::external_body]
pub(crate) fn read_string(scalar: &str) -> (r: Option<String>)
    ensures
        r is Some == yaml_string(scalar@) is Some,
        r matches Some(s) ==> yaml_string(scalar@) == Some(s@),
{
    serde_yaml_ng::from_str(scalar).ok()
}

} // verus!
