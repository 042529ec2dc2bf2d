//! The logic of the `use` command: rendering the pin file, the JSON document
//! that records the SDK version a project is held to. The version string is
//! embedded unvalidated and unchanged; only JSON string escaping stands
//! between it and the file.

use vstd::prelude::*;
use vstd::string::*;

verus! {

/// What serde_json makes of a string: the text between double quotes, with
/// the characters that JSON cannot carry verbatim escaped.
pub uninterp spec fn json_quoted(s: Seq<char>) -> Seq<char>;

/// A character that JSON string escaping passes through verbatim: everything
/// but the double quote, the backslash and the control characters below
/// U+0020.
pub open spec fn json_plain_char(c: char) -> bool {
    c != '"' && c != '\\' && c as u32 >= 32
}

/// Whether every character of `v` survives JSON string escaping unchanged.
pub open spec fn json_plain(v: Seq<char>) -> bool {
    forall|i: int| 0 <= i < v.len() ==> json_plain_char(v[i])
}

/// Relies on serde_json::to_string for `&str`: it wraps the text in double
/// quotes and escapes exactly the double quote, the backslash and the
/// control characters below U+0020, writing every other character verbatim.
/// Serialising a string into memory cannot fail, so the error branch is
/// never taken.
#[verifier::external_body]
fn quote_json_string(s: &str) -> (r: String)
    ensures
        r@ == json_quoted(s@),
        json_plain(s@) ==> r@ == seq!['"'] + s@ + seq!['"'],
{
    serde_json::to_string(s).unwrap_or_default()
}

/// The pin document text up to the version value, as the pretty printer
/// writes it.
pub open spec fn pin_prefix() -> Seq<char> {
    "{\n  \"sdk\": {\n    \"version\": "@
}

/// The pin document text after the version value.
pub open spec fn pin_suffix() -> Seq<char> {
    "\n  }\n}"@
}

/// The whole pin document for version `v`: a pretty-printed JSON object
/// whose single `sdk.version` field carries `v`.
pub open spec fn pin_document(v: Seq<char>) -> Seq<char> {
    pin_prefix() + json_quoted(v) + pin_suffix()
}

/// The pin document for a version that needs no escaping: `v` stands in it
/// verbatim between double quotes.
pub open spec fn pin_document_plain(v: Seq<char>) -> Seq<char> {
    pin_prefix() + seq!['"'] + v + seq!['"'] + pin_suffix()
}

/// The name of the pin file, written into the home directory.
pub open spec fn pin_file_name_spec() -> Seq<char> {
    "global.json"@
}

/// The name of the pin file as a value.
pub fn pin_file_name() -> (r: &'static str)
    ensures
        r@ == pin_file_name_spec(),
{
    "global.json"
}

/// The contents of the pin file for `version`: the version string is taken
/// as it is, with no validation and no normalisation, and for any version
/// that needs no JSON escaping it appears in the document character for
/// character.
pub fn pin_file_contents(version: &str) -> (r: String)
    ensures
        r@ == pin_document(version@),
        json_plain(version@) ==> r@ == pin_document_plain(version@),
{
    let quoted = quote_json_string(version);
    let mut out = "{\n  \"sdk\": {\n    \"version\": ".to_owned();
    out.append(quoted.as_str());
    out.append("\n  }\n}");
    proof {
        assert(out@ =~= pin_document(version@));
        if json_plain(version@) {
            assert(out@ =~= pin_document_plain(version@));
        }
    }
    out
}

} // verus!
