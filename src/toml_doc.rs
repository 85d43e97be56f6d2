//! The TOML documents that the structured-table codec reads, as far as the
//! codec looks into them: tables, and strings under keys.

use vstd::prelude::*;

verus! {

#[verifier::external_type_specification]
#[verifier::external_body]
pub struct ExTomlValue(toml::Value);

#[verifier::external_type_specification]
#[verifier::external_body]
pub struct ExTomlError(toml::de::Error);

/// What `toml::from_str` makes of `text`: the document it reads, or the
/// error it reports; it depends on the text alone.
pub uninterp spec fn toml_parse_of(text: Seq<char>) -> Result<toml::Value, toml::de::Error>;

/// The description that a TOML parse error displays.
pub uninterp spec fn toml_error_text(e: toml::de::Error) -> Seq<char>;

/// Whether `toml::from_str` accepts `text` as a TOML document.
pub open spec fn toml_accepts(text: Seq<char>) -> bool {
    toml_parse_of(text) is Ok
}

/// The document that `toml::from_str` reads from an accepted `text`.
pub open spec fn toml_doc_of(text: Seq<char>) -> toml::Value {
    toml_parse_of(text)->Ok_0
}

/// The entries of a TOML value that is a table; none for any other value.
pub uninterp spec fn toml_entries(v: toml::Value) -> Option<Map<Seq<char>, toml::Value>>;

/// The text of a TOML value that is a string; none for any other value.
pub uninterp spec fn toml_text(v: toml::Value) -> Option<Seq<char>>;

/// Relies on `toml::from_str`: it reads `content` as a TOML document, and
/// its result depends on the text alone.
#[verifier::external_body]
pub(crate) fn parse_toml(content: &str) -> (r: Result<toml::Value, toml::de::Error>)
    ensures
        r == toml_parse_of(content@),
{
    toml::from_str(content)
}

/// Relies on `toml::Value::get` with a string index: on a table, the value
/// under that key if there is one; on any other value, none.
#[verifier::external_body]
pub(crate) fn toml_get<'a>(v: &'a toml::Value, key: &str) -> (r: Option<&'a toml::Value>)
    ensures
        match toml_entries(*v) {
            Some(m) => match r {
                Some(x) => m.contains_key(key@) && m[key@] == *x,
                None => !m.contains_key(key@),
            },
            None => r is None,
        },
{
    v.get(key)
}

/// Relies on `toml::Value::as_str`: the text of a string value, none for any
/// other value.
#[verifier::external_body]
pub(crate) fn toml_as_str<'a>(v: &'a toml::Value) -> (r: Option<&'a str>)
    ensures
        match r {
            Some(s) => toml_text(*v) == Some(s@),
            None => toml_text(*v) is None,
        },
{
    v.as_str()
}

/// Relies on the `Display` of `toml::de::Error`: a description of the fault.
#[verifier::external_body]
pub(crate) fn describe_toml_error(e: &toml::de::Error) -> (r: String)
    ensures
        r@ == toml_error_text(*e),
{
    e.to_string()
}

/// The value under `k` of a table value.
pub open spec fn toml_lookup(v: Option<toml::Value>, k: Seq<char>) -> Option<toml::Value> {
    match v {
        Some(x) => match toml_entries(x) {
            Some(m) => if m.contains_key(k) {
                Some(m[k])
            } else {
                None
            },
            None => None,
        },
        None => None,
    }
}

pub(crate) fn lookup_exec<'a>(v: Option<&'a toml::Value>, k: &str) -> (r: Option<&'a toml::Value>)
    ensures
        match r {
            Some(x) => toml_lookup(
                match v {
                    Some(y) => Some(*y),
                    None => None,
                },
                k@,
            ) == Some(*x),
            None => toml_lookup(
                match v {
                    Some(y) => Some(*y),
                    None => None,
                },
                k@,
            ) is None,
        },
{
    match v {
        Some(x) => toml_get(x, k),
        None => None,
    }
}

} // verus!
