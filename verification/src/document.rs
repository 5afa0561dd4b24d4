//! TOML documents, read through `toml`.

use vstd::prelude::*;

verus! {

/// What a TOML document is, as far as the configuration has a use for it.
pub enum Toml {
    Text(Seq<char>),
    Flag(bool),
    List(Seq<Toml>),
    Table(Map<Seq<char>, Toml>),
    /// A number or a date.
    Other,
}

/// A value of `toml`, of which only [`toml_of`] tells what it holds.
#[verifier::external_type_specification]
#[verifier::external_body]
pub struct ExTomlValue(toml::Value);

/// The document that a `toml::Value` holds.
pub uninterp spec fn toml_of(value: toml::Value) -> Toml;

/// What `toml` reads from a text: a document, or the text of its complaint.
pub uninterp spec fn toml_parse(source: Seq<char>) -> Result<Toml, Seq<char>>;

/// Calls `toml::from_str`. An empty text is an empty table.
#[verifier::external_body]
pub(crate) fn parse_document(source: &str) -> (r: Result<toml::Value, String>)
    ensures
        r matches Ok(value) ==> toml_parse(source@) matches Ok(read) && read == toml_of(value),
        r matches Err(text) ==> toml_parse(source@) matches Err(said) && said == text@,
        source@.len() == 0 ==> r is Ok && toml_of(r->Ok_0) == Toml::Table(Map::empty()),
{
    match toml::from_str(source) {
        Ok(value) => Ok(value),
        Err(e) => Err(e.to_string()),
    }
}

/// Calls `toml::Value::get` with a text key: what a table has under the key.
#[verifier::external_body]
pub(crate) fn member<'a>(value: &'a toml::Value, key: &str) -> (r: Option<&'a toml::Value>)
    ensures
        r matches Some(m) ==> toml_of(*value) matches Toml::Table(t) && t.dom().contains(key@)
            && toml_of(*m) == t[key@],
        r is None ==> !(toml_of(*value) matches Toml::Table(t) && t.dom().contains(key@)),
{
    value.get(key)
}

/// Calls `toml::Value::as_table` and lists the keys of the table: each of them, in some order.
#[verifier::external_body]
pub(crate) fn keys(value: &toml::Value) -> (r: Option<Vec<String>>)
    ensures
        r matches Some(keys) ==> toml_of(*value) matches Toml::Table(t) && forall|i: int|
            0 <= i < keys@.len() ==> t.dom().contains(#[trigger] keys@[i]@),
        r matches Some(keys) ==> toml_of(*value) matches Toml::Table(t) && forall|key: Seq<char>| #[trigger]
            t.dom().contains(key) ==> exists|i: int| 0 <= i < keys@.len() && keys@[i]@ == key,
        r is None ==> !(toml_of(*value) is Table),
{
    match value.as_table() {
        Some(table) => Some(table.keys().cloned().collect()),
        None => None,
    }
}

/// `toml::Value::as_str` returns the text of a text, and nothing for anything else.
pub assume_specification[ toml::Value::as_str ](value: &toml::Value) -> (r: Option<&str>)
    ensures
        r matches Some(s) ==> toml_of(*value) == Toml::Text(s@),
        r is None ==> !(toml_of(*value) is Text),
;

/// `toml::Value::as_bool` returns a flag, and nothing for anything else.
pub assume_specification[ toml::Value::as_bool ](value: &toml::Value) -> (r: Option<bool>)
    ensures
        r matches Some(b) ==> toml_of(*value) == Toml::Flag(b),
        r is None ==> !(toml_of(*value) is Flag),
;

/// The documents that a list of `toml::Value`s holds.
pub open spec fn toml_list(values: Seq<toml::Value>) -> Seq<Toml> {
    values.map_values(|value: toml::Value| toml_of(value))
}

/// `toml::Value::as_array` returns the items of a list, and nothing for anything else.
pub assume_specification[ toml::Value::as_array ](value: &toml::Value) -> (r: Option<
    &Vec<toml::Value>,
>)
    ensures
        r matches Some(items) ==> toml_of(*value) == Toml::List(toml_list(items@)),
        r is None ==> !(toml_of(*value) is List),
;

} // verus!
