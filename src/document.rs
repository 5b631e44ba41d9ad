//! The TOML tables that a configuration is read from, as the `toml` crate
//! parses them.
use vstd::prelude::*;

verus! {

#[verifier::external_type_specification]
#[verifier::external_body]
#[verifier::reject_recursive_types(K)]
#[verifier::reject_recursive_types(V)]
pub struct ExTomlMap<K, V>(toml::map::Map<K, V>);

#[verifier::external_type_specification]
#[verifier::external_body]
pub struct ExTomlValue(toml::Value);

#[verifier::external_type_specification]
#[verifier::external_body]
pub struct ExTomlError(toml::de::Error);

/// The entries of a TOML table: for each key, `Some(text)` where the value is
/// a string and `None` where it is of another kind.
pub uninterp spec fn table_entries(t: toml::Table) -> Map<Seq<char>, Option<Seq<char>>>;

/// The entries of the top-level table of a TOML document, or `None` where the
/// text is no valid TOML.
pub uninterp spec fn document_entries(text: Seq<char>) -> Option<Map<Seq<char>, Option<Seq<char>>>>;

/// Relies on `toml::from_str` into a `toml::Table`: the text parses or not,
/// and the table read depends on the text alone.
#[verifier::external_body]
pub(crate) fn parse_table(text: &str) -> (r: Result<toml::Table, toml::de::Error>)
    ensures
        r is Ok <==> document_entries(text@) is Some,
        r is Ok ==> document_entries(text@) == Some(table_entries(r->Ok_0)),
{
    toml::from_str::<toml::Table>(text)
}

/// Relies on `toml::map::Map::remove`: takes the value held under `key` out of
/// the table, if there is one, and leaves the other entries as they were. A
/// string value is handed out as its text.
#[verifier::external_body]
pub(crate) fn take_entry(t: &mut toml::Table, key: &str) -> (r: Option<Option<String>>)
    ensures
        table_entries(*final(t)) == table_entries(*old(t)).remove(key@),
        r is None <==> !table_entries(*old(t)).contains_key(key@),
        r is Some ==> table_entries(*old(t))[key@] == match r->Some_0 {
            Some(s) => Some(s@),
            None => None::<Seq<char>>,
        },
{
    match t.remove(key) {
        None => None,
        Some(toml::Value::String(s)) => Some(Some(s)),
        Some(_) => Some(None),
    }
}

} // verus!
