use vstd::prelude::*;

verus! {

/// The entries of the top-level table that TOML text holds, each value given
/// as its text when it is a string; `None` when the bytes are no TOML document.
pub uninterp spec fn toml_entries(bytes: Seq<u8>) -> Option<Seq<(Seq<char>, Option<Seq<char>>)>>;

/// The bytes of the TOML document that holds the given string entries;
/// `None` when the encoder refuses them.
pub uninterp spec fn toml_document(entries: Seq<(Seq<char>, Seq<char>)>) -> Option<Seq<u8>>;

#[verifier::external_type_specification]
#[verifier::external_body]
pub struct ExTomlDeError(toml::de::Error);

#[verifier::external_type_specification]
#[verifier::external_body]
pub struct ExTomlSerError(toml::ser::Error);

/// Relies on `toml::from_slice` (read as a `toml::value::Table`) to parse the
/// document, and on `toml::Value::as_str` to give each value's text when it
/// is a string. The outcome depends on the bytes alone.
#[verifier::external_body]
pub(crate) fn read_table(bytes: &[u8]) -> (r: Result<Vec<(String, Option<String>)>, toml::de::Error>)
    ensures
        r is Ok <==> toml_entries(bytes@) is Some,
        r is Ok ==> r->Ok_0.deep_view() == toml_entries(bytes@)->0,
{
    let table: toml::value::Table = toml::from_slice(bytes)?;
    Ok(table.into_iter().map(|(k, v)| (k, v.as_str().map(String::from))).collect())
}

/// Relies on `toml::to_vec` on a map from key to string to encode the
/// entries as one TOML table. The outcome depends on the entries alone.
#[verifier::external_body]
pub(crate) fn write_table(entries: &Vec<(String, String)>) -> (r: Result<Vec<u8>, toml::ser::Error>)
    ensures
        r is Ok <==> toml_document(entries.deep_view()) is Some,
        r is Ok ==> r->Ok_0@ == toml_document(entries.deep_view())->0,
{
    let table: std::collections::BTreeMap<&str, &str> =
        entries.iter().map(|(k, v)| (k.as_str(), v.as_str())).collect();
    toml::to_vec(&table)
}

} // verus!
