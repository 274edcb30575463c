//! Parsing of configuration text as a TOML table.
use vstd::prelude::*;

verus! {

#[verifier::external_type_specification]
#[verifier::external_body]
#[verifier::reject_recursive_types(K)]
#[verifier::reject_recursive_types(V)]
pub struct ExTomlMap<K, V>(toml::map::Map<K, V>);

#[verifier::external_type_specification]
#[verifier::external_body]
pub struct ExTomlValue(toml::Value);

/// What toml's parser reports on `text` read as a table: `None` when it
/// accepts the text, else the message of its error. It depends on the text
/// alone.
pub uninterp spec fn toml_rejection(text: Seq<char>) -> Option<Seq<char>>;

/// Relies on `toml::de::from_str` at the type `toml::value::Table`: it parses
/// `text` or fails, and its error is turned into its message.
#[verifier::external_body]
pub(crate) fn parse_table(text: &str) -> (r: Result<toml::value::Table, String>)
    ensures
        match r {
            Ok(_) => toml_rejection(text@) is None,
            Err(m) => toml_rejection(text@) == Some(m@),
        },
{
    toml::de::from_str::<toml::value::Table>(text).map_err(|e| e.to_string())
}

} // verus!
