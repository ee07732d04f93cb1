//! The parsers that turn the text of a file into documents.
//!
//! Parsing is left to the `yaml_rust` and `serde_json` crates. Nothing in
//! this module is proved: it declares their types, gives a name to what each
//! parser makes of a text, and wraps the two calls. The rest of the library
//! is verified against what is stated here.

use vstd::prelude::*;
use serde_json::Value;
use yaml_rust::{ScanError, Yaml, YamlLoader};

verus! {

/// `yaml_rust::Yaml`, one node of a YAML document. The library hands such
/// values on and never looks inside them.
#[verifier::external_type_specification]
#[verifier::external_body]
pub struct ExYaml(Yaml);

/// `yaml_rust::ScanError`, the reason why a text is not YAML.
#[verifier::external_type_specification]
#[verifier::external_body]
pub struct ExScanError(ScanError);

/// `serde_json::Value`, a JSON value. The library hands such values on and
/// never looks inside them.
#[verifier::external_type_specification]
#[verifier::external_body]
pub struct ExValue(Value);

/// `serde_json::Error`, the reason why a text is not JSON.
#[verifier::external_type_specification]
#[verifier::external_body]
pub struct ExJsonError(serde_json::Error);

/// What `yaml_rust::YamlLoader::load_from_str` makes of a text: its
/// documents, in the order of the text, or nothing where the text is not
/// YAML.
pub uninterp spec fn yaml_documents(text: Seq<char>) -> Option<Seq<Yaml>>;

/// What `serde_json::from_str` makes of a text when asked for a
/// `serde_json::Value`: the value, or nothing where the text is not JSON.
pub uninterp spec fn json_value(text: Seq<char>) -> Option<Value>;

/// Calls `yaml_rust::YamlLoader::load_from_str`.
///
/// Claimed and not proved: the loader reads nothing but the text, so that
/// its answer, the documents or the failure, depends on the text alone. The
/// claim is about calls that return. The loader calls itself once for each
/// level of nesting in a document, and a text nested more deeply than the
/// thread's stack can hold ends the process.
#[verifier::external_body]
pub(crate) fn parse_yaml(text: &str) -> (parsed: Result<Vec<Yaml>, ScanError>)
    ensures
        match parsed {
            Ok(docs) => yaml_documents(text@) == Some(docs@),
            Err(_) => yaml_documents(text@) is None,
        },
{
    YamlLoader::load_from_str(text)
}

/// Calls `serde_json::from_str` for a `serde_json::Value`.
///
/// Claimed and not proved: the parser reads nothing but the text, so that
/// its answer, the value or the failure, depends on the text alone.
#[verifier::external_body]
pub(crate) fn parse_json(text: &str) -> (parsed: Result<Value, serde_json::Error>)
    ensures
        match parsed {
            Ok(val) => json_value(text@) == Some(val),
            Err(_) => json_value(text@) is None,
        },
{
    serde_json::from_str(text)
}

} // verus!
