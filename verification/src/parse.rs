//! Parsing of context text: each supported format is parsed by its own
//! conformant parser and carried into the library's value type, and the
//! result is validated to use only string mapping keys.

use vstd::prelude::*;
use crate::errors::Error;
use crate::value::{clone_value, find_non_string_key, key_occurs, string_keyed, ValueModel, StructuredValue};

verus! {

/// The format of a file-based context source.
#[derive(Debug, PartialEq, Clone, Copy)]
pub enum Format {
    Toml,
    Json,
    Yaml,
}

/// What parsing TOML text yields: a function of the text alone.
pub uninterp spec fn toml_document(text: Seq<char>) -> Option<ValueModel>;

/// What parsing JSON text yields: a function of the text alone.
pub uninterp spec fn json_document(text: Seq<char>) -> Option<ValueModel>;

/// What parsing YAML text yields: a function of the text alone.
pub uninterp spec fn yaml_document(text: Seq<char>) -> Option<ValueModel>;

/// Carries a parsed TOML document into the library's value type, one arm per
/// variant; floats and datetimes become their text rendering. Exercised only
/// through `parse_toml_text`.
#[verifier::external_body]
fn toml_to_value(v: toml::Value) -> StructuredValue {
    match v {
        toml::Value::String(s) => StructuredValue::Str(s),
        toml::Value::Integer(i) => StructuredValue::Int(i),
        toml::Value::Float(x) => StructuredValue::Num(format!("{:?}", x)),
        toml::Value::Boolean(b) => StructuredValue::Bool(b),
        toml::Value::Datetime(d) => StructuredValue::Str(format!("{}", d)),
        toml::Value::Array(items) => StructuredValue::List(items.into_iter().map(toml_to_value).collect()),
        toml::Value::Table(t) => StructuredValue::Dict(t.into_iter().map(|(k, v)| (StructuredValue::Str(k), toml_to_value(v))).collect()),
    }
}

/// Carries a parsed JSON document into the library's value type, one arm per
/// variant; numbers outside `i64` become their text rendering. Exercised only
/// through `parse_json_text`.
#[verifier::external_body]
fn json_to_value(v: serde_json::Value) -> StructuredValue {
    match v {
        serde_json::Value::Null => StructuredValue::Null,
        serde_json::Value::Bool(b) => StructuredValue::Bool(b),
        serde_json::Value::Number(n) => n.as_i64().map(StructuredValue::Int).unwrap_or_else(|| StructuredValue::Num(n.to_string())),
        serde_json::Value::String(s) => StructuredValue::Str(s),
        serde_json::Value::Array(items) => StructuredValue::List(items.into_iter().map(json_to_value).collect()),
        serde_json::Value::Object(m) => StructuredValue::Dict(m.into_iter().map(|(k, v)| (StructuredValue::Str(k), json_to_value(v))).collect()),
    }
}

/// Carries a parsed YAML document into the library's value type, one arm per
/// variant; mapping keys stay full values, and tags are dropped from tagged
/// values. Exercised only through `parse_yaml_text`.
#[verifier::external_body]
fn yaml_to_value(v: serde_yaml::Value) -> StructuredValue {
    match v {
        serde_yaml::Value::Null => StructuredValue::Null,
        serde_yaml::Value::Bool(b) => StructuredValue::Bool(b),
        serde_yaml::Value::Number(n) => n.as_i64().map(StructuredValue::Int).unwrap_or_else(|| StructuredValue::Num(n.to_string())),
        serde_yaml::Value::String(s) => StructuredValue::Str(s),
        serde_yaml::Value::Sequence(items) => StructuredValue::List(items.into_iter().map(yaml_to_value).collect()),
        serde_yaml::Value::Mapping(m) => StructuredValue::Dict(m.into_iter().map(|(k, v)| (yaml_to_value(k), yaml_to_value(v))).collect()),
        serde_yaml::Value::Tagged(t) => yaml_to_value(t.value),
    }
}

/// Relies on `str::parse::<toml::Value>` (crate `toml`): parses one TOML
/// document, whose top level is always a table and whose table keys are
/// always strings. The result is a function of the text alone.
#[verifier::external_body]
fn parse_toml_text(text: &str) -> (r: Result<StructuredValue, String>)
    ensures
        (r is Ok) == (toml_document(text@) is Some),
        r matches Ok(v) ==> Some(v@) == toml_document(text@) && v@ is Dict && string_keyed(v@),
{
    match text.parse::<toml::Value>() {
        Ok(v) => Ok(toml_to_value(v)),
        Err(e) => Err(format!("{}", e)),
    }
}

/// Relies on `serde_json::from_str::<serde_json::Value>`: parses one JSON
/// document, whose object keys are always strings. The result is a function
/// of the text alone.
#[verifier::external_body]
fn parse_json_text(text: &str) -> (r: Result<StructuredValue, String>)
    ensures
        (r is Ok) == (json_document(text@) is Some),
        r matches Ok(v) ==> Some(v@) == json_document(text@) && string_keyed(v@),
{
    match serde_json::from_str::<serde_json::Value>(text) {
        Ok(v) => Ok(json_to_value(v)),
        Err(e) => Err(format!("{}", e)),
    }
}

/// Relies on `serde_yaml::from_str::<serde_yaml::Value>`: parses one YAML
/// document, whose mapping keys may be arbitrary values. The result is a
/// function of the text alone.
#[verifier::external_body]
fn parse_yaml_text(text: &str) -> (r: Result<StructuredValue, String>)
    ensures
        (r is Ok) == (yaml_document(text@) is Some),
        r matches Ok(v) ==> Some(v@) == yaml_document(text@),
{
    match serde_yaml::from_str::<serde_yaml::Value>(text) {
        Ok(v) => Ok(yaml_to_value(v)),
        Err(e) => Err(format!("{}", e)),
    }
}

/// What parsing the text in the chosen format yields.
pub open spec fn spec_parse(format: Format, text: Seq<char>) -> Option<ValueModel> {
    match format {
        Format::Toml => toml_document(text),
        Format::Json => json_document(text),
        Format::Yaml => yaml_document(text),
    }
}

/// Parses context text in the chosen format and validates that every mapping
/// key anywhere in the document is a string.
pub fn parse_context_text(format: Format, text: &str) -> (r: Result<StructuredValue, Error>)
    ensures
        r matches Ok(v) ==> spec_parse(format, text@) == Some(v@) && string_keyed(v@),
        (r is Ok) == {
            let p = spec_parse(format, text@);
            p is Some && string_keyed(p->Some_0)
        },
        r matches Err(e) ==> match format {
            Format::Toml => e matches Error::TomlParsing { .. } && toml_document(text@) is None,
            Format::Json => e matches Error::JsonParsing { .. } && json_document(text@) is None,
            Format::Yaml => match e {
                Error::YamlParsing { .. } => yaml_document(text@) is None,
                Error::YamlInvalidKey { key } => yaml_document(text@) matches Some(m)
                    && !string_keyed(m) && !(key@ is Str) && key_occurs(key@, m),
                _ => false,
            },
        },
{
    match format {
        Format::Toml => match parse_toml_text(text) {
            Ok(v) => Ok(v),
            Err(message) => Err(Error::TomlParsing { message }),
        },
        Format::Json => match parse_json_text(text) {
            Ok(v) => Ok(v),
            Err(message) => Err(Error::JsonParsing { message }),
        },
        Format::Yaml => match parse_yaml_text(text) {
            Ok(v) => match find_non_string_key(&v) {
                None => Ok(v),
                Some(k) => {
                    let key = clone_value(k);
                    Err(Error::YamlInvalidKey { key })
                },
            },
            Err(message) => Err(Error::YamlParsing { message }),
        },
    }
}

/// The context that is built never depends on the format a document came
/// from: two sources that parse to the same value yield the same context,
/// whatever their formats.
pub proof fn lemma_context_independent_of_format(
    f1: Format,
    t1: Seq<char>,
    f2: Format,
    t2: Seq<char>,
    root: Option<Seq<char>>,
)
    requires
        spec_parse(f1, t1) == spec_parse(f2, t2),
    ensures
        crate::context::spec_build_context(spec_parse(f1, t1), root)
            == crate::context::spec_build_context(spec_parse(f2, t2), root),
{
}

} // verus!
