//! The error taxonomy of the pipeline: input errors, parse errors and render
//! errors, each carrying enough context to be reported at the top level.

use vstd::prelude::*;
use crate::value::StructuredValue;

verus! {

/// Everything that can go wrong during one invocation.
///
/// `FileRead` and `StdinRead` originate outside the library, where the actual
/// reads happen; their variants exist here so that one taxonomy covers the
/// whole pipeline. `InvalidValueType` reports a top-level value that is not a
/// mapping when flattening was requested, and `YamlInvalidKey` carries the
/// offending non-string mapping key.
#[derive(Debug, PartialEq)]
pub enum Error {
    FileRead { path: String, message: String },
    InvalidValueType,
    JsonParsing { message: String },
    StdinRead { message: String },
    TeraApply { message: String },
    TomlParsing { message: String },
    YamlInvalidKey { key: StructuredValue },
    YamlParsing { message: String },
}

} // verus!
