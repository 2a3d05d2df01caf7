//! The render invoker: hands the template and the composed context to the
//! template engine in a single one-shot evaluation.

use vstd::prelude::*;
use crate::context::Context;
use crate::errors::Error;
use crate::value::StructuredValue;
use serde_json::Value as JsonValue;

verus! {

/// Carries a library value into the engine's value type, one arm per variant.
/// Numbers carried as text become engine numbers again; a carried number that
/// the engine cannot hold (such as a non-finite float rendering) becomes
/// null, as the engine's own serialisation rules do. Mapping keys are strings
/// whenever the value came through the validated pipeline; any other key is
/// carried as its debug rendering. Exercised only through `tera_one_off`.
#[verifier::external_body]
fn value_to_json(v: &StructuredValue) -> JsonValue {
    match v {
        StructuredValue::Null => JsonValue::Null,
        StructuredValue::Bool(b) => JsonValue::Bool(*b),
        StructuredValue::Int(i) => JsonValue::from(*i),
        StructuredValue::Num(s) => s.parse().map(JsonValue::Number).unwrap_or(JsonValue::Null),
        StructuredValue::Str(s) => JsonValue::String(s.clone()),
        StructuredValue::List(items) => JsonValue::Array(items.iter().map(value_to_json).collect()),
        StructuredValue::Dict(entries) => JsonValue::Object(entries.iter().map(
            |(k, w)| match k {
                StructuredValue::Str(ks) => (ks.clone(), value_to_json(w)),
                other => (format!("{:?}", other), value_to_json(w)),
            }).collect()),
    }
}

/// Relies on `tera::Tera::one_off` and `tera::Context::insert`: renders the
/// template once against the given context with the chosen autoescape
/// policy. The engine's built-in functions include `now` and `get_random`,
/// so the rendered text can depend on more than the inputs; nothing is
/// promised of it.
#[verifier::external_body]
fn tera_one_off(template: &str, context: &Context, autoescape: bool) -> Result<String, String> {
    let mut engine_context = tera::Context::new();
    for (k, v) in context.entries.iter() {
        engine_context.insert(k.as_str(), &value_to_json(v));
    }
    match tera::Tera::one_off(template, &engine_context, autoescape) {
        Ok(s) => Ok(s),
        Err(e) => Err(format!("{}", e)),
    }
}

/// Renders the template against the context. Any expression, filter, syntax
/// or undefined-variable error of the engine surfaces as `TeraApply` with the
/// engine's diagnostic message.
pub fn render(template: &str, context: &Context, autoescape: bool) -> (r: Result<String, Error>)
    ensures
        r matches Err(e) ==> e matches Error::TeraApply { .. },
{
    match tera_one_off(template, context, autoescape) {
        Ok(s) => Ok(s),
        Err(message) => Err(Error::TeraApply { message }),
    }
}

} // verus!
