use tera_cli::errors::Error;
use tera_cli::parse::{parse_context_text, Format};
use tera_cli::value::StructuredValue;

fn entries(v: StructuredValue) -> Vec<(StructuredValue, StructuredValue)> {
    match v {
        StructuredValue::Dict(entries) => entries,
        other => panic!("expected a mapping, got {:?}", other),
    }
}

fn str_val(s: &str) -> StructuredValue {
    StructuredValue::Str(s.to_owned())
}

#[test]
fn toml_document_parses() {
    let v = parse_context_text(Format::Toml, "a = 1\nb = \"x\"\n").unwrap();
    let entries = entries(v);
    assert_eq!(entries.len(), 2);
    assert!(entries.contains(&(str_val("a"), StructuredValue::Int(1))));
    assert!(entries.contains(&(str_val("b"), str_val("x"))));
}

#[test]
fn json_document_parses() {
    let v = parse_context_text(Format::Json, "{\"a\": 1, \"b\": \"x\"}").unwrap();
    let entries = entries(v);
    assert_eq!(entries.len(), 2);
    assert!(entries.contains(&(str_val("a"), StructuredValue::Int(1))));
    assert!(entries.contains(&(str_val("b"), str_val("x"))));
}

#[test]
fn yaml_document_parses() {
    let v = parse_context_text(Format::Yaml, "a: 1\nb: x\n").unwrap();
    let entries = entries(v);
    assert_eq!(entries.len(), 2);
    assert!(entries.contains(&(str_val("a"), StructuredValue::Int(1))));
    assert!(entries.contains(&(str_val("b"), str_val("x"))));
}

#[test]
fn same_mapping_parses_equal_across_formats() {
    let toml = parse_context_text(Format::Toml, "a = 1\nb = \"x\"\n").unwrap();
    let json = parse_context_text(Format::Json, "{\"a\": 1, \"b\": \"x\"}").unwrap();
    let yaml = parse_context_text(Format::Yaml, "a: 1\nb: x\n").unwrap();
    assert_eq!(toml, json);
    assert_eq!(json, yaml);
}

#[test]
fn toml_nested_tables_and_floats() {
    let v = parse_context_text(Format::Toml, "x = 1.5\n[t]\ny = true\n").unwrap();
    let entries = entries(v);
    assert!(entries.contains(&(str_val("x"), StructuredValue::Num("1.5".to_owned()))));
    let nested = &entries.iter().find(|(k, _)| *k == str_val("t")).unwrap().1;
    assert_eq!(
        *nested,
        StructuredValue::Dict(vec![(str_val("y"), StructuredValue::Bool(true))])
    );
}

#[test]
fn malformed_toml_is_a_toml_parsing_error() {
    match parse_context_text(Format::Toml, "= nonsense") {
        Err(Error::TomlParsing { .. }) => {}
        other => panic!("expected a TOML parsing error, got {:?}", other),
    }
}

#[test]
fn malformed_json_is_a_json_parsing_error() {
    match parse_context_text(Format::Json, "{\"a\": ") {
        Err(Error::JsonParsing { .. }) => {}
        other => panic!("expected a JSON parsing error, got {:?}", other),
    }
}

#[test]
fn malformed_yaml_is_a_yaml_parsing_error() {
    match parse_context_text(Format::Yaml, "a: [unclosed") {
        Err(Error::YamlParsing { .. }) => {}
        other => panic!("expected a YAML parsing error, got {:?}", other),
    }
}

#[test]
fn yaml_non_string_top_level_key_is_reported() {
    match parse_context_text(Format::Yaml, "1: x\n") {
        Err(Error::YamlInvalidKey { key }) => assert_eq!(key, StructuredValue::Int(1)),
        other => panic!("expected an invalid-key error, got {:?}", other),
    }
}

#[test]
fn yaml_non_string_nested_key_is_reported() {
    match parse_context_text(Format::Yaml, "a:\n  true: x\n") {
        Err(Error::YamlInvalidKey { key }) => assert_eq!(key, StructuredValue::Bool(true)),
        other => panic!("expected an invalid-key error, got {:?}", other),
    }
}

#[test]
fn yaml_list_top_level_parses() {
    let v = parse_context_text(Format::Yaml, "- a\n- b\n").unwrap();
    assert_eq!(v, StructuredValue::List(vec![str_val("a"), str_val("b")]));
}

#[test]
fn empty_toml_is_an_empty_mapping() {
    let v = parse_context_text(Format::Toml, "").unwrap();
    assert_eq!(v, StructuredValue::Dict(Vec::new()));
}

#[test]
fn json_duplicate_keys_keep_the_later_value() {
    let v = parse_context_text(Format::Json, "{\"a\": 1, \"a\": 2}").unwrap();
    assert_eq!(
        v,
        StructuredValue::Dict(vec![(str_val("a"), StructuredValue::Int(2))])
    );
}

#[test]
fn json_null_and_large_numbers_carry_over() {
    let v = parse_context_text(Format::Json, "{\"n\": null, \"big\": 18446744073709551615}")
        .unwrap();
    let entries = entries(v);
    assert!(entries.contains(&(str_val("n"), StructuredValue::Null)));
    assert!(entries.contains(&(
        str_val("big"),
        StructuredValue::Num("18446744073709551615".to_owned())
    )));
}
