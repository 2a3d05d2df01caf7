use tera_cli::context::{build_context, env_value, Context};
use tera_cli::errors::Error;
use tera_cli::parse::{parse_context_text, Format};
use tera_cli::value::{clone_value, find_non_string_key, StructuredValue};

fn str_val(s: &str) -> StructuredValue {
    StructuredValue::Str(s.to_owned())
}

#[test]
fn no_source_gives_an_empty_context() {
    let c = build_context(None, None).unwrap();
    assert!(c.get("anything").is_none());
}

#[test]
fn root_key_nests_the_whole_document() {
    let v = parse_context_text(Format::Json, "{\"a\": 42}").unwrap();
    let c = build_context(Some(v), Some("c".to_owned())).unwrap();
    let nested = c.get("c").unwrap();
    assert_eq!(
        *nested,
        StructuredValue::Dict(vec![(str_val("a"), StructuredValue::Int(42))])
    );
    assert!(c.get("a").is_none());
}

#[test]
fn root_key_without_a_source_binds_an_empty_mapping() {
    let c = build_context(None, Some("c".to_owned())).unwrap();
    assert_eq!(*c.get("c").unwrap(), StructuredValue::Dict(Vec::new()));
}

#[test]
fn flattening_merges_top_level_entries() {
    let v = parse_context_text(Format::Json, "{\"a\": 1, \"b\": \"x\"}").unwrap();
    let c = build_context(Some(v), None).unwrap();
    assert_eq!(*c.get("a").unwrap(), StructuredValue::Int(1));
    assert_eq!(*c.get("b").unwrap(), str_val("x"));
    assert!(c.get("c").is_none());
}

#[test]
fn non_mapping_top_level_cannot_be_flattened() {
    let v = parse_context_text(Format::Yaml, "- a\n- b\n").unwrap();
    match build_context(Some(v), None) {
        Err(Error::InvalidValueType) => {}
        other => panic!("expected the not-a-mapping error, got {:?}", other),
    }
}

#[test]
fn non_mapping_top_level_can_still_be_nested() {
    let v = parse_context_text(Format::Yaml, "- a\n- b\n").unwrap();
    let c = build_context(Some(v), Some("c".to_owned())).unwrap();
    assert_eq!(
        *c.get("c").unwrap(),
        StructuredValue::List(vec![str_val("a"), str_val("b")])
    );
}

#[test]
fn same_mapping_gives_the_same_context_across_formats() {
    let toml = parse_context_text(Format::Toml, "a = 1\nb = \"x\"\n").unwrap();
    let json = parse_context_text(Format::Json, "{\"a\": 1, \"b\": \"x\"}").unwrap();
    let yaml = parse_context_text(Format::Yaml, "a: 1\nb: x\n").unwrap();
    let c_toml = build_context(Some(toml), Some("c".to_owned())).unwrap();
    let c_json = build_context(Some(json), Some("c".to_owned())).unwrap();
    let c_yaml = build_context(Some(yaml), Some("c".to_owned())).unwrap();
    assert_eq!(c_toml.get("c"), c_json.get("c"));
    assert_eq!(c_json.get("c"), c_yaml.get("c"));
}

#[test]
fn later_binding_of_a_key_wins() {
    let mut c = Context::new();
    c.insert("k".to_owned(), StructuredValue::Int(1));
    c.insert("k".to_owned(), StructuredValue::Int(2));
    assert_eq!(*c.get("k").unwrap(), StructuredValue::Int(2));
}

#[test]
fn env_vars_become_a_flat_string_mapping() {
    let v = env_value(vec![("FOO".to_owned(), "bar".to_owned())]);
    let c = build_context(Some(v), None).unwrap();
    assert_eq!(*c.get("FOO").unwrap(), str_val("bar"));
}

#[test]
fn clone_value_copies_the_whole_tree() {
    let v = parse_context_text(Format::Json, "{\"a\": [1, {\"b\": null}], \"c\": 1.25}").unwrap();
    assert_eq!(clone_value(&v), v);
}

#[test]
fn find_non_string_key_sees_through_nesting() {
    let clean = parse_context_text(Format::Json, "{\"a\": {\"b\": [1]}}").unwrap();
    assert!(find_non_string_key(&clean).is_none());
    let dirty = StructuredValue::Dict(vec![(
        str_val("a"),
        StructuredValue::List(vec![StructuredValue::Dict(vec![(
            StructuredValue::Int(7),
            StructuredValue::Null,
        )])]),
    )]);
    assert_eq!(*find_non_string_key(&dirty).unwrap(), StructuredValue::Int(7));
}
