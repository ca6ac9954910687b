use octocrate_codegen::codegen::schema_types::SchemaTypes;
use octocrate_codegen::schema::api::Method;
use octocrate_codegen::schema::schema::{SchemaType, SchemaTypeDefination};

#[test]
fn test_to_full_type_table() {
    let cases = vec![
        (vec![SchemaType::String], "String"),
        (vec![SchemaType::String, SchemaType::Null], "Option<String>"),
        (vec![SchemaType::Integer], "i64"),
        (vec![SchemaType::Integer, SchemaType::Null], "Option<i64>"),
        (vec![SchemaType::Boolean], "bool"),
        (vec![SchemaType::Boolean, SchemaType::Null], "Option<bool>"),
        (vec![SchemaType::String, SchemaType::Boolean], "StringOrBool"),
    ];
    for (tokens, expected) in cases {
        let types = SchemaTypes::new(tokens);
        assert_eq!(types.to_full_type(), expected);
    }
}

#[test]
fn test_to_full_type_with_object_table() {
    let name = "Widget".to_string();
    let cases = vec![
        (vec![SchemaType::Object], "Widget"),
        (vec![SchemaType::Object, SchemaType::Null], "Option<Widget>"),
        (
            vec![SchemaType::Object, SchemaType::Array],
            "ObjectOrArray<Widget>",
        ),
        (
            vec![SchemaType::Object, SchemaType::Array, SchemaType::Null],
            "Option<ObjectOrArray<Widget>>",
        ),
        (
            vec![SchemaType::Object, SchemaType::String],
            "ObjectOrString<Widget>",
        ),
        (
            vec![SchemaType::Object, SchemaType::String, SchemaType::Null],
            "Option<ObjectOrString<Widget>>",
        ),
        (vec![SchemaType::Array], "Vec<Widget>"),
        (
            vec![SchemaType::Array, SchemaType::Null],
            "Option<Vec<Widget>>",
        ),
    ];
    for (tokens, expected) in cases {
        let types = SchemaTypes::new(tokens);
        assert_eq!(types.to_full_type_with_object(&name), expected);
    }
}

#[test]
fn test_merge_unions_flags() {
    let mut a = SchemaTypes::new(vec![SchemaType::Object]);
    let b = SchemaTypes::new(vec![SchemaType::Null]);
    assert!(!a.is_null);
    a.merge(&b);
    assert!(a.is_object);
    assert!(a.is_null);
    assert_eq!(a.to_full_type_with_object(&"W".to_string()), "Option<W>");
}

#[test]
fn test_schema_types_from_definition() {
    let def = SchemaTypeDefination::Array(vec!["string".to_string(), "null".to_string()]);
    let types = SchemaTypes::from(&def);
    assert!(types.is_string);
    assert!(types.is_null);
    assert!(!types.is_object);
    assert_eq!(types.to_full_type(), "Option<String>");
}

#[test]
fn test_method_to_string() {
    assert_eq!(Method::GET.to_string(), "GET");
    assert_eq!(Method::POST.to_string(), "POST");
    assert_eq!(Method::PUT.to_string(), "PUT");
    assert_eq!(Method::PATCH.to_string(), "PATCH");
    assert_eq!(Method::DELETE.to_string(), "DELETE");
}
