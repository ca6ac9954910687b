use octocrate_codegen::codegen::schema_parser::{ParsedStruct, SchemaParser};
use octocrate_codegen::codegen::structs::Declaration;
use octocrate_codegen::schema::schema::{Schema, SchemaTypeDefination};

fn empty_schema() -> Schema {
    Schema {
        title: None,
        type_: None,
        items: None,
        properties: None,
        required: None,
        description: None,
        enum_: None,
        all_of: None,
        any_of: None,
        one_of: None,
    }
}

fn typed(token: &str) -> Schema {
    Schema {
        type_: Some(SchemaTypeDefination::String(token.to_string())),
        ..empty_schema()
    }
}

fn tag_schema() -> Schema {
    let commit = Schema {
        type_: Some(SchemaTypeDefination::String("object".to_string())),
        properties: Some(vec![
            ("sha".to_string(), typed("string")),
            ("url".to_string(), typed("string")),
        ]),
        required: Some(vec!["sha".to_string(), "url".to_string()]),
        ..empty_schema()
    };

    let items = Schema {
        title: Some("Tag".to_string()),
        description: Some("Tag".to_string()),
        type_: Some(SchemaTypeDefination::String("object".to_string())),
        properties: Some(vec![
            ("name".to_string(), typed("string")),
            ("commit".to_string(), commit),
            ("zipball_url".to_string(), typed("string")),
            ("tarball_url".to_string(), typed("string")),
            ("node_id".to_string(), typed("string")),
        ]),
        required: Some(vec![
            "name".to_string(),
            "node_id".to_string(),
            "commit".to_string(),
            "zipball_url".to_string(),
            "tarball_url".to_string(),
        ]),
        ..empty_schema()
    };

    Schema {
        type_: Some(SchemaTypeDefination::String("array".to_string())),
        items: Some(Box::new(items)),
        ..empty_schema()
    }
}

#[test]
fn test_schema_parser() {
    let schema = tag_schema();

    let mut parser = SchemaParser::new();

    let generated = parser.parse(&"Tag".to_string(), &schema);

    match generated {
        ParsedStruct::Type {
            type_expr,
            reference,
        } => {
            assert_eq!(type_expr, "Vec<Tag>");
            assert!(reference.is_some());
        }
        _ => panic!("Expected struct"),
    }
}

#[test]
fn test_schema_parser_tag_fields() {
    let schema = tag_schema();

    let mut parser = SchemaParser::new();

    let generated = parser.parse(&"Tag".to_string(), &schema);

    let reference = match generated {
        ParsedStruct::Type { reference, .. } => reference.unwrap(),
        _ => panic!("Expected a sequence type"),
    };

    let record = match &*reference {
        Declaration::Struct(s) => s,
        _ => panic!("Expected a record"),
    };

    assert_eq!(record.name.0, "Tag");
    assert_eq!(record.fields.len(), 5);
    assert_eq!(record.fields[0].name, "name");
    assert_eq!(record.fields[0].type_expr, "String");
    assert_eq!(record.fields[1].name, "commit");
    assert_eq!(record.fields[1].type_expr, "TagCommit");
    assert!(record.fields[1].reference.is_some());
    assert_eq!(record.fields[4].name, "node_id");
    assert_eq!(record.fields[4].type_expr, "String");
}

#[test]
fn test_schema_parser_with_properties() {
    let workflow_run = Schema {
        type_: Some(SchemaTypeDefination::Array(vec![
            "object".to_string(),
            "null".to_string(),
        ])),
        properties: Some(vec![
            ("id".to_string(), typed("integer")),
            ("repository_id".to_string(), typed("integer")),
            ("head_repository_id".to_string(), typed("integer")),
            ("head_branch".to_string(), typed("string")),
            ("head_sha".to_string(), typed("string")),
        ]),
        ..empty_schema()
    };

    let nullable_string = || Schema {
        type_: Some(SchemaTypeDefination::Array(vec![
            "string".to_string(),
            "null".to_string(),
        ])),
        ..empty_schema()
    };

    let artifact = Schema {
        title: Some("Artifact".to_string()),
        description: Some("An artifact".to_string()),
        type_: Some(SchemaTypeDefination::String("object".to_string())),
        properties: Some(vec![
            ("id".to_string(), typed("integer")),
            ("node_id".to_string(), typed("string")),
            ("name".to_string(), typed("string")),
            ("size_in_bytes".to_string(), typed("integer")),
            ("url".to_string(), typed("string")),
            ("archive_download_url".to_string(), typed("string")),
            ("expired".to_string(), typed("boolean")),
            ("created_at".to_string(), nullable_string()),
            ("expires_at".to_string(), nullable_string()),
            ("updated_at".to_string(), nullable_string()),
            ("workflow_run".to_string(), workflow_run),
        ]),
        required: Some(vec![
            "id".to_string(),
            "node_id".to_string(),
            "name".to_string(),
            "size_in_bytes".to_string(),
            "url".to_string(),
            "archive_download_url".to_string(),
            "expired".to_string(),
            "created_at".to_string(),
            "expires_at".to_string(),
            "updated_at".to_string(),
        ]),
        ..empty_schema()
    };

    let schema = Schema {
        type_: Some(SchemaTypeDefination::String("object".to_string())),
        required: Some(vec!["artifacts".to_string()]),
        properties: Some(vec![
            ("total_count".to_string(), typed("integer")),
            (
                "artifacts".to_string(),
                Schema {
                    type_: Some(SchemaTypeDefination::String("array".to_string())),
                    items: Some(Box::new(artifact)),
                    ..empty_schema()
                },
            ),
        ]),
        ..empty_schema()
    };

    let mut parser = SchemaParser::new();

    let generated = parser.parse(&"Response".to_string(), &schema);

    let record = match generated {
        ParsedStruct::Struct(s) => s,
        _ => panic!("Expected a record"),
    };

    assert_eq!(record.name.0, "Response");
    assert_eq!(record.fields.len(), 2);
    assert_eq!(record.fields[0].name, "total_count");
    assert_eq!(record.fields[0].type_expr, "Option<i64>");
    assert_eq!(record.fields[1].name, "artifacts");
    assert_eq!(record.fields[1].type_expr, "Vec<Artifact>");

    let artifact = record.fields[1].reference.as_ref().unwrap();
    let artifact = match &**artifact {
        Declaration::Struct(s) => s,
        _ => panic!("Expected a record"),
    };
    assert_eq!(artifact.name.0, "Artifact");
    // A required field of nullable shape is Optional, and only once.
    assert_eq!(artifact.fields[7].name, "created_at");
    assert_eq!(artifact.fields[7].type_expr, "Option<String>");
    // A field absent from the required list is wrapped; the anonymous
    // child record is named by the whole prefix stack.
    assert_eq!(artifact.fields[10].name, "workflow_run");
    assert_eq!(
        artifact.fields[10].type_expr,
        "Option<ResponseArtifactsWorkflowRun>"
    );
}

#[test]
fn test_schema_parser_with_enum() {
    let state = Schema {
        type_: Some(SchemaTypeDefination::String("string".to_string())),
        enum_: Some(vec![
            Some("open".to_string()),
            Some("closed".to_string()),
            Some("null".to_string()),
        ]),
        ..empty_schema()
    };

    let schema = Schema {
        type_: Some(SchemaTypeDefination::String("object".to_string())),
        properties: Some(vec![("state".to_string(), state)]),
        ..empty_schema()
    };

    let mut parser = SchemaParser::new();

    let generated = parser.parse(&"Response".to_string(), &schema);

    let record = match generated {
        ParsedStruct::Struct(s) => s,
        _ => panic!("Expected a record"),
    };

    assert_eq!(record.name.0, "Response");
    assert_eq!(record.fields.len(), 1);
    assert_eq!(record.fields[0].name, "state");
    assert_eq!(record.fields[0].type_expr, "Option<ResponseState>");

    let reference = record.fields[0].reference.as_ref().unwrap();
    let sum = match &**reference {
        Declaration::Enum(e) => e,
        _ => panic!("Expected a sum"),
    };
    assert_eq!(sum.name.0, "ResponseState");
    assert_eq!(sum.fields.len(), 2);
    assert_eq!(sum.fields[0].name, "open");
    assert_eq!(sum.fields[0].type_expr.as_deref(), Some("Open"));
    assert_eq!(sum.fields[1].name, "closed");
    assert_eq!(sum.fields[1].type_expr.as_deref(), Some("Closed"));
}

#[test]
fn test_schema_parser_stack_balanced() {
    let schema = tag_schema();
    let mut parser = SchemaParser::new();
    let _ = parser.parse(&"Tag".to_string(), &schema);
    let again = parser.parse(&"Tag".to_string(), &schema);
    match again {
        ParsedStruct::Type { type_expr, .. } => assert_eq!(type_expr, "Vec<Tag>"),
        _ => panic!("Expected a sequence type"),
    }
}

#[test]
fn test_schema_parser_union_one_named() {
    let named = Schema {
        title: Some("Widget".to_string()),
        type_: Some(SchemaTypeDefination::String("object".to_string())),
        properties: Some(vec![("id".to_string(), typed("integer"))]),
        ..empty_schema()
    };
    let array_alt = Schema {
        type_: Some(SchemaTypeDefination::String("array".to_string())),
        items: Some(Box::new(typed("string"))),
        ..empty_schema()
    };
    let schema = Schema {
        one_of: Some(vec![named, array_alt]),
        ..empty_schema()
    };

    let mut parser = SchemaParser::new();
    let generated = parser.parse(&"Reply".to_string(), &schema);

    match generated {
        ParsedStruct::Type {
            type_expr,
            reference,
        } => {
            assert_eq!(type_expr, "ObjectOrArray<Widget>");
            assert!(reference.is_some());
        }
        _ => panic!("Expected a decorated reference"),
    }
}

#[test]
fn test_schema_parser_field_keeps_key() {
    let child = Schema {
        title: Some("License".to_string()),
        type_: Some(SchemaTypeDefination::String("object".to_string())),
        properties: Some(vec![("key".to_string(), typed("string"))]),
        required: Some(vec!["key".to_string()]),
        ..empty_schema()
    };
    let schema = Schema {
        type_: Some(SchemaTypeDefination::String("object".to_string())),
        properties: Some(vec![("license".to_string(), child)]),
        required: Some(vec!["license".to_string()]),
        ..empty_schema()
    };

    let mut parser = SchemaParser::new();
    let generated = parser.parse(&"Repo".to_string(), &schema);

    let record = match generated {
        ParsedStruct::Struct(s) => s,
        _ => panic!("Expected a record"),
    };
    // The field keeps the property key verbatim; the child's title names
    // only the lifted declaration.
    assert_eq!(record.fields[0].name, "license");
    assert_eq!(record.fields[0].type_expr, "License");

    let child = record.fields[0].reference.as_ref().unwrap();
    match &**child {
        Declaration::Struct(s) => assert_eq!(s.name.0, "License"),
        _ => panic!("Expected a record"),
    }
}

#[test]
fn test_schema_parser_absent_required_wraps_all() {
    let schema = Schema {
        type_: Some(SchemaTypeDefination::String("object".to_string())),
        properties: Some(vec![
            ("id".to_string(), typed("integer")),
            ("name".to_string(), typed("string")),
        ]),
        ..empty_schema()
    };

    let mut parser = SchemaParser::new();
    let generated = parser.parse(&"Reply".to_string(), &schema);

    let record = match generated {
        ParsedStruct::Struct(s) => s,
        _ => panic!("Expected a record"),
    };
    assert_eq!(record.fields[0].type_expr, "Option<i64>");
    assert_eq!(record.fields[1].type_expr, "Option<String>");
}

#[test]
fn test_schema_parser_all_of_and_any_of() {
    let a = Schema {
        title: Some("Owner".to_string()),
        type_: Some(SchemaTypeDefination::String("object".to_string())),
        properties: Some(vec![("id".to_string(), typed("integer"))]),
        ..empty_schema()
    };
    let b = Schema {
        title: Some("Bot".to_string()),
        type_: Some(SchemaTypeDefination::String("object".to_string())),
        properties: Some(vec![("id".to_string(), typed("integer"))]),
        ..empty_schema()
    };
    let schema = Schema {
        all_of: Some(vec![a, b]),
        ..empty_schema()
    };

    let mut parser = SchemaParser::new();
    let generated = parser.parse(&"Actor".to_string(), &schema);

    let sum = match generated {
        ParsedStruct::Enum(e) => e,
        _ => panic!("Expected a sum"),
    };
    assert_eq!(sum.name.0, "Actor");
    assert_eq!(sum.fields.len(), 2);
    assert_eq!(sum.fields[0].name, "Owner");
    assert_eq!(sum.fields[0].type_expr.as_deref(), Some("Owner"));
    assert_eq!(sum.fields[1].name, "Bot");

    let single = Schema {
        any_of: Some(vec![Schema {
            title: Some("Owner".to_string()),
            type_: Some(SchemaTypeDefination::String("object".to_string())),
            properties: Some(vec![("id".to_string(), typed("integer"))]),
            ..empty_schema()
        }]),
        ..empty_schema()
    };
    let mut parser = SchemaParser::new();
    let generated = parser.parse(&"Actor".to_string(), &single);
    match generated {
        ParsedStruct::Struct(s) => assert_eq!(s.name.0, "Owner"),
        _ => panic!("Expected the single named alternative itself"),
    }
}
