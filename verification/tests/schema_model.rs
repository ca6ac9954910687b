use octocrate_codegen::schema::parameters::{Parameter, Position};
use octocrate_codegen::schema::schema::{Schema, SchemaType, SchemaTypeDefination};

fn empty_schema() -> Schema {
    Schema {
        title: None,
        type_: None,
        items: None,
        properties: None,
        required: None,
        description: None,
        enum_: None,
        all_of: None,
        any_of: None,
        one_of: None,
    }
}

fn typed(token: &str) -> Schema {
    Schema {
        type_: Some(SchemaTypeDefination::String(token.to_string())),
        ..empty_schema()
    }
}

fn scalar_token(s: &Schema) -> &str {
    match s.type_.as_ref().unwrap() {
        SchemaTypeDefination::String(t) => t.as_str(),
        _ => panic!("expected a scalar type"),
    }
}

#[test]
fn test_schema() {
    let commit = Schema {
        type_: Some(SchemaTypeDefination::String("object".to_string())),
        properties: Some(vec![
            ("sha".to_string(), typed("string")),
            ("url".to_string(), typed("string")),
        ]),
        required: Some(vec!["sha".to_string(), "url".to_string()]),
        ..empty_schema()
    };

    let items = Schema {
        title: Some("Tag".to_string()),
        description: Some("Tag".to_string()),
        type_: Some(SchemaTypeDefination::String("object".to_string())),
        properties: Some(vec![
            ("name".to_string(), typed("string")),
            ("commit".to_string(), commit),
            ("zipball_url".to_string(), typed("string")),
            ("tarball_url".to_string(), typed("string")),
            ("node_id".to_string(), typed("string")),
        ]),
        required: Some(vec![
            "name".to_string(),
            "node_id".to_string(),
            "commit".to_string(),
            "zipball_url".to_string(),
            "tarball_url".to_string(),
        ]),
        ..empty_schema()
    };

    let schema = Schema {
        type_: Some(SchemaTypeDefination::String("array".to_string())),
        items: Some(Box::new(items)),
        ..empty_schema()
    };

    assert_eq!(scalar_token(&schema), SchemaType::Array.to_string());

    let items = schema.items.as_ref().unwrap();

    assert_eq!(scalar_token(items), SchemaType::Object.to_string());

    let properties = items.properties.as_ref().unwrap();

    assert_eq!(properties.len(), 5);

    let (name_key, name) = &properties[0];

    assert_eq!(name_key, "name");
    assert_eq!(scalar_token(name), SchemaType::String.to_string());

    let (commit_key, commit) = &properties[1];

    assert_eq!(commit_key, "commit");
    assert_eq!(scalar_token(commit), SchemaType::Object.to_string());

    let commit_properties = commit.properties.as_ref().unwrap();

    assert_eq!(commit_properties.len(), 2);
    assert_eq!(commit_properties[0].0, "sha");
    assert_eq!(
        scalar_token(&commit_properties[0].1),
        SchemaType::String.to_string()
    );
    assert_eq!(commit_properties[1].0, "url");
    assert_eq!(
        scalar_token(&commit_properties[1].1),
        SchemaType::String.to_string()
    );

    let required = commit.required.as_ref().unwrap();

    assert_eq!(required.len(), 2);

    assert_eq!(properties[2].0, "zipball_url");
    assert_eq!(
        scalar_token(&properties[2].1),
        SchemaType::String.to_string()
    );
    assert_eq!(properties[3].0, "tarball_url");
    assert_eq!(
        scalar_token(&properties[3].1),
        SchemaType::String.to_string()
    );
    assert_eq!(properties[4].0, "node_id");
    assert_eq!(
        scalar_token(&properties[4].1),
        SchemaType::String.to_string()
    );

    let required = items.required.as_ref().unwrap();

    assert_eq!(
        required,
        &["name", "node_id", "commit", "zipball_url", "tarball_url"]
    );
}

#[test]
fn test_parameter() {
    let parameters = vec![
        Parameter {
            name: "owner".to_string(),
            description: "<p>The account owner of the repository. The name is not case sensitive.</p>".to_string(),
            position: Position::Path,
            required: Some(true),
            schema: typed("string"),
        },
        Parameter {
            name: "repo".to_string(),
            description: "<p>The name of the repository without the <code>.git</code> extension. The name is not case sensitive.</p>".to_string(),
            position: Position::Path,
            required: Some(true),
            schema: typed("string"),
        },
        Parameter {
            name: "per_page".to_string(),
            description: "<p>The number of results per page (max 100). For more information, see \"<a href=\"https://docs.github.com/enterprise-cloud@latest//rest/using-the-rest-api/using-pagination-in-the-rest-api\">Using pagination in the REST API</a>.\"</p>".to_string(),
            position: Position::Query,
            required: None,
            schema: typed("integer"),
        },
    ];

    assert_eq!(parameters.len(), 3);

    let parameter = &parameters[0];

    assert_eq!(parameter.name, "owner");
    assert_eq!(
        parameter.description,
        "<p>The account owner of the repository. The name is not case sensitive.</p>"
    );
    assert_eq!(parameter.position, Position::Path);
    assert_eq!(parameter.required, Some(true));
    assert_eq!(scalar_token(&parameter.schema), SchemaType::String.to_string());

    let parameter = &parameters[1];

    assert_eq!(parameter.name, "repo");
    assert_eq!(
        parameter.description,
        "<p>The name of the repository without the <code>.git</code> extension. The name is not case sensitive.</p>"
    );
    assert_eq!(parameter.position, Position::Path);
    assert_eq!(parameter.required, Some(true));
    assert_eq!(scalar_token(&parameter.schema), SchemaType::String.to_string());

    let parameter = &parameters[2];

    assert_eq!(parameter.name, "per_page");
    assert_eq!(
        parameter.description,
        "<p>The number of results per page (max 100). For more information, see \"<a href=\"https://docs.github.com/enterprise-cloud@latest//rest/using-the-rest-api/using-pagination-in-the-rest-api\">Using pagination in the REST API</a>.\"</p>"
    );
    assert_eq!(parameter.position, Position::Query);
    assert_eq!(parameter.required, None);
    assert_eq!(
        scalar_token(&parameter.schema),
        SchemaType::Integer.to_string()
    );
}

#[test]
fn test_position_is_query() {
    assert!(Position::Query.is_query());
    assert!(!Position::Path.is_query());
}

#[test]
fn test_schema_type_try_from() {
    assert_eq!(
        SchemaType::try_from(&"null".to_string()),
        Ok(SchemaType::Null)
    );
    assert_eq!(
        SchemaType::try_from(&"integer".to_string()),
        Ok(SchemaType::Integer)
    );
    assert_eq!(
        SchemaType::try_from(&"boolean".to_string()),
        Ok(SchemaType::Boolean)
    );
    assert_eq!(
        SchemaType::try_from(&"float".to_string()),
        Err("Unknown schema type: float".to_string())
    );
}
