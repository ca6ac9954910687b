use octocrate_codegen::codegen::parsed::api::ParsedAPI;
use octocrate_codegen::codegen::parsed::api_tree::ParsedAPITree;
use octocrate_codegen::codegen::structs::{Declaration, Enum, EnumField, Struct, StructField};
use octocrate_codegen::codegen::Codegen;
use octocrate_codegen::schema::api::{APICodeExampleSchema, APISchema, Method};
use octocrate_codegen::schema::parameters::{Parameter, Position};
use octocrate_codegen::schema::response::Response;
use octocrate_codegen::schema::schema::{Schema, SchemaTypeDefination};

fn empty_schema() -> Schema {
    Schema {
        title: None,
        type_: None,
        items: None,
        properties: None,
        required: None,
        description: None,
        enum_: None,
        all_of: None,
        any_of: None,
        one_of: None,
    }
}

fn typed(token: &str) -> Schema {
    Schema {
        type_: Some(SchemaTypeDefination::String(token.to_string())),
        ..empty_schema()
    }
}

fn parameter(name: &str, position: Position, token: &str, required: Option<bool>) -> Parameter {
    Parameter {
        name: name.to_string(),
        description: format!("the {} parameter", name),
        position,
        required,
        schema: typed(token),
    }
}

fn list_artifacts_endpoint() -> APISchema {
    APISchema {
        title: "List artifacts".to_string(),
        category: "actions".to_string(),
        sub_category: "artifacts".to_string(),
        path: "/repos/{owner}/{repo}/actions/artifacts".to_string(),
        method: Method::GET,
        parameters: vec![
            parameter("owner", Position::Path, "string", Some(true)),
            parameter("repo", Position::Path, "string", Some(true)),
            parameter("per_page", Position::Query, "integer", None),
        ],
        body_parameters: vec![],
        code_examples: vec![APICodeExampleSchema {
            key: "default".to_string(),
            response: Response {
                status_code: "200".to_string(),
                schema: Some(Schema {
                    title: Some("ArtifactList".to_string()),
                    type_: Some(SchemaTypeDefination::String("object".to_string())),
                    properties: Some(vec![("total_count".to_string(), typed("integer"))]),
                    required: Some(vec!["total_count".to_string()]),
                    ..empty_schema()
                }),
            },
        }],
    }
}

#[test]
fn test_parsed_api_groups() {
    let parsed = ParsedAPI::from(list_artifacts_endpoint());

    assert_eq!(parsed.name, "List artifacts");
    assert_eq!(parsed.path, "/repos/{owner}/{repo}/actions/artifacts");
    assert_eq!(parsed.method, Method::GET);

    let parameters = parsed.parameters.as_ref().unwrap();
    assert_eq!(parameters.name.0, "List artifactsParameters");
    assert_eq!(parameters.fields.len(), 2);
    assert_eq!(parameters.fields[0].name, "owner");
    assert_eq!(parameters.fields[0].type_expr, "String");
    assert_eq!(parameters.fields[1].name, "repo");
    assert_eq!(parameters.fields[1].type_expr, "String");

    let query = parsed.query.as_ref().unwrap();
    assert_eq!(query.name.0, "List artifactsQuery");
    assert_eq!(query.fields.len(), 1);
    assert_eq!(query.fields[0].name, "per_page");
    assert_eq!(query.fields[0].type_expr, "Option<i64>");

    assert!(parsed.body.is_none());
    assert!(parsed.response.is_some());

    assert_ne!(parameters.name.0, query.name.0);
}

#[test]
fn test_codegen_parse_fills_tree() {
    let source = vec![(
        "actions".to_string(),
        vec![("artifacts".to_string(), vec![list_artifacts_endpoint()])],
    )];

    let mut codegen = Codegen::new();
    codegen.parse(source);

    let tree = codegen.generate();

    assert_eq!(tree.global_types.len(), 1);
    assert_eq!(tree.global_types[0].0, "ArtifactList");

    assert_eq!(tree.modules.len(), 1);
    assert_eq!(tree.modules[0].0, "actions");
    let modules = &tree.modules[0].1;
    assert_eq!(modules.len(), 1);
    assert_eq!(modules[0].name, "artifacts");
    assert_eq!(modules[0].apis.len(), 1);
    assert_eq!(modules[0].types.len(), 2);
}

fn record(name: &str) -> Declaration {
    let mut s = Struct::new(name.to_string());
    s.add_field(StructField::new("id".to_string(), "i64".to_string()));
    Declaration::Struct(s)
}

fn sum(name: &str) -> Declaration {
    let mut e = Enum::new(name.to_string());
    e.add_field(EnumField::new("a".to_string()));
    Declaration::Enum(e)
}

#[test]
fn test_decorated_response_registered_by_declaration_name() {
    let tag = Schema {
        title: Some("Tag".to_string()),
        type_: Some(SchemaTypeDefination::String("object".to_string())),
        properties: Some(vec![("name".to_string(), typed("string"))]),
        required: Some(vec!["name".to_string()]),
        ..empty_schema()
    };
    let endpoint = APISchema {
        title: "List tags".to_string(),
        category: "repos".to_string(),
        sub_category: "tags".to_string(),
        path: "/repos/{owner}/{repo}/tags".to_string(),
        method: Method::GET,
        parameters: vec![],
        body_parameters: vec![],
        code_examples: vec![APICodeExampleSchema {
            key: "default".to_string(),
            response: Response {
                status_code: "200".to_string(),
                schema: Some(Schema {
                    type_: Some(SchemaTypeDefination::String("array".to_string())),
                    items: Some(Box::new(tag)),
                    ..empty_schema()
                }),
            },
        }],
    };
    let source = vec![(
        "repos".to_string(),
        vec![("tags".to_string(), vec![endpoint])],
    )];

    let mut codegen = Codegen::new();
    codegen.parse(source);
    let tree = codegen.generate();

    // The response lowered to Vec<Tag>; the table is keyed by the
    // declaration's name, not the decorated expression.
    assert_eq!(tree.global_types.len(), 1);
    assert_eq!(tree.global_types[0].0, "Tag");
}

#[test]
fn test_global_table_overwrites() {
    let mut tree = ParsedAPITree::new();

    tree.add_global_type(&"Thing".to_string(), record("Thing"));
    tree.add_global_type(&"Other".to_string(), record("Other"));
    assert_eq!(tree.global_types.len(), 2);

    tree.add_global_type(&"Thing".to_string(), sum("Thing"));
    assert_eq!(tree.global_types.len(), 2);
    assert_eq!(tree.global_types[0].0, "Thing");
    match &*tree.global_types[0].1 {
        Declaration::Enum(e) => assert_eq!(e.name.0, "Thing"),
        _ => panic!("the later registration should have replaced the record"),
    }
    assert_eq!(tree.global_types[1].0, "Other");
}
