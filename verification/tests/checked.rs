use octocrate_codegen::codegen::schema_parser::SchemaParser;
use octocrate_codegen::codegen::schema_types::SchemaTypes;
use octocrate_codegen::codegen::Codegen;
use octocrate_codegen::schema::api::{APICodeExampleSchema, APISchema, Method};
use octocrate_codegen::schema::parameters::Parameter;
use octocrate_codegen::schema::response::Response;
use octocrate_codegen::schema::schema::{Schema, SchemaTypeDefination};

fn empty_schema() -> Schema {
    Schema {
        title: None,
        type_: None,
        items: None,
        properties: None,
        required: None,
        description: None,
        enum_: None,
        all_of: None,
        any_of: None,
        one_of: None,
    }
}

#[test]
fn test_try_parse_rejects_bare_object() {
    // A node with only the object flag and no properties misses the plain
    // table: the walk reports a hard failure instead of panicking.
    let schema = Schema {
        type_: Some(SchemaTypeDefination::String("object".to_string())),
        ..empty_schema()
    };
    let mut parser = SchemaParser::new();
    let result = parser.try_parse(&"Reply".to_string(), &schema);
    assert!(result.is_err());
}

#[test]
fn test_try_parse_rejects_unknown_token() {
    let schema = Schema {
        type_: Some(SchemaTypeDefination::String("float".to_string())),
        ..empty_schema()
    };
    let mut parser = SchemaParser::new();
    let result = parser.try_parse(&"Reply".to_string(), &schema);
    assert_eq!(
        result.err().map(|e| e.message),
        Some("Unknown schema type: float".to_string())
    );
}

#[test]
fn test_try_parse_accepts_valid_schema() {
    let schema = Schema {
        type_: Some(SchemaTypeDefination::String("string".to_string())),
        ..empty_schema()
    };
    let mut parser = SchemaParser::new();
    assert!(parser.try_parse(&"Reply".to_string(), &schema).is_ok());
}

#[test]
fn test_schema_types_try_to_full_type_miss() {
    let types = SchemaTypes::new(vec![]);
    assert!(types.try_to_full_type().is_err());
}

#[test]
fn test_codegen_try_parse_reports_bad_endpoint() {
    let endpoint = APISchema {
        title: "Get thing".to_string(),
        category: "things".to_string(),
        sub_category: "thing".to_string(),
        path: "/thing".to_string(),
        method: Method::GET,
        parameters: vec![Parameter {
            name: "bad".to_string(),
            description: "a parameter with no usable shape".to_string(),
            position: octocrate_codegen::schema::parameters::Position::Query,
            required: None,
            schema: empty_schema(),
        }],
        body_parameters: vec![],
        code_examples: vec![APICodeExampleSchema {
            key: "default".to_string(),
            response: Response {
                status_code: "200".to_string(),
                schema: None,
            },
        }],
    };
    let source = vec![(
        "things".to_string(),
        vec![("thing".to_string(), vec![endpoint])],
    )];
    let mut codegen = Codegen::new();
    assert!(codegen.try_parse(source).is_err());

    let good = APISchema {
        title: "Get thing".to_string(),
        category: "things".to_string(),
        sub_category: "thing".to_string(),
        path: "/thing".to_string(),
        method: Method::GET,
        parameters: vec![],
        body_parameters: vec![],
        code_examples: vec![],
    };
    let source = vec![(
        "things".to_string(),
        vec![("thing".to_string(), vec![good])],
    )];
    let mut codegen = Codegen::new();
    assert!(codegen.try_parse(source).is_ok());
}
