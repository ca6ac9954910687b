use octocrate_codegen::codegen::body_parameters::generated_struct::GeneratedStruct;
use octocrate_codegen::codegen::body_parameters::BodyParameters;
use octocrate_codegen::codegen::structs::Declaration;
use octocrate_codegen::schema::body_parameters::{BodyParameter, BodyParameterType};

fn leaf(name: &str, type_: BodyParameterType, description: &str) -> BodyParameter {
    BodyParameter {
        name: name.to_string(),
        type_,
        description: description.to_string(),
        is_required: Some(true),
        child_params_group: None,
    }
}

#[test]
fn test_body_parameters_nested_group() {
    let required_status_checks = BodyParameter {
        name: "required_status_checks".to_string(),
        type_: BodyParameterType::ObjectOrNull,
        description: "<p>Require status checks to pass before merging.</p>".to_string(),
        is_required: Some(true),
        child_params_group: Some(vec![
            leaf("strict", BodyParameterType::Boolean, "strict"),
            leaf("contexts", BodyParameterType::ArrayOfStrings, "contexts"),
        ]),
    };

    let body_parameters = BodyParameters::new(vec![required_status_checks]);

    let record = body_parameters
        .parse(&"Update branch protection".to_string())
        .unwrap();

    assert_eq!(record.name.0, "UpdateBranchProtectionRequest");
    assert_eq!(
        record.description.as_ref().unwrap().0,
        "Body parameters for update branch protection"
    );
    assert_eq!(record.fields.len(), 1);

    let field = &record.fields[0];
    assert_eq!(field.name, "required_status_checks");
    assert_eq!(
        field.type_expr,
        "Option<UpdateBranchProtectionRequestRequiredStatusChecks>"
    );

    let child = field.reference.as_ref().unwrap();
    let child = match &**child {
        Declaration::Struct(s) => s,
        _ => panic!("Expected a record"),
    };
    assert_eq!(
        child.name.0,
        "UpdateBranchProtectionRequestRequiredStatusChecks"
    );
    assert_eq!(child.fields.len(), 2);
    assert_eq!(child.fields[0].name, "strict");
    assert_eq!(child.fields[0].type_expr, "bool");
    assert_eq!(child.fields[1].name, "contexts");
    assert_eq!(child.fields[1].type_expr, "Vec<String>");
}

#[test]
fn test_body_parameters_empty() {
    let body_parameters = BodyParameters::new(vec![]);
    assert!(body_parameters.parse(&"Anything".to_string()).is_none());
}

#[test]
fn test_generated_struct_primitives() {
    assert_eq!(
        GeneratedStruct::type_(BodyParameterType::String).to_full_type(),
        "String"
    );
    assert_eq!(
        GeneratedStruct::type_(BodyParameterType::IntegerOrNull).to_full_type(),
        "Option<i64>"
    );
    assert_eq!(
        GeneratedStruct::type_(BodyParameterType::ArrayOfStrings).to_full_type(),
        "Vec<String>"
    );
    assert_eq!(
        GeneratedStruct::type_(BodyParameterType::ObjectOrString).to_full_type(),
        "serde_json::Value"
    );
    assert_eq!(
        GeneratedStruct::type_(BodyParameterType::StringOrInteger).to_full_type(),
        "StringOrNumber"
    );
}

#[test]
fn test_body_parameter_type_try_from() {
    assert_eq!(
        BodyParameterType::try_from(&"object or null".to_string()),
        Ok(BodyParameterType::ObjectOrNull)
    );
    assert_eq!(
        BodyParameterType::try_from(&"array of strings".to_string()),
        Ok(BodyParameterType::ArrayOfStrings)
    );
    assert_eq!(
        BodyParameterType::try_from(&"matrix of strings".to_string()),
        Err("matrix of strings".to_string())
    );
}

#[test]
fn test_body_parameters_empty_child_group() {
    let entry = BodyParameter {
        name: "metadata".to_string(),
        type_: BodyParameterType::ObjectOrNull,
        description: "free-form".to_string(),
        is_required: None,
        child_params_group: Some(vec![]),
    };
    let body_parameters = BodyParameters::new(vec![entry]);
    let record = body_parameters.parse(&"Create thing".to_string()).unwrap();
    // An empty child group introduces no record: the descriptor maps as a
    // primitive.
    assert_eq!(record.fields[0].type_expr, "Option<serde_json::Value>");
    assert!(record.fields[0].reference.is_none());
}
