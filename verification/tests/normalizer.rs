use octocrate_codegen::codegen::function_name::FunctionName;
use octocrate_codegen::codegen::structs::{Description, StructName};

#[test]
fn test_function_name() {
    let value = "a function name".to_string();

    let function_name = FunctionName::from(&value);

    assert_eq!(function_name, FunctionName("function_name".to_string()));

    let value = "List workflow run artifacts".to_string();

    let function_name = FunctionName::from(&value);

    assert_eq!(
        function_name,
        FunctionName("list_workflow_run_artifacts".to_string())
    );

    let value = "Get an artifact".to_string();

    let function_name = FunctionName::from(&value);

    assert_eq!(function_name, FunctionName("get_artifact".to_string()));

    let value = "List artifacts for a repository".to_string();

    let function_name = FunctionName::from(&value);

    assert_eq!(function_name, FunctionName("list_artifacts".to_string()));
}

#[test]
fn test_description_from_string() {
    let description = Description::from(&"<p> Hello, <strong>world!</strong> </p>".to_string());
    assert_eq!(description.0, "Hello, world!");
}

#[test]
fn test_struct_name_from_string() {
    let struct_name = StructName::from(&"hello_world".to_string());
    assert_eq!(struct_name.0, "HelloWorld");
}

#[test]
fn test_function_name_idempotent() {
    let once = FunctionName::from(&"List artifacts for a repository".to_string());
    let twice = FunctionName::from(&once.to_string());
    assert_eq!(once, twice);
}

#[test]
fn test_struct_name_idempotent() {
    let once = StructName::from(&"hello_world".to_string());
    let twice = StructName::from(&once.to_string());
    assert_eq!(once.0, twice.0);
}

#[test]
fn test_description_keeps_uppercase_tags() {
    let description = Description::from(&"a <B>bold</B> claim".to_string());
    assert_eq!(description.0, "a <B>bold</B> claim");
}

#[test]
fn test_function_name_collapses_whitespace() {
    let function_name = FunctionName::from(&"  Get   an   artifact  ".to_string());
    assert_eq!(function_name.to_string(), "get_artifact");
}
