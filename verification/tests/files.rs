use octocrate_codegen::codegen::file_tree::{
    APIModuleFile, Directory, File, FileEntry, FileTree, TypesFile,
};
use octocrate_codegen::error::GithubError;

#[test]
fn test_file_names() {
    let types = TypesFile { types: vec![] };
    assert_eq!(types.file_name(), "types.rs");

    let module = APIModuleFile {
        name: "actions".to_string(),
        apis: vec![],
    };
    assert_eq!(module.file_name(), "actions.rs");

    let dir = Directory {
        name: "apis".to_string(),
        files: vec![],
    };
    assert_eq!(dir.file_name(), "apis");
}

#[test]
fn test_directory_mod_file_content() {
    let dir = Directory {
        name: "apis".to_string(),
        files: vec![
            FileEntry::Types(TypesFile { types: vec![] }),
            FileEntry::APIModule(APIModuleFile {
                name: "actions".to_string(),
                apis: vec![],
            }),
        ],
    };
    assert_eq!(dir.mod_file_content(), "mod types.rs;\nmod actions.rs;\n");
}

#[test]
fn test_file_tree_collects_files() {
    let mut tree = FileTree::new();
    assert_eq!(tree.files.len(), 0);
    tree.add_file(FileEntry::Types(TypesFile { types: vec![] }));
    tree.add_file(FileEntry::APIModule(APIModuleFile {
        name: "actions".to_string(),
        apis: vec![],
    }));
    assert_eq!(tree.files.len(), 2);
}

#[test]
fn test_github_error_message() {
    let err = GithubError::new("unknown schema type: float".to_string());
    assert_eq!(err.message, "unknown schema type: float");
}
