//! What the lowering pass produces: endpoints, modules, and the tree that
//! collects them.

pub mod api;
pub mod api_tree;

pub use crate::codegen::schema_parser::ParsedStruct;
