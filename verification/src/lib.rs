//! Schema-driven client-SDK generator: lowers a JSON-Schema-like description
//! of a REST API into named, strongly-typed declarations (records and tagged
//! unions) plus one callable operation per endpoint.

pub mod error;
pub mod schema;
pub mod codegen;
