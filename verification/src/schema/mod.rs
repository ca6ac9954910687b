//! The input document model: categories, subcategories, endpoints, and the
//! JSON-Schema-like nodes they carry.

pub mod api;
pub mod body_parameters;
pub mod parameters;
pub mod response;
pub mod schema;

use vstd::prelude::*;

verus! {

/// The whole input document: category name, then subcategory name, then the
/// endpoints of that subcategory. Entries keep their input order.
pub type Source = Vec<(String, Vec<(String, Vec<crate::schema::api::APISchema>)>)>;

} // verus!
