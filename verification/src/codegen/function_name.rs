//! The operation-name normalizer: free-form titles to snake_case
//! identifiers.

use vstd::prelude::*;
use crate::codegen::text::{
    collapse_ws, head_before_for, lower_of, spec_identifier_of, strip_articles, trim,
};

verus! {

/// A canonical operation identifier: lower-case snake, stop words stripped.
#[derive(Debug, PartialEq)]
pub struct FunctionName(pub String);

impl FunctionName {
    /// Normalizes a title: keeps the head before any " for " clause, deletes
    /// the articles "a ", "an ", "the ", collapses whitespace runs into
    /// single underscores, and lower-cases the result.
    pub fn from(value: &String) -> (r: Self)
        ensures
            r.0@ == spec_identifier_of(value@),
    {
        let head = head_before_for(value.as_str());
        let no_articles = strip_articles(head.as_str());
        let trimmed = trim(no_articles.as_str());
        let collapsed = collapse_ws(trimmed.as_str());
        FunctionName(lower_of(collapsed.as_str()))
    }

    pub fn to_string(&self) -> (r: String)
        ensures
            r@ == self.0@,
    {
        self.0.clone()
    }
}

} // verus!
