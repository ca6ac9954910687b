//! The generator's error type: a plain message carrier.

use vstd::prelude::*;

verus! {

/// Error reported on malformed input: an unknown type token or an
/// unhandled shape combination.
#[derive(Debug, Clone)]
pub struct GithubError {
    pub message: String,
}

impl GithubError {
    pub fn new(err_msg: String) -> (r: Self)
        ensures
            r.message@ == err_msg@,
    {
        GithubError { message: err_msg }
    }
}

} // verus!
