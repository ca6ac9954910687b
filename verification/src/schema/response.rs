//! The response entry of an endpoint's code example.

use vstd::prelude::*;
use crate::schema::schema::Schema;

verus! {

/// A response: its status code and, when present, the schema of its payload.
#[derive(Debug)]
pub struct Response {
    pub status_code: String,
    pub schema: Option<Schema>,
}

/// Ghost mirror of a response.
#[verifier::ext_equal]
pub ghost struct ResponseV {
    pub status_code: Seq<char>,
    pub schema: Option<crate::schema::schema::SchemaV>,
}

pub open spec fn response_view(r: Response) -> ResponseV {
    ResponseV {
        status_code: r.status_code@,
        schema: match r.schema {
            Some(s) => Some(crate::schema::schema::schema_view(s)),
            None => None,
        },
    }
}

impl View for Response {
    type V = ResponseV;

    open spec fn view(&self) -> ResponseV {
        response_view(*self)
    }
}

} // verus!
