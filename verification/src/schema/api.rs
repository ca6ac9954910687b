//! One endpoint of the input document: title, verb, path, parameters,
//! body parameters and code examples.

use vstd::prelude::*;
use crate::schema::body_parameters::BodyParameter;
use crate::schema::parameters::Parameter;
use crate::schema::response::Response;

verus! {

/// The HTTP verb of an endpoint.
#[derive(Clone, Copy, Debug, PartialEq, Eq, Structural)]
pub enum Method {
    GET,
    POST,
    PUT,
    PATCH,
    DELETE,
}

/// One code example: its key and the response it documents.
#[derive(Debug)]
pub struct APICodeExampleSchema {
    pub key: String,
    pub response: Response,
}

/// One endpoint as the input document carries it.
#[derive(Debug)]
pub struct APISchema {
    pub title: String,
    pub category: String,
    pub sub_category: String,
    pub path: String,
    pub method: Method,
    pub parameters: Vec<Parameter>,
    pub body_parameters: Vec<BodyParameter>,
    pub code_examples: Vec<APICodeExampleSchema>,
}

/// Ghost mirror of a code example.
#[verifier::ext_equal]
pub ghost struct APICodeExampleSchemaV {
    pub key: Seq<char>,
    pub response: crate::schema::response::ResponseV,
}

pub open spec fn code_example_view(c: APICodeExampleSchema) -> APICodeExampleSchemaV {
    APICodeExampleSchemaV { key: c.key@, response: crate::schema::response::response_view(c.response) }
}

impl View for APICodeExampleSchema {
    type V = APICodeExampleSchemaV;

    open spec fn view(&self) -> APICodeExampleSchemaV {
        code_example_view(*self)
    }
}

/// Ghost mirror of an endpoint.
#[verifier::ext_equal]
pub ghost struct APISchemaV {
    pub title: Seq<char>,
    pub category: Seq<char>,
    pub sub_category: Seq<char>,
    pub path: Seq<char>,
    pub method: Method,
    pub parameters: Seq<crate::schema::parameters::ParameterV>,
    pub body_parameters: Seq<crate::schema::body_parameters::BodyParameterV>,
    pub code_examples: Seq<APICodeExampleSchemaV>,
}

pub open spec fn api_schema_view(a: APISchema) -> APISchemaV {
    APISchemaV {
        title: a.title@,
        category: a.category@,
        sub_category: a.sub_category@,
        path: a.path@,
        method: a.method,
        parameters: crate::schema::parameters::params_view(a.parameters@),
        body_parameters: crate::schema::body_parameters::body_parameter_list_view(
            a.body_parameters@,
        ),
        code_examples: Seq::new(
            a.code_examples@.len(),
            |i: int|
                if 0 <= i < a.code_examples@.len() {
                    code_example_view(a.code_examples@[i])
                } else {
                    arbitrary()
                },
        ),
    }
}

impl View for APISchema {
    type V = APISchemaV;

    open spec fn view(&self) -> APISchemaV {
        api_schema_view(*self)
    }
}

/// The upper-case name of each verb.
pub open spec fn spec_method_name(m: Method) -> Seq<char> {
    match m {
        Method::GET => "GET"@,
        Method::POST => "POST"@,
        Method::PUT => "PUT"@,
        Method::PATCH => "PATCH"@,
        Method::DELETE => "DELETE"@,
    }
}

impl Method {
    pub fn to_string(&self) -> (r: String)
        ensures
            r@ == spec_method_name(*self),
    {
        match self {
            Method::GET => String::from_str("GET"),
            Method::POST => String::from_str("POST"),
            Method::PUT => String::from_str("PUT"),
            Method::PATCH => String::from_str("PATCH"),
            Method::DELETE => String::from_str("DELETE"),
        }
    }
}

} // verus!
