//! An endpoint parameter and its position (path or query).

use vstd::prelude::*;
use crate::schema::schema::{Schema, SchemaV};

verus! {

/// Where a parameter travels: in the path template or in the query string.
#[derive(Clone, Copy, Debug, PartialEq, Eq, Structural)]
pub enum Position {
    Query,
    Path,
}

/// One endpoint parameter, with its schema node.
#[derive(Debug)]
pub struct Parameter {
    pub name: String,
    pub description: String,
    pub position: Position,
    pub required: Option<bool>,
    pub schema: Schema,
}

/// Ghost mirror of an endpoint parameter.
#[verifier::ext_equal]
pub ghost struct ParameterV {
    pub name: Seq<char>,
    pub description: Seq<char>,
    pub position: Position,
    pub required: Option<bool>,
    pub schema: SchemaV,
}

pub open spec fn parameter_view(p: Parameter) -> ParameterV {
    ParameterV {
        name: p.name@,
        description: p.description@,
        position: p.position,
        required: p.required,
        schema: p.schema@,
    }
}

impl View for Parameter {
    type V = ParameterV;

    open spec fn view(&self) -> ParameterV {
        parameter_view(*self)
    }
}

pub open spec fn params_view(v: Seq<Parameter>) -> Seq<ParameterV> {
    Seq::new(
        v.len(),
        |i: int|
            if 0 <= i < v.len() {
                parameter_view(v[i])
            } else {
                arbitrary()
            },
    )
}

impl Position {
    pub fn is_query(&self) -> (r: bool)
        ensures
            r == (*self == Position::Query),
    {
        match self {
            Position::Query => true,
            _ => false,
        }
    }
}

} // verus!
