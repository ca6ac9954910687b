//! What lowering one body parameter produces: a nested record with its
//! variadic outer shape, or a bare descriptor type.

use vstd::prelude::*;
use crate::codegen::structs::{struct_view, Struct, StructV};
use crate::error::GithubError;
use crate::schema::body_parameters::BodyParameterType;

verus! {

/// A lowered body parameter: a record with the descriptor that shapes it,
/// or a primitive descriptor alone.
#[derive(Debug)]
pub enum GeneratedStruct {
    Struct { struct_: Struct, type_: BodyParameterType },
    Type(BodyParameterType),
}

/// Ghost mirror of a lowered body parameter.
#[verifier::ext_equal]
pub ghost enum GeneratedStructV {
    Struct { struct_: StructV, type_: BodyParameterType },
    Type(BodyParameterType),
}

pub open spec fn generated_view(g: GeneratedStruct) -> GeneratedStructV {
    match g {
        GeneratedStruct::Struct { struct_, type_ } => GeneratedStructV::Struct {
            struct_: struct_view(struct_),
            type_,
        },
        GeneratedStruct::Type(t) => GeneratedStructV::Type(t),
    }
}

impl View for GeneratedStruct {
    type V = GeneratedStructV;

    open spec fn view(&self) -> GeneratedStructV {
        generated_view(*self)
    }
}

/// The expression of a bare descriptor; `None` marks a descriptor that only
/// shapes records.
pub open spec fn spec_primitive_body_type(t: BodyParameterType) -> Option<Seq<char>> {
    match t {
        BodyParameterType::String => Some("String"@),
        BodyParameterType::Number => Some("f64"@),
        BodyParameterType::Integer => Some("i64"@),
        BodyParameterType::Boolean => Some("bool"@),
        BodyParameterType::StringOrNull => Some("Option<String>"@),
        BodyParameterType::BooleanOrNull => Some("Option<bool>"@),
        BodyParameterType::NumberOrNull => Some("Option<f64>"@),
        BodyParameterType::IntegerOrNull => Some("Option<i64>"@),
        BodyParameterType::ArrayOfStrings => Some("Vec<String>"@),
        BodyParameterType::ArrayOfIntegers => Some("Vec<i64>"@),
        BodyParameterType::Array => Some("Vec<serde_json::Value>"@),
        BodyParameterType::StringOrNumber => Some("StringOrNumber"@),
        BodyParameterType::StringOrInteger => Some("StringOrNumber"@),
        BodyParameterType::BooleanOrString => Some("StringOrBool"@),
        BodyParameterType::ObjectOrNull => Some("Option<serde_json::Value>"@),
        BodyParameterType::ObjectOrString => Some("serde_json::Value"@),
        BodyParameterType::Object => Some("serde_json::Value"@),
        BodyParameterType::ArrayOfStringsOrNull => Some("Option<Vec<String>>"@),
        BodyParameterType::NullOrStringOrInteger => Some("Option<serde_json::Value>"@),
        BodyParameterType::NullOrStringOrArray => Some("serde_json::Value"@),
        BodyParameterType::ObjectOrArrayOrString => Some("serde_json::Value"@),
        BodyParameterType::ArrayOfObjects => None,
        BodyParameterType::ArrayOfObjectsOrNull => None,
    }
}

/// The expression of a record shaped by its descriptor; `None` marks a
/// descriptor that cannot shape a record.
pub open spec fn spec_struct_body_type(t: BodyParameterType, name: Seq<char>) -> Option<
    Seq<char>,
> {
    match t {
        BodyParameterType::Object => Some(name),
        BodyParameterType::Array => Some("Vec<"@ + name + ">"@),
        BodyParameterType::ObjectOrNull => Some("Option<"@ + name + ">"@),
        BodyParameterType::ArrayOfObjects => Some("Vec<"@ + name + ">"@),
        BodyParameterType::ArrayOfObjectsOrNull => Some("Option<Vec<"@ + name + ">>"@),
        _ => None,
    }
}

/// The full type expression of a lowered body parameter.
pub open spec fn spec_generated_full_type(g: GeneratedStructV) -> Option<Seq<char>> {
    match g {
        GeneratedStructV::Struct { struct_, type_ } => spec_struct_body_type(
            type_,
            struct_.name,
        ),
        GeneratedStructV::Type(t) => spec_primitive_body_type(t),
    }
}

impl GeneratedStruct {
    pub fn struct_(struct_: Struct, type_: BodyParameterType) -> (r: Self)
        ensures
            r@ == (GeneratedStructV::Struct { struct_: struct_view(struct_), type_ }),
    {
        GeneratedStruct::Struct { struct_, type_ }
    }

    pub fn type_(type_: BodyParameterType) -> (r: Self)
        ensures
            r@ == GeneratedStructV::Type(type_),
    {
        GeneratedStruct::Type(type_)
    }

    /// The full type expression, or the not-yet-implemented failure on a
    /// descriptor the table does not handle for this shape.
    pub fn try_to_full_type(&self) -> (r: Result<String, GithubError>)
        ensures
            match r {
                Ok(t) => spec_generated_full_type(self@) == Some(t@),
                Err(_) => spec_generated_full_type(self@) is None,
            },
    {
        match self.to_full_type_inner() {
            Some(t) => Ok(t),
            None => Err(
                GithubError::new(String::from_str("This body parameter type is not implemented")),
            ),
        }
    }

    /// The full type expression; the descriptor must be one the table
    /// handles for this shape.
    pub fn to_full_type(&self) -> (r: String)
        requires
            spec_generated_full_type(self@) is Some,
        ensures
            Some(r@) == spec_generated_full_type(self@),
    {
        match self.to_full_type_inner() {
            Some(t) => t,
            None => {
                proof {
                    assert(false);
                }
                String::new()
            },
        }
    }

    /// The table itself: `None` where the descriptor does not fit the
    /// shape.
    fn to_full_type_inner(&self) -> (r: Option<String>)
        ensures
            match r {
                Some(t) => spec_generated_full_type(self@) == Some(t@),
                None => spec_generated_full_type(self@) is None,
            },
    {
        match self {
            GeneratedStruct::Struct { struct_, type_ } => {
                let tn = struct_.name.to_string();
                match type_ {
                    BodyParameterType::Object => Some(tn),
                    BodyParameterType::Array => Some(
                        String::from_str("Vec<").concat(tn.as_str()).concat(">"),
                    ),
                    BodyParameterType::ObjectOrNull => Some(
                        String::from_str("Option<").concat(tn.as_str()).concat(">"),
                    ),
                    BodyParameterType::ArrayOfObjects => Some(
                        String::from_str("Vec<").concat(tn.as_str()).concat(">"),
                    ),
                    BodyParameterType::ArrayOfObjectsOrNull => Some(
                        String::from_str("Option<Vec<").concat(tn.as_str()).concat(">>"),
                    ),
                    _ => None,
                }
            },
            GeneratedStruct::Type(type_) => match type_ {
                BodyParameterType::String => Some(String::from_str("String")),
                BodyParameterType::Number => Some(String::from_str("f64")),
                BodyParameterType::Integer => Some(String::from_str("i64")),
                BodyParameterType::Boolean => Some(String::from_str("bool")),
                BodyParameterType::StringOrNull => Some(String::from_str("Option<String>")),
                BodyParameterType::BooleanOrNull => Some(String::from_str("Option<bool>")),
                BodyParameterType::NumberOrNull => Some(String::from_str("Option<f64>")),
                BodyParameterType::IntegerOrNull => Some(String::from_str("Option<i64>")),
                BodyParameterType::ArrayOfStrings => Some(String::from_str("Vec<String>")),
                BodyParameterType::ArrayOfIntegers => Some(String::from_str("Vec<i64>")),
                BodyParameterType::Array => Some(String::from_str("Vec<serde_json::Value>")),
                BodyParameterType::StringOrNumber => Some(String::from_str("StringOrNumber")),
                BodyParameterType::StringOrInteger => Some(String::from_str("StringOrNumber")),
                BodyParameterType::BooleanOrString => Some(String::from_str("StringOrBool")),
                BodyParameterType::ObjectOrNull => Some(
                    String::from_str("Option<serde_json::Value>"),
                ),
                BodyParameterType::ObjectOrString => Some(
                    String::from_str("serde_json::Value"),
                ),
                BodyParameterType::Object => Some(String::from_str("serde_json::Value")),
                BodyParameterType::ArrayOfStringsOrNull => Some(
                    String::from_str("Option<Vec<String>>"),
                ),
                BodyParameterType::NullOrStringOrInteger => Some(
                    String::from_str("Option<serde_json::Value>"),
                ),
                BodyParameterType::NullOrStringOrArray => Some(
                    String::from_str("serde_json::Value"),
                ),
                BodyParameterType::ObjectOrArrayOrString => Some(
                    String::from_str("serde_json::Value"),
                ),
                _ => None,
            },
        }
    }
}

} // verus!
