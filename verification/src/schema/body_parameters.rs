//! Body parameters: entries whose `type` is a free-form descriptive string
//! drawn from a fixed vocabulary ("object or null", "array of strings", ...).

use vstd::prelude::*;

verus! {

broadcast use vstd::std_specs::vec::group_vec_axioms, vstd::seq::group_seq_axioms;

/// The body-parameter dialect: each variant stands for one descriptor of the
/// supported vocabulary.
#[derive(Clone, Copy, Debug, PartialEq, Eq, Structural)]
pub enum BodyParameterType {
    String,
    Number,
    Integer,
    Boolean,
    Object,
    Array,
    StringOrNull,
    NumberOrNull,
    IntegerOrNull,
    BooleanOrNull,
    ObjectOrNull,
    ObjectOrString,
    ArrayOfStrings,
    ArrayOfIntegers,
    ArrayOfObjects,
    ArrayOfObjectsOrNull,
    ArrayOfStringsOrNull,
    StringOrNumber,
    StringOrInteger,
    BooleanOrString,
    NullOrStringOrInteger,
    NullOrStringOrArray,
    ObjectOrArrayOrString,
}

/// One body-parameter entry; `child_params_group` nests further entries.
#[derive(Debug)]
pub struct BodyParameter {
    pub name: String,
    pub type_: BodyParameterType,
    pub description: String,
    pub is_required: Option<bool>,
    pub child_params_group: Option<Vec<BodyParameter>>,
}

/// Ghost mirror of a body-parameter entry.
#[verifier::ext_equal]
pub ghost struct BodyParameterV {
    pub name: Seq<char>,
    pub type_: BodyParameterType,
    pub description: Seq<char>,
    pub is_required: Option<bool>,
    pub child_params_group: Option<Seq<BodyParameterV>>,
}

pub open spec fn body_parameter_list_view(v: Seq<BodyParameter>) -> Seq<BodyParameterV>
    decreases v,
{
    Seq::new(
        v.len(),
        |i: int|
            if 0 <= i < v.len() {
                body_parameter_view(v[i])
            } else {
                arbitrary()
            },
    )
}

pub open spec fn body_parameter_view(p: BodyParameter) -> BodyParameterV
    decreases p,
{
    BodyParameterV {
        name: p.name@,
        type_: p.type_,
        description: p.description@,
        is_required: p.is_required,
        child_params_group: match p.child_params_group {
            Some(v) => Some(body_parameter_list_view(v@)),
            None => None,
        },
    }
}

impl View for BodyParameter {
    type V = BodyParameterV;

    open spec fn view(&self) -> BodyParameterV {
        body_parameter_view(*self)
    }
}

/// The descriptor that names each member of the vocabulary.
pub open spec fn spec_body_type_descriptor(t: BodyParameterType) -> Seq<char> {
    match t {
        BodyParameterType::String => "string"@,
        BodyParameterType::Number => "number"@,
        BodyParameterType::Integer => "integer"@,
        BodyParameterType::Boolean => "boolean"@,
        BodyParameterType::Object => "object"@,
        BodyParameterType::Array => "array"@,
        BodyParameterType::StringOrNull => "string or null"@,
        BodyParameterType::NumberOrNull => "number or null"@,
        BodyParameterType::IntegerOrNull => "integer or null"@,
        BodyParameterType::BooleanOrNull => "boolean or null"@,
        BodyParameterType::ObjectOrNull => "object or null"@,
        BodyParameterType::ObjectOrString => "object or string"@,
        BodyParameterType::ArrayOfStrings => "array of strings"@,
        BodyParameterType::ArrayOfIntegers => "array of integers"@,
        BodyParameterType::ArrayOfObjects => "array of objects"@,
        BodyParameterType::ArrayOfObjectsOrNull => "array of objects or null"@,
        BodyParameterType::ArrayOfStringsOrNull => "array of strings or null"@,
        BodyParameterType::StringOrNumber => "string or number"@,
        BodyParameterType::StringOrInteger => "string or integer"@,
        BodyParameterType::BooleanOrString => "boolean or string"@,
        BodyParameterType::NullOrStringOrInteger => "null or string or integer"@,
        BodyParameterType::NullOrStringOrArray => "null or string or array"@,
        BodyParameterType::ObjectOrArrayOrString => "object or array or string"@,
    }
}

/// A descriptor outside the vocabulary maps to `None`: a not-yet-implemented
/// body-parameter type, reported as a fatal error by the caller.
pub open spec fn spec_body_type_of(s: Seq<char>) -> Option<BodyParameterType> {
    if s == "string"@ {
        Some(BodyParameterType::String)
    } else if s == "number"@ {
        Some(BodyParameterType::Number)
    } else if s == "integer"@ {
        Some(BodyParameterType::Integer)
    } else if s == "boolean"@ {
        Some(BodyParameterType::Boolean)
    } else if s == "object"@ {
        Some(BodyParameterType::Object)
    } else if s == "array"@ {
        Some(BodyParameterType::Array)
    } else if s == "string or null"@ {
        Some(BodyParameterType::StringOrNull)
    } else if s == "number or null"@ {
        Some(BodyParameterType::NumberOrNull)
    } else if s == "integer or null"@ {
        Some(BodyParameterType::IntegerOrNull)
    } else if s == "boolean or null"@ {
        Some(BodyParameterType::BooleanOrNull)
    } else if s == "object or null"@ {
        Some(BodyParameterType::ObjectOrNull)
    } else if s == "object or string"@ {
        Some(BodyParameterType::ObjectOrString)
    } else if s == "array of strings"@ {
        Some(BodyParameterType::ArrayOfStrings)
    } else if s == "array of integers"@ {
        Some(BodyParameterType::ArrayOfIntegers)
    } else if s == "array of objects"@ {
        Some(BodyParameterType::ArrayOfObjects)
    } else if s == "array of objects or null"@ {
        Some(BodyParameterType::ArrayOfObjectsOrNull)
    } else if s == "array of strings or null"@ {
        Some(BodyParameterType::ArrayOfStringsOrNull)
    } else if s == "string or number"@ {
        Some(BodyParameterType::StringOrNumber)
    } else if s == "string or integer"@ {
        Some(BodyParameterType::StringOrInteger)
    } else if s == "boolean or string"@ {
        Some(BodyParameterType::BooleanOrString)
    } else if s == "null or string or integer"@ {
        Some(BodyParameterType::NullOrStringOrInteger)
    } else if s == "null or string or array"@ {
        Some(BodyParameterType::NullOrStringOrArray)
    } else if s == "object or array or string"@ {
        Some(BodyParameterType::ObjectOrArrayOrString)
    } else {
        None
    }
}

impl BodyParameterType {
    /// Looks a free-form descriptor up in the vocabulary; an unknown
    /// descriptor is handed back as the error.
    pub fn try_from(value: &String) -> (r: Result<Self, String>)
        ensures
            match r {
                Ok(t) => spec_body_type_of(value@) == Some(t),
                Err(e) => spec_body_type_of(value@) is None && e@ == value@,
            },
    {
        proof {
            reveal_strlit("string");
            reveal_strlit("number");
            reveal_strlit("integer");
            reveal_strlit("boolean");
            reveal_strlit("object");
            reveal_strlit("array");
            reveal_strlit("string or null");
            reveal_strlit("number or null");
            reveal_strlit("integer or null");
            reveal_strlit("boolean or null");
            reveal_strlit("object or null");
            reveal_strlit("object or string");
            reveal_strlit("array of strings");
            reveal_strlit("array of integers");
            reveal_strlit("array of objects");
            reveal_strlit("array of objects or null");
            reveal_strlit("array of strings or null");
            reveal_strlit("string or number");
            reveal_strlit("string or integer");
            reveal_strlit("boolean or string");
            reveal_strlit("null or string or integer");
            reveal_strlit("null or string or array");
            reveal_strlit("object or array or string");
        }
        let r = if *value == String::from_str("string") {
            Ok(BodyParameterType::String)
        } else if *value == String::from_str("number") {
            Ok(BodyParameterType::Number)
        } else if *value == String::from_str("integer") {
            Ok(BodyParameterType::Integer)
        } else if *value == String::from_str("boolean") {
            Ok(BodyParameterType::Boolean)
        } else if *value == String::from_str("object") {
            Ok(BodyParameterType::Object)
        } else if *value == String::from_str("array") {
            Ok(BodyParameterType::Array)
        } else if *value == String::from_str("string or null") {
            Ok(BodyParameterType::StringOrNull)
        } else if *value == String::from_str("number or null") {
            Ok(BodyParameterType::NumberOrNull)
        } else if *value == String::from_str("integer or null") {
            Ok(BodyParameterType::IntegerOrNull)
        } else if *value == String::from_str("boolean or null") {
            Ok(BodyParameterType::BooleanOrNull)
        } else if *value == String::from_str("object or null") {
            Ok(BodyParameterType::ObjectOrNull)
        } else if *value == String::from_str("object or string") {
            Ok(BodyParameterType::ObjectOrString)
        } else if *value == String::from_str("array of strings") {
            Ok(BodyParameterType::ArrayOfStrings)
        } else if *value == String::from_str("array of integers") {
            Ok(BodyParameterType::ArrayOfIntegers)
        } else if *value == String::from_str("array of objects") {
            Ok(BodyParameterType::ArrayOfObjects)
        } else if *value == String::from_str("array of objects or null") {
            Ok(BodyParameterType::ArrayOfObjectsOrNull)
        } else if *value == String::from_str("array of strings or null") {
            Ok(BodyParameterType::ArrayOfStringsOrNull)
        } else if *value == String::from_str("string or number") {
            Ok(BodyParameterType::StringOrNumber)
        } else if *value == String::from_str("string or integer") {
            Ok(BodyParameterType::StringOrInteger)
        } else if *value == String::from_str("boolean or string") {
            Ok(BodyParameterType::BooleanOrString)
        } else if *value == String::from_str("null or string or integer") {
            Ok(BodyParameterType::NullOrStringOrInteger)
        } else if *value == String::from_str("null or string or array") {
            Ok(BodyParameterType::NullOrStringOrArray)
        } else if *value == String::from_str("object or array or string") {
            Ok(BodyParameterType::ObjectOrArrayOrString)
        } else {
            Err(value.clone())
        };
        r
    }
}

} // verus!
