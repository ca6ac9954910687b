//! A JSON-Schema-like node: `type`, `items`, `properties`, `required`,
//! `enum`, and the `oneOf` / `allOf` / `anyOf` composition lists.

use vstd::prelude::*;

verus! {

broadcast use vstd::std_specs::vec::group_vec_axioms, vstd::seq::group_seq_axioms;

/// One token of the fixed `type` vocabulary.
#[derive(Clone, Copy, Debug, PartialEq, Eq, Structural)]
pub enum SchemaType {
    Null,
    Integer,
    Boolean,
    String,
    Object,
    Array,
}

/// The `type` field of a node: a scalar token or an array of tokens.
#[derive(Clone, Debug)]
pub enum SchemaTypeDefination {
    String(String),
    Array(Vec<String>),
}

/// A schema node. `properties` keeps the input order of the property map.
#[derive(Debug)]
pub struct Schema {
    pub title: Option<String>,
    pub type_: Option<SchemaTypeDefination>,
    pub items: Option<Box<Schema>>,
    pub properties: Option<Vec<(String, Schema)>>,
    pub required: Option<Vec<String>>,
    pub description: Option<String>,
    pub enum_: Option<Vec<Option<String>>>,
    pub all_of: Option<Vec<Schema>>,
    pub any_of: Option<Vec<Schema>>,
    pub one_of: Option<Vec<Schema>>,
}

/// Ghost mirror of `SchemaTypeDefination`.
pub ghost enum TypeDefV {
    Scalar(Seq<char>),
    Tokens(Seq<Seq<char>>),
}

/// Ghost mirror of a schema node, over sequences of characters.
#[verifier::ext_equal]
pub ghost struct SchemaV {
    pub title: Option<Seq<char>>,
    pub type_: Option<TypeDefV>,
    pub items: Option<Box<SchemaV>>,
    pub properties: Option<Seq<(Seq<char>, SchemaV)>>,
    pub required: Option<Seq<Seq<char>>>,
    pub description: Option<Seq<char>>,
    pub enum_: Option<Seq<Option<Seq<char>>>>,
    pub all_of: Option<Seq<SchemaV>>,
    pub any_of: Option<Seq<SchemaV>>,
    pub one_of: Option<Seq<SchemaV>>,
}

pub open spec fn type_def_view(d: SchemaTypeDefination) -> TypeDefV {
    match d {
        SchemaTypeDefination::String(s) => TypeDefV::Scalar(s@),
        SchemaTypeDefination::Array(v) => TypeDefV::Tokens(v@.map_values(|s: String| s@)),
    }
}

pub open spec fn opt_type_def_view(d: Option<SchemaTypeDefination>) -> Option<TypeDefV> {
    match d {
        Some(d) => Some(type_def_view(d)),
        None => None,
    }
}

pub open spec fn opt_string_view(s: Option<String>) -> Option<Seq<char>> {
    match s {
        Some(s) => Some(s@),
        None => None,
    }
}

pub open spec fn props_view(v: Seq<(String, Schema)>) -> Seq<(Seq<char>, SchemaV)>
    decreases v,
{
    Seq::new(
        v.len(),
        |i: int|
            if 0 <= i < v.len() {
                (v[i].0@, schema_view(v[i].1))
            } else {
                arbitrary()
            },
    )
}

pub open spec fn schema_list_view(v: Seq<Schema>) -> Seq<SchemaV>
    decreases v,
{
    Seq::new(v.len(), |i: int| if 0 <= i < v.len() { schema_view(v[i]) } else { arbitrary() })
}

pub open spec fn schema_view(s: Schema) -> SchemaV
    decreases s,
{
    SchemaV {
        title: opt_string_view(s.title),
        type_: opt_type_def_view(s.type_),
        items: match s.items {
            Some(b) => Some(Box::new(schema_view(*b))),
            None => None,
        },
        properties: match s.properties {
            Some(props) => Some(props_view(props@)),
            None => None,
        },
        required: match s.required {
            Some(r) => Some(r@.map_values(|x: String| x@)),
            None => None,
        },
        description: opt_string_view(s.description),
        enum_: match s.enum_ {
            Some(e) => Some(e@.map_values(|x: Option<String>| opt_string_view(x))),
            None => None,
        },
        all_of: match s.all_of {
            Some(v) => Some(schema_list_view(v@)),
            None => None,
        },
        any_of: match s.any_of {
            Some(v) => Some(schema_list_view(v@)),
            None => None,
        },
        one_of: match s.one_of {
            Some(v) => Some(schema_list_view(v@)),
            None => None,
        },
    }
}

impl View for Schema {
    type V = SchemaV;

    open spec fn view(&self) -> SchemaV {
        schema_view(*self)
    }
}

impl SchemaType {
    /// Classifies one token of the `type` vocabulary; an unknown token is an
    /// input error, reported with the offending token.
    pub fn try_from(value: &String) -> (r: Result<Self, String>)
        ensures
            match r {
                Ok(t) => spec_schema_type_of(value@) == Some(t),
                Err(e) => spec_schema_type_of(value@) is None && e@ == "Unknown schema type: "@
                    + value@,
            },
    {
        proof {
            reveal_strlit("Unknown schema type: ");
            reveal_strlit("null");
            reveal_strlit("integer");
            reveal_strlit("string");
            reveal_strlit("object");
            reveal_strlit("array");
            reveal_strlit("boolean");
        }
        if *value == String::from_str("null") {
            Ok(SchemaType::Null)
        } else if *value == String::from_str("integer") {
            Ok(SchemaType::Integer)
        } else if *value == String::from_str("string") {
            Ok(SchemaType::String)
        } else if *value == String::from_str("object") {
            Ok(SchemaType::Object)
        } else if *value == String::from_str("array") {
            Ok(SchemaType::Array)
        } else if *value == String::from_str("boolean") {
            Ok(SchemaType::Boolean)
        } else {
            Err(String::from_str("Unknown schema type: ").concat(value.as_str()))
        }
    }

    pub fn to_string(&self) -> (r: String)
        ensures
            r@ == spec_schema_type_token(*self),
    {
        match self {
            SchemaType::Null => String::from_str("null"),
            SchemaType::Integer => String::from_str("integer"),
            SchemaType::String => String::from_str("string"),
            SchemaType::Object => String::from_str("object"),
            SchemaType::Array => String::from_str("array"),
            SchemaType::Boolean => String::from_str("boolean"),
        }
    }
}

/// The token that names each member of the vocabulary.
pub open spec fn spec_schema_type_token(t: SchemaType) -> Seq<char> {
    match t {
        SchemaType::Null => "null"@,
        SchemaType::Integer => "integer"@,
        SchemaType::String => "string"@,
        SchemaType::Object => "object"@,
        SchemaType::Array => "array"@,
        SchemaType::Boolean => "boolean"@,
    }
}

/// Lookup of a token against the vocabulary; `None` marks an unknown token.
pub open spec fn spec_schema_type_of(s: Seq<char>) -> Option<SchemaType> {
    if s == "null"@ {
        Some(SchemaType::Null)
    } else if s == "integer"@ {
        Some(SchemaType::Integer)
    } else if s == "string"@ {
        Some(SchemaType::String)
    } else if s == "object"@ {
        Some(SchemaType::Object)
    } else if s == "array"@ {
        Some(SchemaType::Array)
    } else if s == "boolean"@ {
        Some(SchemaType::Boolean)
    } else {
        None
    }
}

} // verus!
