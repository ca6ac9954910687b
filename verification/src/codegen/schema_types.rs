//! The type-shape classifier: the six-flag set a schema node's `type` field
//! produces, and the lowered type expression each flag combination yields.

use vstd::prelude::*;
use crate::error::GithubError;
use crate::schema::schema::{
    spec_schema_type_of, SchemaType, SchemaTypeDefination, TypeDefV,
};

verus! {

broadcast use vstd::std_specs::vec::group_vec_axioms, vstd::seq::group_seq_axioms;

/// The flag set of a schema node's `type` field, with the tokens it came
/// from.
#[derive(Debug)]
pub struct SchemaTypes {
    pub types: Vec<SchemaType>,
    pub is_null: bool,
    pub is_array: bool,
    pub is_object: bool,
    pub is_string: bool,
    pub is_integer: bool,
    pub is_boolean: bool,
}

/// Ghost mirror of the flag set.
#[verifier::ext_equal]
pub ghost struct SchemaTypesV {
    pub types: Seq<SchemaType>,
    pub is_null: bool,
    pub is_array: bool,
    pub is_object: bool,
    pub is_string: bool,
    pub is_integer: bool,
    pub is_boolean: bool,
}

impl View for SchemaTypes {
    type V = SchemaTypesV;

    open spec fn view(&self) -> SchemaTypesV {
        SchemaTypesV {
            types: self.types@,
            is_null: self.is_null,
            is_array: self.is_array,
            is_object: self.is_object,
            is_string: self.is_string,
            is_integer: self.is_integer,
            is_boolean: self.is_boolean,
        }
    }
}

/// The canonical flag set of a token list: each flag says whether its token
/// occurs.
pub open spec fn spec_flags_of(types: Seq<SchemaType>) -> SchemaTypesV {
    SchemaTypesV {
        types,
        is_null: types.contains(SchemaType::Null),
        is_array: types.contains(SchemaType::Array),
        is_object: types.contains(SchemaType::Object),
        is_string: types.contains(SchemaType::String),
        is_integer: types.contains(SchemaType::Integer),
        is_boolean: types.contains(SchemaType::Boolean),
    }
}

/// The token list a `type` field denotes, once every token is known valid.
pub open spec fn spec_types_of_def(d: TypeDefV) -> Seq<SchemaType> {
    match d {
        TypeDefV::Scalar(s) => seq![spec_schema_type_of(s)->0],
        TypeDefV::Tokens(ts) => ts.map_values(|t: Seq<char>| spec_schema_type_of(t)->0),
    }
}

/// Whether every token of a `type` field belongs to the vocabulary.
pub open spec fn spec_def_valid(d: TypeDefV) -> bool {
    match d {
        TypeDefV::Scalar(s) => spec_schema_type_of(s) is Some,
        TypeDefV::Tokens(ts) => forall|i: int|
            0 <= i < ts.len() ==> spec_schema_type_of(#[trigger] ts[i]) is Some,
    }
}

/// The lowered expression of a flag set standing alone (the object flag
/// plays no part here); `None` marks an unhandled combination.
pub open spec fn spec_plain_type(v: SchemaTypesV) -> Option<Seq<char>> {
    let key = (v.is_array, v.is_string, v.is_integer, v.is_null, v.is_boolean);
    if key == (false, true, false, false, false) {
        Some("String"@)
    } else if key == (false, true, false, true, false) {
        Some("Option<String>"@)
    } else if key == (false, false, true, false, false) {
        Some("i64"@)
    } else if key == (false, false, true, true, false) {
        Some("Option<i64>"@)
    } else if key == (false, false, false, false, true) {
        Some("bool"@)
    } else if key == (false, false, false, true, true) {
        Some("Option<bool>"@)
    } else if key == (false, true, false, false, true) {
        Some("StringOrBool"@)
    } else {
        None
    }
}

/// The lowered expression of a flag set wrapped around an inner named type;
/// `None` marks an unhandled combination.
pub open spec fn spec_object_type(v: SchemaTypesV, name: Seq<char>) -> Option<Seq<char>> {
    let key = (v.is_object, v.is_array, v.is_string, v.is_integer, v.is_boolean, v.is_null);
    if key == (true, false, false, false, false, false) {
        Some(name)
    } else if key == (true, false, false, false, false, true) {
        Some("Option<"@ + name + ">"@)
    } else if key == (true, true, false, false, false, false) {
        Some("ObjectOrArray<"@ + name + ">"@)
    } else if key == (true, true, false, false, false, true) {
        Some("Option<ObjectOrArray<"@ + name + ">>"@)
    } else if key == (true, false, true, false, false, false) {
        Some("ObjectOrString<"@ + name + ">"@)
    } else if key == (true, false, true, false, false, true) {
        Some("Option<ObjectOrString<"@ + name + ">>"@)
    } else if key == (false, true, false, false, false, false) {
        Some("Vec<"@ + name + ">"@)
    } else if key == (false, true, false, false, false, true) {
        Some("Option<Vec<"@ + name + ">>"@)
    } else {
        None
    }
}

/// Whether the token occurs in the list.
fn contains_type(v: &Vec<SchemaType>, t: SchemaType) -> (r: bool)
    ensures
        r == v@.contains(t),
{
    let mut i: usize = 0;
    while i < v.len()
        invariant
            i <= v@.len(),
            forall|j: int| 0 <= j < i ==> v@[j] != t,
        decreases v@.len() - i,
    {
        if v[i] == t {
            return true;
        }
        i = i + 1;
    }
    false
}

impl SchemaTypes {
    pub fn new(types: Vec<SchemaType>) -> (r: Self)
        ensures
            r@ == spec_flags_of(types@),
    {
        let is_null = contains_type(&types, SchemaType::Null);
        let is_array = contains_type(&types, SchemaType::Array);
        let is_object = contains_type(&types, SchemaType::Object);
        let is_string = contains_type(&types, SchemaType::String);
        let is_integer = contains_type(&types, SchemaType::Integer);
        let is_boolean = contains_type(&types, SchemaType::Boolean);
        SchemaTypes { types, is_null, is_array, is_object, is_string, is_integer, is_boolean }
    }

    /// The flag set a `type` field produces, or the unknown token that
    /// stops it.
    pub fn try_from(value: &SchemaTypeDefination) -> (r: Result<Self, GithubError>)
        ensures
            match r {
                Ok(st) => spec_def_valid(crate::schema::schema::type_def_view(*value))
                    && st@ == spec_flags_of(
                    spec_types_of_def(crate::schema::schema::type_def_view(*value)),
                ),
                Err(_) => !spec_def_valid(crate::schema::schema::type_def_view(*value)),
            },
    {
        match value {
            SchemaTypeDefination::String(type_) => {
                match SchemaType::try_from(type_) {
                    Ok(t) => {
                        let types: Vec<SchemaType> = vec![t];
                        proof {
                            assert(types@ =~= spec_types_of_def(
                                crate::schema::schema::type_def_view(*value),
                            ));
                        }
                        Ok(SchemaTypes::new(types))
                    },
                    Err(message) => Err(GithubError::new(message)),
                }
            },
            SchemaTypeDefination::Array(tokens) => {
                let mut types: Vec<SchemaType> = Vec::new();
                let ghost d = crate::schema::schema::type_def_view(*value);
                let ghost mapped = tokens@.map_values(|s: String| s@);
                let mut i: usize = 0;
                while i < tokens.len()
                    invariant
                        i <= tokens@.len(),
                        d == crate::schema::schema::type_def_view(*value),
                        d == TypeDefV::Tokens(mapped),
                        mapped == tokens@.map_values(|s: String| s@),
                        forall|j: int|
                            0 <= j < i ==> spec_schema_type_of(#[trigger] mapped[j]) is Some,
                        types@ == spec_types_of_def(d).take(i as int),
                    decreases tokens@.len() - i,
                {
                    match SchemaType::try_from(&tokens[i]) {
                        Ok(t) => {
                            proof {
                                assert(spec_types_of_def(d)[i as int] == t);
                                assert(spec_types_of_def(d).take(i as int).push(
                                    spec_types_of_def(d)[i as int],
                                ) =~= spec_types_of_def(d).take(i as int + 1));
                            }
                            types.push(t);
                            i = i + 1;
                        },
                        Err(message) => {
                            proof {
                                assert(spec_schema_type_of(mapped[i as int]) is None);
                                assert(!spec_def_valid(d));
                            }
                            return Err(GithubError::new(message));
                        },
                    }
                }
                proof {
                    assert(spec_types_of_def(d).take(tokens@.len() as int) =~= spec_types_of_def(
                        d,
                    ));
                }
                Ok(SchemaTypes::new(types))
            },
        }
    }

    /// The flag set a `type` field produces; every token must belong to the
    /// vocabulary.
    pub fn from(value: &SchemaTypeDefination) -> (r: Self)
        requires
            spec_def_valid(crate::schema::schema::type_def_view(*value)),
        ensures
            r@ == spec_flags_of(
                spec_types_of_def(crate::schema::schema::type_def_view(*value)),
            ),
    {
        match SchemaTypes::try_from(value) {
            Ok(st) => st,
            Err(_) => {
                proof {
                    assert(false);
                }
                SchemaTypes::new(Vec::new())
            },
        }
    }

    /// The lowered expression of the flag set standing alone, or the hard
    /// failure on a combination outside the table.
    pub fn try_to_full_type(&self) -> (r: Result<String, GithubError>)
        ensures
            match r {
                Ok(t) => spec_plain_type(self@) == Some(t@),
                Err(_) => spec_plain_type(self@) is None,
            },
    {
        if !self.is_array && self.is_string && !self.is_integer && !self.is_null
            && !self.is_boolean {
            Ok(String::from_str("String"))
        } else if !self.is_array && self.is_string && !self.is_integer && self.is_null
            && !self.is_boolean {
            Ok(String::from_str("Option<String>"))
        } else if !self.is_array && !self.is_string && self.is_integer && !self.is_null
            && !self.is_boolean {
            Ok(String::from_str("i64"))
        } else if !self.is_array && !self.is_string && self.is_integer && self.is_null
            && !self.is_boolean {
            Ok(String::from_str("Option<i64>"))
        } else if !self.is_array && !self.is_string && !self.is_integer && !self.is_null
            && self.is_boolean {
            Ok(String::from_str("bool"))
        } else if !self.is_array && !self.is_string && !self.is_integer && self.is_null
            && self.is_boolean {
            Ok(String::from_str("Option<bool>"))
        } else if !self.is_array && self.is_string && !self.is_integer && !self.is_null
            && self.is_boolean {
            Ok(String::from_str("StringOrBool"))
        } else {
            Err(GithubError::new(String::from_str("Invalid schema types")))
        }
    }

    /// The lowered expression of the flag set standing alone; the
    /// combination must belong to the table.
    pub fn to_full_type(&self) -> (r: String)
        requires
            spec_plain_type(self@) is Some,
        ensures
            Some(r@) == spec_plain_type(self@),
    {
        match self.try_to_full_type() {
            Ok(t) => t,
            Err(_) => {
                proof {
                    assert(false);
                }
                String::new()
            },
        }
    }

    /// The lowered expression of the flag set wrapped around `object_name`,
    /// or the hard failure on a combination outside the object-aware table.
    pub fn try_to_full_type_with_object(&self, object_name: &String) -> (r: Result<
        String,
        GithubError,
    >)
        ensures
            match r {
                Ok(t) => spec_object_type(self@, object_name@) == Some(t@),
                Err(_) => spec_object_type(self@, object_name@) is None,
            },
    {
        if self.is_object && !self.is_array && !self.is_string && !self.is_integer
            && !self.is_boolean && !self.is_null {
            Ok(object_name.clone())
        } else if self.is_object && !self.is_array && !self.is_string && !self.is_integer
            && !self.is_boolean && self.is_null {
            Ok(String::from_str("Option<").concat(object_name.as_str()).concat(">"))
        } else if self.is_object && self.is_array && !self.is_string && !self.is_integer
            && !self.is_boolean && !self.is_null {
            Ok(String::from_str("ObjectOrArray<").concat(object_name.as_str()).concat(">"))
        } else if self.is_object && self.is_array && !self.is_string && !self.is_integer
            && !self.is_boolean && self.is_null {
            Ok(
                String::from_str("Option<ObjectOrArray<").concat(
                    object_name.as_str(),
                ).concat(">>"),
            )
        } else if self.is_object && !self.is_array && self.is_string && !self.is_integer
            && !self.is_boolean && !self.is_null {
            Ok(String::from_str("ObjectOrString<").concat(object_name.as_str()).concat(">"))
        } else if self.is_object && !self.is_array && self.is_string && !self.is_integer
            && !self.is_boolean && self.is_null {
            Ok(
                String::from_str("Option<ObjectOrString<").concat(
                    object_name.as_str(),
                ).concat(">>"),
            )
        } else if !self.is_object && self.is_array && !self.is_string && !self.is_integer
            && !self.is_boolean && !self.is_null {
            Ok(String::from_str("Vec<").concat(object_name.as_str()).concat(">"))
        } else if !self.is_object && self.is_array && !self.is_string && !self.is_integer
            && !self.is_boolean && self.is_null {
            Ok(String::from_str("Option<Vec<").concat(object_name.as_str()).concat(">>"))
        } else {
            Err(GithubError::new(String::from_str("Invalid schema types")))
        }
    }

    /// The lowered expression of the flag set wrapped around `object_name`;
    /// the combination must belong to the object-aware table.
    pub fn to_full_type_with_object(&self, object_name: &String) -> (r: String)
        requires
            spec_object_type(self@, object_name@) is Some,
        ensures
            Some(r@) == spec_object_type(self@, object_name@),
    {
        match self.try_to_full_type_with_object(object_name) {
            Ok(t) => t,
            Err(_) => {
                proof {
                    assert(false);
                }
                String::new()
            },
        }
    }

    /// Unions another flag set into this one.
    pub fn merge(&mut self, other: &SchemaTypes)
        ensures
            final(self)@ == spec_flags_of(old(self)@.types + other@.types),
    {
        let mut i: usize = 0;
        let ghost orig = self.types@;
        while i < other.types.len()
            invariant
                i <= other.types@.len(),
                self.types@ == orig + other.types@.take(i as int),
            decreases other.types@.len() - i,
        {
            proof {
                assert((orig + other.types@.take(i as int)).push(other.types@[i as int]) =~= orig
                    + other.types@.take(i as int + 1));
            }
            let t = other.types[i];
            self.types.push(t);
            i = i + 1;
        }
        proof {
            assert(orig + other.types@.take(other.types@.len() as int) =~= orig + other.types@);
        }
        self.is_null = contains_type(&self.types, SchemaType::Null);
        self.is_array = contains_type(&self.types, SchemaType::Array);
        self.is_object = contains_type(&self.types, SchemaType::Object);
        self.is_string = contains_type(&self.types, SchemaType::String);
        self.is_integer = contains_type(&self.types, SchemaType::Integer);
        self.is_boolean = contains_type(&self.types, SchemaType::Boolean);
        proof {
            assert(self@ =~= spec_flags_of(orig + other.types@));
        }
    }
}

impl Default for SchemaTypes {
    /// The empty flag set: no tokens, every flag off.
    fn default() -> (r: Self)
        ensures
            r@ == spec_flags_of(Seq::<SchemaType>::empty()),
    {
        let r = SchemaTypes {
            types: Vec::new(),
            is_null: false,
            is_array: false,
            is_object: false,
            is_string: false,
            is_integer: false,
            is_boolean: false,
        };
        proof {
            assert(!Seq::<SchemaType>::empty().contains(SchemaType::Null));
            assert(!Seq::<SchemaType>::empty().contains(SchemaType::Array));
            assert(!Seq::<SchemaType>::empty().contains(SchemaType::Object));
            assert(!Seq::<SchemaType>::empty().contains(SchemaType::String));
            assert(!Seq::<SchemaType>::empty().contains(SchemaType::Integer));
            assert(!Seq::<SchemaType>::empty().contains(SchemaType::Boolean));
            assert(r@ =~= spec_flags_of(Seq::<SchemaType>::empty()));
        }
        r
    }
}

} // verus!
