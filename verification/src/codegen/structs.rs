//! The generated type surface: named records and tagged unions, their
//! fields, and the names and descriptions they carry.

use vstd::prelude::*;
use std::sync::Arc;
use crate::codegen::text::{
    pascal_of, spec_description_of, spec_pascal, strip_tags, trim,
};

verus! {

broadcast use vstd::std_specs::vec::group_vec_axioms, vstd::seq::group_seq_axioms;

/// Marker for everything a field may refer to: a record or a tagged union.
pub trait Referable {

}

/// A sanitized description: HTML tags stripped and the ends trimmed.
#[derive(Debug)]
pub struct Description(pub String);

/// A PascalCase declaration name.
#[derive(Debug)]
pub struct StructName(pub String);

/// One field of a record.
#[derive(Debug)]
pub struct StructField {
    pub name: String,
    pub description: Option<Description>,
    pub type_expr: String,
    pub reference: Option<Arc<Declaration>>,
}

/// A record declaration.
#[derive(Debug)]
pub struct Struct {
    pub name: StructName,
    pub description: Option<Description>,
    pub fields: Vec<StructField>,
}

/// One variant of a tagged union.
#[derive(Debug)]
pub struct EnumField {
    pub name: String,
    pub type_expr: Option<String>,
    pub description: Option<Description>,
    pub reference: Option<Arc<Declaration>>,
}

/// A tagged-union declaration.
#[derive(Debug)]
pub struct Enum {
    pub name: StructName,
    pub description: Option<Description>,
    pub fields: Vec<EnumField>,
}

/// A named declaration: the closed alternative a reference can point at.
#[derive(Debug)]
pub enum Declaration {
    Struct(Struct),
    Enum(Enum),
}

impl Referable for Struct {

}

impl Referable for Enum {

}

/// Ghost mirror of a record field.
#[verifier::ext_equal]
pub ghost struct StructFieldV {
    pub name: Seq<char>,
    pub description: Option<Seq<char>>,
    pub type_expr: Seq<char>,
    pub reference: Option<DeclarationV>,
}

/// Ghost mirror of a record.
#[verifier::ext_equal]
pub ghost struct StructV {
    pub name: Seq<char>,
    pub description: Option<Seq<char>>,
    pub fields: Seq<StructFieldV>,
}

/// Ghost mirror of a variant.
#[verifier::ext_equal]
pub ghost struct EnumFieldV {
    pub name: Seq<char>,
    pub type_expr: Option<Seq<char>>,
    pub description: Option<Seq<char>>,
    pub reference: Option<DeclarationV>,
}

/// Ghost mirror of a tagged union.
#[verifier::ext_equal]
pub ghost struct EnumV {
    pub name: Seq<char>,
    pub description: Option<Seq<char>>,
    pub fields: Seq<EnumFieldV>,
}

/// Ghost mirror of a declaration.
#[verifier::ext_equal]
pub ghost enum DeclarationV {
    Struct(StructV),
    Enum(EnumV),
}

pub open spec fn opt_desc_view(d: Option<Description>) -> Option<Seq<char>> {
    match d {
        Some(d) => Some(d.0@),
        None => None,
    }
}

/// The name a declaration carries.
pub open spec fn spec_decl_name(d: DeclarationV) -> Seq<char> {
    match d {
        DeclarationV::Struct(s) => s.name,
        DeclarationV::Enum(e) => e.name,
    }
}

pub open spec fn decl_view(d: Declaration) -> DeclarationV
    decreases d,
{
    match d {
        Declaration::Struct(s) => DeclarationV::Struct(struct_view(s)),
        Declaration::Enum(e) => DeclarationV::Enum(enum_view(e)),
    }
}

pub open spec fn opt_ref_view(r: Option<Arc<Declaration>>) -> Option<DeclarationV>
    decreases r,
{
    match r {
        Some(a) => Some(decl_view(*a)),
        None => None,
    }
}

pub open spec fn struct_field_view(f: StructField) -> StructFieldV
    decreases f,
{
    StructFieldV {
        name: f.name@,
        description: opt_desc_view(f.description),
        type_expr: f.type_expr@,
        reference: opt_ref_view(f.reference),
    }
}

pub open spec fn fields_view(v: Seq<StructField>) -> Seq<StructFieldV>
    decreases v,
{
    Seq::new(
        v.len(),
        |i: int|
            if 0 <= i < v.len() {
                struct_field_view(v[i])
            } else {
                arbitrary()
            },
    )
}

pub open spec fn struct_view(s: Struct) -> StructV
    decreases s,
{
    StructV {
        name: s.name.0@,
        description: opt_desc_view(s.description),
        fields: fields_view(s.fields@),
    }
}

pub open spec fn enum_field_view(f: EnumField) -> EnumFieldV
    decreases f,
{
    EnumFieldV {
        name: f.name@,
        type_expr: match f.type_expr {
            Some(t) => Some(t@),
            None => None,
        },
        description: opt_desc_view(f.description),
        reference: opt_ref_view(f.reference),
    }
}

pub open spec fn enum_fields_view(v: Seq<EnumField>) -> Seq<EnumFieldV>
    decreases v,
{
    Seq::new(
        v.len(),
        |i: int|
            if 0 <= i < v.len() {
                enum_field_view(v[i])
            } else {
                arbitrary()
            },
    )
}

pub open spec fn enum_view(e: Enum) -> EnumV
    decreases e,
{
    EnumV {
        name: e.name.0@,
        description: opt_desc_view(e.description),
        fields: enum_fields_view(e.fields@),
    }
}

impl View for Struct {
    type V = StructV;

    open spec fn view(&self) -> StructV {
        struct_view(*self)
    }
}

impl View for Enum {
    type V = EnumV;

    open spec fn view(&self) -> EnumV {
        enum_view(*self)
    }
}

impl View for Declaration {
    type V = DeclarationV;

    open spec fn view(&self) -> DeclarationV {
        decl_view(*self)
    }
}

impl Description {
    /// Sanitizes a free-form description: deletes HTML tags, trims the ends.
    pub fn from(description: &String) -> (r: Self)
        ensures
            r.0@ == spec_description_of(description@),
    {
        let stripped = strip_tags(description.as_str());
        Description(trim(stripped.as_str()))
    }

    pub fn to_string(&self) -> (r: String)
        ensures
            r@ == self.0@,
    {
        self.0.clone()
    }
}

impl StructName {
    /// The PascalCase form of a source name.
    pub fn from(name: &String) -> (r: Self)
        ensures
            r.0@ == spec_pascal(name@),
    {
        StructName(pascal_of(name.as_str()))
    }

    pub fn to_string(&self) -> (r: String)
        ensures
            r@ == self.0@,
    {
        self.0.clone()
    }
}

impl Struct {
    pub fn new_with_description(name: String, description: String) -> (r: Self)
        ensures
            r.name.0@ == spec_pascal(name@),
            opt_desc_view(r.description) == Some(spec_description_of(description@)),
            r.fields@.len() == 0,
    {
        Struct {
            name: StructName::from(&name),
            description: Some(Description::from(&description)),
            fields: Vec::new(),
        }
    }

    pub fn new(name: String) -> (r: Self)
        ensures
            r.name.0@ == spec_pascal(name@),
            r.description is None,
            r.fields@.len() == 0,
    {
        Struct { name: StructName::from(&name), description: None, fields: Vec::new() }
    }

    pub fn add_field(&mut self, field: StructField)
        ensures
            final(self).fields@ == old(self).fields@.push(field),
            final(self).name == old(self).name,
            final(self).description == old(self).description,
    {
        self.fields.push(field);
    }

    pub fn set_description(&mut self, description: String)
        ensures
            opt_desc_view(final(self).description) == Some(spec_description_of(description@)),
            final(self).name == old(self).name,
            final(self).fields == old(self).fields,
    {
        self.description = Some(Description::from(&description));
    }
}

impl StructField {
    pub fn new_with_description(name: String, type_expr: String, description: String) -> (r: Self)
        ensures
            r.name == name,
            opt_desc_view(r.description) == Some(spec_description_of(description@)),
            r.type_expr == type_expr,
            r.reference is None,
    {
        StructField {
            name,
            description: Some(Description::from(&description)),
            type_expr,
            reference: None,
        }
    }

    pub fn new(name: String, type_expr: String) -> (r: Self)
        ensures
            r.name == name,
            r.description is None,
            r.type_expr == type_expr,
            r.reference is None,
    {
        StructField { name, description: None, type_expr, reference: None }
    }

    pub fn set_description(&mut self, description: String)
        ensures
            opt_desc_view(final(self).description) == Some(spec_description_of(description@)),
            final(self).name == old(self).name,
            final(self).type_expr == old(self).type_expr,
            final(self).reference == old(self).reference,
    {
        self.description = Some(Description::from(&description));
    }

    /// Links the field to the declaration it introduced.
    pub fn reference(&mut self, reference: Declaration)
        ensures
            opt_ref_view(final(self).reference) == Some(decl_view(reference)),
            final(self).name == old(self).name,
            final(self).type_expr == old(self).type_expr,
            final(self).description == old(self).description,
    {
        self.reference = Some(Arc::new(reference));
    }
}

impl Enum {
    pub fn new(name: String) -> (r: Self)
        ensures
            r.name.0@ == spec_pascal(name@),
            r.description is None,
            r.fields@.len() == 0,
    {
        Enum { name: StructName::from(&name), fields: Vec::new(), description: None }
    }

    pub fn add_field(&mut self, field: EnumField)
        ensures
            final(self).fields@ == old(self).fields@.push(field),
            final(self).name == old(self).name,
            final(self).description == old(self).description,
    {
        self.fields.push(field);
    }

    pub fn set_description(&mut self, description: String)
        ensures
            opt_desc_view(final(self).description) == Some(spec_description_of(description@)),
            final(self).name == old(self).name,
            final(self).fields == old(self).fields,
    {
        self.description = Some(Description::from(&description));
    }
}

impl EnumField {
    pub fn new(name: String) -> (r: Self)
        ensures
            r.name == name,
            r.type_expr is None,
            r.reference is None,
            r.description is None,
    {
        EnumField { name, type_expr: None, reference: None, description: None }
    }

    /// Links the variant to the declaration it introduced.
    pub fn reference(&mut self, reference: Declaration)
        ensures
            opt_ref_view(final(self).reference) == Some(decl_view(reference)),
            final(self).name == old(self).name,
            final(self).type_expr == old(self).type_expr,
            final(self).description == old(self).description,
    {
        self.reference = Some(Arc::new(reference));
    }

    pub fn set_description(&mut self, description: String)
        ensures
            opt_desc_view(final(self).description) == Some(spec_description_of(description@)),
            final(self).name == old(self).name,
            final(self).type_expr == old(self).type_expr,
            final(self).reference == old(self).reference,
    {
        self.description = Some(Description::from(&description));
    }

    pub fn set_type_expr(&mut self, type_expr: String)
        ensures
            final(self).type_expr == Some(type_expr),
            final(self).name == old(self).name,
            final(self).description == old(self).description,
            final(self).reference == old(self).reference,
    {
        self.type_expr = Some(type_expr);
    }
}

impl Clone for Description {
    fn clone(&self) -> (r: Self)
        ensures
            r.0 == self.0,
    {
        Description(self.0.clone())
    }
}

impl Clone for StructName {
    fn clone(&self) -> (r: Self)
        ensures
            r.0 == self.0,
    {
        StructName(self.0.clone())
    }
}

pub fn clone_opt_description(d: &Option<Description>) -> (r: Option<Description>)
    ensures
        r == *d,
{
    match d {
        Some(d) => Some(d.clone()),
        None => None,
    }
}

pub fn clone_opt_string(s: &Option<String>) -> (r: Option<String>)
    ensures
        r == *s,
{
    match s {
        Some(s) => Some(s.clone()),
        None => None,
    }
}

pub fn clone_opt_reference(r0: &Option<Arc<Declaration>>) -> (r: Option<Arc<Declaration>>)
    ensures
        r == *r0,
{
    match r0 {
        Some(a) => Some(a.clone()),
        None => None,
    }
}

/// Duplicates a record; the links its fields carry stay shared.
pub fn clone_struct(s: &Struct) -> (r: Struct)
    ensures
        r.name == s.name,
        r.description == s.description,
        r.fields@ == s.fields@,
        r@ == s@,
{
    let mut fields: Vec<StructField> = Vec::new();
    let mut i: usize = 0;
    while i < s.fields.len()
        invariant
            i <= s.fields@.len(),
            fields@ == s.fields@.take(i as int),
        decreases s.fields@.len() - i,
    {
        let f = &s.fields[i];
        let copy = StructField {
            name: f.name.clone(),
            description: clone_opt_description(&f.description),
            type_expr: f.type_expr.clone(),
            reference: clone_opt_reference(&f.reference),
        };
        proof {
            assert(copy == s.fields@[i as int]);
            assert(s.fields@.take(i as int).push(s.fields@[i as int]) =~= s.fields@.take(
                i as int + 1,
            ));
        }
        fields.push(copy);
        i = i + 1;
    }
    proof {
        assert(s.fields@.take(s.fields@.len() as int) =~= s.fields@);
    }
    let r = Struct {
        name: s.name.clone(),
        description: clone_opt_description(&s.description),
        fields,
    };
    proof {
        assert(struct_view(r) =~= struct_view(*s));
    }
    r
}

/// Duplicates a tagged union; the links its variants carry stay shared.
pub fn clone_enum(e: &Enum) -> (r: Enum)
    ensures
        r.name == e.name,
        r.description == e.description,
        r.fields@ == e.fields@,
        r@ == e@,
{
    let mut fields: Vec<EnumField> = Vec::new();
    let mut i: usize = 0;
    while i < e.fields.len()
        invariant
            i <= e.fields@.len(),
            fields@ == e.fields@.take(i as int),
        decreases e.fields@.len() - i,
    {
        let f = &e.fields[i];
        let copy = EnumField {
            name: f.name.clone(),
            type_expr: clone_opt_string(&f.type_expr),
            description: clone_opt_description(&f.description),
            reference: clone_opt_reference(&f.reference),
        };
        proof {
            assert(copy == e.fields@[i as int]);
            assert(e.fields@.take(i as int).push(e.fields@[i as int]) =~= e.fields@.take(
                i as int + 1,
            ));
        }
        fields.push(copy);
        i = i + 1;
    }
    proof {
        assert(e.fields@.take(e.fields@.len() as int) =~= e.fields@);
    }
    let r = Enum { name: e.name.clone(), description: clone_opt_description(&e.description), fields };
    proof {
        assert(enum_view(r) =~= enum_view(*e));
    }
    r
}

} // verus!
