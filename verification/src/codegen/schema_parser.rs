//! The schema lowerer: recursively walks a schema node and emits one lowered
//! type, naming anonymous nested declarations with a prefix stack.

use vstd::prelude::*;
use std::sync::Arc;
use crate::error::GithubError;
use crate::codegen::schema_types::{
    spec_def_valid, spec_flags_of, spec_object_type, spec_plain_type, spec_types_of_def,
    SchemaTypes,
};
use crate::codegen::structs::{
    clone_enum, clone_struct, decl_view, enum_field_view, enum_view, opt_desc_view,
    opt_ref_view, struct_field_view, struct_view, Declaration, DeclarationV, Enum, EnumField,
    EnumFieldV, EnumV, Struct, StructField, StructFieldV, StructName, StructV,
};
use crate::codegen::text::{spec_description_of, spec_pascal};
use crate::schema::schema::{Schema, SchemaType, SchemaTypeDefination, SchemaV, TypeDefV};

verus! {

broadcast use vstd::std_specs::vec::group_vec_axioms, vstd::seq::group_seq_axioms;

/// What lowering one node produces: a fresh record, a fresh tagged union, or
/// a type expression, possibly linked to the declaration it refers to.
#[derive(Debug)]
pub enum ParsedStruct {
    Struct(Struct),
    Enum(Enum),
    Type { type_expr: String, reference: Option<Arc<Declaration>> },
}

/// Ghost mirror of a lowering result.
#[verifier::ext_equal]
pub ghost enum ParsedStructV {
    Struct(StructV),
    Enum(EnumV),
    Type { type_expr: Seq<char>, reference: Option<DeclarationV> },
}

pub open spec fn parsed_view(p: ParsedStruct) -> ParsedStructV {
    match p {
        ParsedStruct::Struct(s) => ParsedStructV::Struct(struct_view(s)),
        ParsedStruct::Enum(e) => ParsedStructV::Enum(enum_view(e)),
        ParsedStruct::Type { type_expr, reference } => ParsedStructV::Type {
            type_expr: type_expr@,
            reference: opt_ref_view(reference),
        },
    }
}

impl View for ParsedStruct {
    type V = ParsedStructV;

    open spec fn view(&self) -> ParsedStructV {
        parsed_view(*self)
    }
}

/// The character sequences of a stack of prefixes.
pub open spec fn stack_view(v: Seq<String>) -> Seq<Seq<char>> {
    v.map_values(|s: String| s@)
}

/// The concatenation of every prefix on the stack, oldest first.
pub open spec fn spec_concat_all(ps: Seq<Seq<char>>) -> Seq<char>
    decreases ps.len(),
{
    if ps.len() == 0 {
        Seq::empty()
    } else {
        ps[0] + spec_concat_all(ps.skip(1))
    }
}

/// Sanitation applied to an optional raw description.
pub open spec fn spec_opt_desc(d: Option<Seq<char>>) -> Option<Seq<char>> {
    match d {
        Some(x) => Some(spec_description_of(x)),
        None => None,
    }
}

/// The variants an `enum` list produces: `"null"` entries and JSON nulls
/// are skipped, every other entry keeps its label and gains a PascalCase
/// internal name.
pub open spec fn spec_enum_fields(vals: Seq<Option<Seq<char>>>) -> Seq<EnumFieldV>
    decreases vals.len(),
{
    if vals.len() == 0 {
        Seq::empty()
    } else {
        let rest = spec_enum_fields(vals.skip(1));
        match vals[0] {
            Some(v) => if v == "null"@ {
                rest
            } else {
                seq![
                    EnumFieldV {
                        name: v,
                        type_expr: Some(spec_pascal(v)),
                        description: None,
                        reference: None,
                    },
                ] + rest
            },
            None => rest,
        }
    }
}

/// Whether an `enum` list carries `"null"` or a JSON null.
pub open spec fn spec_enum_optional(vals: Seq<Option<Seq<char>>>) -> bool
    decreases vals.len(),
{
    if vals.len() == 0 {
        false
    } else {
        match vals[0] {
            Some(v) => v == "null"@ || spec_enum_optional(vals.skip(1)),
            None => true,
        }
    }
}

/// Lowering of an `enum` node: a sum named by the prefix stack; a null
/// entry makes the result `Optional` and never becomes a variant.
pub open spec fn spec_parse_enum(
    prefixs: Seq<Seq<char>>,
    vals: Seq<Option<Seq<char>>>,
    description: Option<Seq<char>>,
) -> ParsedStructV {
    let name = spec_pascal(spec_concat_all(prefixs));
    let e = EnumV { name, description: spec_opt_desc(description), fields: spec_enum_fields(vals) };
    if spec_enum_optional(vals) {
        ParsedStructV::Type {
            type_expr: "Option<"@ + name + ">"@,
            reference: Some(DeclarationV::Enum(e)),
        }
    } else {
        ParsedStructV::Enum(e)
    }
}

/// The flag set of an optional `type` field; `None` marks an unknown token.
pub open spec fn spec_node_flags(
    type_: Option<TypeDefV>,
) -> Option<crate::codegen::schema_types::SchemaTypesV> {
    match type_ {
        Some(d) => if spec_def_valid(d) {
            Some(spec_flags_of(spec_types_of_def(d)))
        } else {
            None
        },
        None => Some(spec_flags_of(Seq::<SchemaType>::empty())),
    }
}

/// Whether a type expression is already wrapped in `Option`.
pub open spec fn spec_starts_with_option(s: Seq<char>) -> bool {
    s.len() >= 7 && s[0] == 'O' && s[1] == 'p' && s[2] == 't' && s[3] == 'i' && s[4] == 'o'
        && s[5] == 'n' && s[6] == '<'
}

/// The character sequences of an optional `required` list.
pub open spec fn opt_req_view(r: Option<Vec<String>>) -> Option<Seq<Seq<char>>> {
    match r {
        Some(v) => Some(stack_view(v@)),
        None => None,
    }
}

/// The required policy on one field: a field absent from `required` is
/// wrapped in `Option`, but never twice.
pub open spec fn spec_wrap_optional(f: StructFieldV, req: Seq<Seq<char>>) -> StructFieldV {
    if !req.contains(f.name) && !spec_starts_with_option(f.type_expr) {
        StructFieldV { type_expr: "Option<"@ + f.type_expr + ">"@, ..f }
    } else {
        f
    }
}

/// The effective `required` list of a node: an absent list keeps no field
/// required.
pub open spec fn spec_req_list(required: Option<Seq<Seq<char>>>) -> Seq<Seq<char>> {
    match required {
        Some(req) => req,
        None => Seq::empty(),
    }
}

/// The required policy over a record's fields: every field whose source key
/// is absent from the (possibly absent, hence empty) `required` list is
/// wrapped in `Optional`.
pub open spec fn spec_apply_required(
    fields: Seq<StructFieldV>,
    required: Option<Seq<Seq<char>>>,
) -> Seq<StructFieldV> {
    fields.map_values(|f: StructFieldV| spec_wrap_optional(f, spec_req_list(required)))
}

/// Lowering of one node of the schema tree. `None` is the hard failure: an
/// unknown type token or a flag combination outside the tables.
pub open spec fn spec_parse_schema(prefixs: Seq<Seq<char>>, s: SchemaV) -> Option<ParsedStructV>
    decreases s, 0int,
{
    if s.enum_ is Some {
        Some(spec_parse_enum(prefixs, s.enum_->0, s.description))
    } else if s.one_of is Some {
        spec_parse_one_of_like(prefixs, s.one_of->0)
    } else if s.all_of is Some {
        spec_parse_one_of_like(prefixs, s.all_of->0)
    } else if s.any_of is Some {
        spec_parse_one_of_like(prefixs, s.any_of->0)
    } else if s.items is Some {
        spec_parse_items(prefixs, *s.items->0, s.type_)
    } else if s.properties is Some {
        spec_parse_properties(prefixs, s.title, s.properties->0, s.required, s.description)
    } else {
        match spec_node_flags(s.type_) {
            Some(flags) => match spec_plain_type(flags) {
                Some(t) => Some(ParsedStructV::Type { type_expr: t, reference: None }),
                None => None,
            },
            None => None,
        }
    }
}

/// Entry point of the lowerer: pushes the PascalCase prefix, lowers the
/// node, pops.
pub open spec fn spec_parse(
    prefixs: Seq<Seq<char>>,
    prefix_name: Seq<char>,
    s: SchemaV,
) -> Option<ParsedStructV>
    decreases s, 1int,
{
    spec_parse_schema(prefixs.push(spec_pascal(prefix_name)), s)
}

/// Lowering of an `items` node: the inner type composed through the outer
/// flag set.
pub open spec fn spec_parse_items(
    prefixs: Seq<Seq<char>>,
    items: SchemaV,
    type_: Option<TypeDefV>,
) -> Option<ParsedStructV>
    decreases items, 1int,
{
    match spec_node_flags(type_) {
        None => None,
        Some(flags) => match spec_parse_schema(prefixs, items) {
            None => None,
            Some(inner) => {
                let nm = match inner {
                    ParsedStructV::Struct(sv) => sv.name,
                    ParsedStructV::Enum(ev) => ev.name,
                    ParsedStructV::Type { type_expr, .. } => type_expr,
                };
                let refr = match inner {
                    ParsedStructV::Struct(sv) => Some(DeclarationV::Struct(sv)),
                    ParsedStructV::Enum(ev) => Some(DeclarationV::Enum(ev)),
                    ParsedStructV::Type { reference, .. } => reference,
                };
                match spec_object_type(flags, nm) {
                    None => None,
                    Some(full) => Some(
                        ParsedStructV::Type { type_expr: full, reference: refr },
                    ),
                }
            },
        },
    }
}

/// The fields a `properties` map produces, in input order; each child is
/// lowered under the prefix of its property key; the field carries the key
/// verbatim.
pub open spec fn spec_prop_fields(
    prefixs: Seq<Seq<char>>,
    props: Seq<(Seq<char>, SchemaV)>,
) -> Option<Seq<StructFieldV>>
    decreases props, 1int,
{
    if props.len() == 0 {
        Some(Seq::empty())
    } else {
        let key = props[0].0;
        let child = props[0].1;
        match spec_parse(prefixs, key, child) {
            None => None,
            Some(p) => {
                let f = match p {
                    ParsedStructV::Struct(sv) => StructFieldV {
                        name: key,
                        description: spec_opt_desc(child.description),
                        type_expr: sv.name,
                        reference: Some(DeclarationV::Struct(sv)),
                    },
                    ParsedStructV::Enum(ev) => StructFieldV {
                        name: key,
                        description: spec_opt_desc(child.description),
                        type_expr: ev.name,
                        reference: Some(DeclarationV::Enum(ev)),
                    },
                    ParsedStructV::Type { type_expr, reference } => StructFieldV {
                        name: key,
                        description: spec_opt_desc(child.description),
                        type_expr,
                        reference,
                    },
                };
                match spec_prop_fields(prefixs, props.skip(1)) {
                    None => None,
                    Some(rest) => Some(seq![f] + rest),
                }
            },
        }
    }
}

/// Lowering of a `properties` node: a record named by the title or the
/// prefix stack, its fields in input order, the required policy applied.
pub open spec fn spec_parse_properties(
    prefixs: Seq<Seq<char>>,
    title: Option<Seq<char>>,
    props: Seq<(Seq<char>, SchemaV)>,
    required: Option<Seq<Seq<char>>>,
    description: Option<Seq<char>>,
) -> Option<ParsedStructV>
    decreases props, 2int,
{
    let name0 = match title {
        Some(t) => t,
        None => spec_concat_all(prefixs),
    };
    match spec_prop_fields(prefixs, props) {
        None => None,
        Some(fields) => Some(
            ParsedStructV::Struct(
                StructV {
                    name: spec_pascal(name0),
                    description: spec_opt_desc(description),
                    fields: spec_apply_required(fields, required),
                },
            ),
        ),
    }
}

/// The token lists of a union's alternatives, concatenated in order.
pub open spec fn spec_merged_types(schemas: Seq<SchemaV>) -> Option<Seq<SchemaType>>
    decreases schemas.len(),
{
    if schemas.len() == 0 {
        Some(Seq::empty())
    } else {
        match spec_merged_types(schemas.skip(1)) {
            None => None,
            Some(rest) => match schemas[0].type_ {
                Some(d) => if spec_def_valid(d) {
                    Some(spec_types_of_def(d) + rest)
                } else {
                    None
                },
                None => Some(rest),
            },
        }
    }
}

/// The lowering of each alternative of a union, in order.
pub open spec fn spec_parsed_list(
    prefixs: Seq<Seq<char>>,
    schemas: Seq<SchemaV>,
) -> Option<Seq<ParsedStructV>>
    decreases schemas, 1int,
{
    if schemas.len() == 0 {
        Some(Seq::empty())
    } else {
        match spec_parse_schema(prefixs, schemas[0]) {
            None => None,
            Some(p) => match spec_parsed_list(prefixs, schemas.skip(1)) {
                None => None,
                Some(rest) => Some(seq![p] + rest),
            },
        }
    }
}

pub open spec fn spec_is_named(p: ParsedStructV) -> bool {
    p is Struct || p is Enum
}

/// How many alternatives lowered to a fresh named declaration.
pub open spec fn spec_named_count(ps: Seq<ParsedStructV>) -> nat
    decreases ps.len(),
{
    if ps.len() == 0 {
        0
    } else {
        (if spec_is_named(ps[0]) {
            1nat
        } else {
            0nat
        }) + spec_named_count(ps.skip(1))
    }
}

/// The first alternative that lowered to a named declaration.
pub open spec fn spec_first_named(ps: Seq<ParsedStructV>) -> ParsedStructV
    decreases ps.len(),
{
    if ps.len() == 0 {
        arbitrary()
    } else if spec_is_named(ps[0]) {
        ps[0]
    } else {
        spec_first_named(ps.skip(1))
    }
}

/// The variants a many-named union produces: named alternatives refer to
/// their declarations, primitive alternatives are labelled by their
/// expression, and a `Null` alternative is skipped.
pub open spec fn spec_union_fields(ps: Seq<ParsedStructV>) -> Seq<EnumFieldV>
    decreases ps.len(),
{
    if ps.len() == 0 {
        Seq::empty()
    } else {
        let rest = spec_union_fields(ps.skip(1));
        match ps[0] {
            ParsedStructV::Struct(sv) => seq![
                EnumFieldV {
                    name: sv.name,
                    type_expr: Some(sv.name),
                    description: spec_opt_desc(sv.description),
                    reference: Some(DeclarationV::Struct(sv)),
                },
            ] + rest,
            ParsedStructV::Enum(ev) => seq![
                EnumFieldV {
                    name: ev.name,
                    type_expr: Some(ev.name),
                    description: spec_opt_desc(ev.description),
                    reference: Some(DeclarationV::Enum(ev)),
                },
            ] + rest,
            ParsedStructV::Type { type_expr, reference } => if type_expr == "Null"@ {
                rest
            } else {
                seq![
                    EnumFieldV {
                        name: type_expr,
                        type_expr: Some(type_expr),
                        description: None,
                        reference,
                    },
                ] + rest
            },
        }
    }
}

/// Whether a union carries a `Null` alternative.
pub open spec fn spec_union_optional(ps: Seq<ParsedStructV>) -> bool
    decreases ps.len(),
{
    if ps.len() == 0 {
        false
    } else {
        (ps[0] matches ParsedStructV::Type { type_expr, .. } && type_expr == "Null"@)
            || spec_union_optional(ps.skip(1))
    }
}

/// Lowering of a `oneOf` / `allOf` / `anyOf` node, by the count of
/// alternatives that produced a named declaration.
pub open spec fn spec_parse_one_of_like(
    prefixs: Seq<Seq<char>>,
    schemas: Seq<SchemaV>,
) -> Option<ParsedStructV>
    decreases schemas, 2int,
{
    match spec_merged_types(schemas) {
        None => None,
        Some(ts) => {
            let flags = spec_flags_of(ts);
            match spec_parsed_list(prefixs, schemas) {
                None => None,
                Some(ps) => if spec_named_count(ps) == 0 {
                    match spec_plain_type(flags) {
                        None => None,
                        Some(t) => Some(ParsedStructV::Type { type_expr: t, reference: None }),
                    }
                } else if spec_named_count(ps) == 1 {
                    match spec_first_named(ps) {
                        ParsedStructV::Struct(sv) => match spec_object_type(flags, sv.name) {
                            None => None,
                            Some(full) => if full == sv.name {
                                Some(ParsedStructV::Struct(sv))
                            } else {
                                Some(
                                    ParsedStructV::Type {
                                        type_expr: full,
                                        reference: Some(DeclarationV::Struct(sv)),
                                    },
                                )
                            },
                        },
                        ParsedStructV::Enum(ev) => match spec_object_type(flags, ev.name) {
                            None => None,
                            Some(full) => if full == ev.name {
                                Some(ParsedStructV::Enum(ev))
                            } else {
                                Some(
                                    ParsedStructV::Type {
                                        type_expr: full,
                                        reference: Some(DeclarationV::Enum(ev)),
                                    },
                                )
                            },
                        },
                        ParsedStructV::Type { .. } => arbitrary(),
                    }
                } else {
                    let name = spec_pascal(spec_concat_all(prefixs));
                    let e = EnumV { name, description: None, fields: spec_union_fields(ps) };
                    if spec_union_optional(ps) {
                        match spec_object_type(flags, name) {
                            None => None,
                            Some(full) => Some(
                                ParsedStructV::Type {
                                    type_expr: full,
                                    reference: Some(DeclarationV::Enum(e)),
                                },
                            ),
                        }
                    } else {
                        Some(ParsedStructV::Enum(e))
                    }
                },
            }
        },
    }
}

/// The lowering results of a list, element by element.
pub open spec fn parsed_list_view(v: Seq<ParsedStruct>) -> Seq<ParsedStructV> {
    Seq::new(
        v.len(),
        |i: int|
            if 0 <= i < v.len() {
                parsed_view(v[i])
            } else {
                arbitrary()
            },
    )
}

/// The first named element is the one at the first named index.
proof fn lemma_first_named_at(ps: Seq<ParsedStructV>, j: int)
    requires
        0 <= j < ps.len(),
        spec_is_named(ps[j]),
        forall|k: int| 0 <= k < j ==> !spec_is_named(ps[k]),
    ensures
        spec_first_named(ps) == ps[j],
    decreases j,
{
    if j > 0 {
        assert(!spec_is_named(ps[0]));
        assert(forall|k: int| 0 <= k < j - 1 ==> !spec_is_named(ps.skip(1)[k]));
        lemma_first_named_at(ps.skip(1), j - 1);
        assert(ps.skip(1)[j - 1] == ps[j]);
    }
}

/// A list with no named element has a zero named count.
proof fn lemma_named_count_none(ps: Seq<ParsedStructV>)
    requires
        forall|k: int| 0 <= k < ps.len() ==> !spec_is_named(ps[k]),
    ensures
        spec_named_count(ps) == 0,
    decreases ps.len(),
{
    if ps.len() > 0 {
        assert(forall|k: int| 0 <= k < ps.skip(1).len() ==> !spec_is_named(ps.skip(1)[k]));
        lemma_named_count_none(ps.skip(1));
    }
}

/// The required policy, field by field: a field whose name is absent from
/// the effective `required` list comes out `Optional` at the top level; a
/// field whose type is already `Optional` is never wrapped a second time,
/// so a required field of nullable shape is still `Optional`; a required
/// field is left as lowered; and names are preserved.
pub proof fn lemma_required_policy(fields: Seq<StructFieldV>, required: Option<Seq<Seq<char>>>)
    ensures
        spec_apply_required(fields, required).len() == fields.len(),
        forall|i: int|
            0 <= i < fields.len() ==> {
                let f = #[trigger] spec_apply_required(fields, required)[i];
                let req = spec_req_list(required);
                &&& f.name == fields[i].name
                &&& (!req.contains(fields[i].name) ==> spec_starts_with_option(f.type_expr))
                &&& (spec_starts_with_option(fields[i].type_expr) ==> f == fields[i])
                &&& (req.contains(fields[i].name) ==> f == fields[i])
            },
{
    let req = spec_req_list(required);
    assert forall|i: int| 0 <= i < fields.len() implies {
        let f = #[trigger] spec_apply_required(fields, required)[i];
        &&& f.name == fields[i].name
        &&& (!req.contains(fields[i].name) ==> spec_starts_with_option(f.type_expr))
        &&& (spec_starts_with_option(fields[i].type_expr) ==> f == fields[i])
        &&& (req.contains(fields[i].name) ==> f == fields[i])
    } by {
        assert(spec_apply_required(fields, required)[i] == spec_wrap_optional(fields[i], req));
        let t = fields[i].type_expr;
        if !req.contains(fields[i].name) && !spec_starts_with_option(t) {
            reveal_strlit("Option<");
            let w = "Option<"@ + t + ">"@;
            assert(w.len() >= 7);
            assert(w[0] == 'O' && w[1] == 'p' && w[2] == 't' && w[3] == 'i' && w[4] == 'o'
                && w[5] == 'n' && w[6] == '<');
        }
    }
}

/// The required policy on a lowered record: every field whose source key is
/// absent from the `required` list (and every field, when the list is
/// absent) is an `Optional` at the top level.
pub proof fn lemma_record_required_policy(
    prefixs: Seq<Seq<char>>,
    title: Option<Seq<char>>,
    props: Seq<(Seq<char>, SchemaV)>,
    required: Option<Seq<Seq<char>>>,
    description: Option<Seq<char>>,
)
    requires
        spec_parse_properties(prefixs, title, props, required, description) is Some,
    ensures
        match spec_parse_properties(prefixs, title, props, required, description)->0 {
            ParsedStructV::Struct(st) => forall|i: int|
                0 <= i < st.fields.len() ==> (!spec_req_list(required).contains(
                    #[trigger] st.fields[i].name,
                ) ==> spec_starts_with_option(st.fields[i].type_expr)),
            _ => false,
        },
{
    let fields = spec_prop_fields(prefixs, props)->0;
    lemma_required_policy(fields, required);
}

/// Two sibling properties that both produce anonymous declarations receive
/// distinct names: the prefixes they are lowered under embed their distinct
/// PascalCase keys, and the stack's concatenation is prefix-injective.
pub proof fn lemma_sibling_names_distinct(
    prefixs: Seq<Seq<char>>,
    k1: Seq<char>,
    k2: Seq<char>,
)
    requires
        crate::codegen::text::seq_has_no_underscore(spec_concat_all(prefixs)),
        spec_pascal(k1) != spec_pascal(k2),
    ensures
        spec_pascal(spec_concat_all(prefixs.push(spec_pascal(k1)))) != spec_pascal(
            spec_concat_all(prefixs.push(spec_pascal(k2))),
        ),
{
    let c = spec_concat_all(prefixs);
    let p1 = spec_pascal(k1);
    let p2 = spec_pascal(k2);
    lemma_concat_all_push(prefixs, p1);
    lemma_concat_all_push(prefixs, p2);
    crate::codegen::text::lemma_pascal_no_underscores(k1);
    crate::codegen::text::lemma_pascal_no_underscores(k2);
    if c.len() == 0 {
        assert(c + p1 =~= p1);
        assert(c + p2 =~= p2);
        crate::codegen::text::lemma_pascal_idempotent(k1);
        crate::codegen::text::lemma_pascal_idempotent(k2);
    } else {
        assert(crate::codegen::text::seq_has_no_underscore(c + p1));
        assert(crate::codegen::text::seq_has_no_underscore(c + p2));
        crate::codegen::text::lemma_pascal_of_clean(c + p1);
        crate::codegen::text::lemma_pascal_of_clean(c + p2);
        assert((c + p1)[0] == c[0]);
        assert((c + p2)[0] == c[0]);
        if spec_pascal(c + p1) == spec_pascal(c + p2) {
            assert((c + p1).skip(1) =~= c.skip(1) + p1);
            assert((c + p2).skip(1) =~= c.skip(1) + p2);
            let pre = seq![crate::codegen::text::spec_to_upper(c[0])] + c.skip(1);
            assert(seq![crate::codegen::text::spec_to_upper(c[0])] + (c.skip(1) + p1) =~= pre
                + p1);
            assert(seq![crate::codegen::text::spec_to_upper(c[0])] + (c.skip(1) + p2) =~= pre
                + p2);
            lemma_concat_left_cancel(pre, p1, p2);
            assert(false);
        }
    }
}

/// Pushing a segment extends the concatenation on the right.
pub proof fn lemma_concat_all_push(ps: Seq<Seq<char>>, x: Seq<char>)
    ensures
        spec_concat_all(ps.push(x)) == spec_concat_all(ps) + x,
    decreases ps.len(),
{
    if ps.len() == 0 {
        assert(ps.push(x)[0] == x);
        assert(ps.push(x).skip(1) =~= Seq::<Seq<char>>::empty());
        assert(spec_concat_all(Seq::<Seq<char>>::empty()) =~= Seq::<char>::empty());
        assert(spec_concat_all(ps.push(x)) =~= x + Seq::<char>::empty());
        assert(x + Seq::<char>::empty() =~= Seq::<char>::empty() + x);
        assert(spec_concat_all(ps) + x =~= Seq::<char>::empty() + x);
    } else {
        assert(ps.push(x).skip(1) =~= ps.skip(1).push(x));
        lemma_concat_all_push(ps.skip(1), x);
        assert(ps.push(x)[0] == ps[0]);
        assert(ps[0] + (spec_concat_all(ps.skip(1)) + x) =~= (ps[0] + spec_concat_all(
            ps.skip(1),
        )) + x);
    }
}

proof fn lemma_concat_left_cancel(p: Seq<char>, a: Seq<char>, b: Seq<char>)
    requires
        p + a == p + b,
    ensures
        a == b,
{
    assert((p + a).len() == (p + b).len());
    assert(a =~= (p + a).skip(p.len() as int));
    assert(b =~= (p + b).skip(p.len() as int));
}

/// An `enum` list that carries `"null"` or a JSON null lowers to
/// `Optional<Sum>`: the result is a type expression wrapping the sum's
/// name, and no variant of the sum is a null variant.
pub proof fn lemma_enum_null_optional(
    prefixs: Seq<Seq<char>>,
    vals: Seq<Option<Seq<char>>>,
    description: Option<Seq<char>>,
)
    requires
        vals.contains(Some("null"@)) || vals.contains(None),
    ensures
        match spec_parse_enum(prefixs, vals, description) {
            ParsedStructV::Type { type_expr, reference } => {
                &&& type_expr == "Option<"@ + spec_pascal(spec_concat_all(prefixs)) + ">"@
                &&& match reference {
                    Some(DeclarationV::Enum(e)) => forall|i: int|
                        0 <= i < e.fields.len() ==> (#[trigger] e.fields[i].name) != "null"@,
                    _ => false,
                }
            },
            _ => false,
        },
{
    lemma_enum_contains_null_optional(vals);
    lemma_enum_fields_no_null(vals);
}

proof fn lemma_enum_contains_null_optional(vals: Seq<Option<Seq<char>>>)
    requires
        vals.contains(Some("null"@)) || vals.contains(None),
    ensures
        spec_enum_optional(vals),
    decreases vals.len(),
{
    if vals.contains(Some("null"@)) {
        let i = choose|i: int| 0 <= i < vals.len() && vals[i] == Some("null"@);
        if i == 0 {
        } else {
            assert(vals.skip(1)[i - 1] == Some("null"@));
            assert(vals.skip(1).contains(Some("null"@)));
            lemma_enum_contains_null_optional(vals.skip(1));
        }
    } else {
        let i = choose|i: int| 0 <= i < vals.len() && vals[i] == None::<Seq<char>>;
        if i == 0 {
        } else {
            assert(vals.skip(1)[i - 1] == None::<Seq<char>>);
            assert(vals.skip(1).contains(None));
            lemma_enum_contains_null_optional(vals.skip(1));
        }
    }
}

proof fn lemma_enum_fields_no_null(vals: Seq<Option<Seq<char>>>)
    ensures
        forall|i: int|
            0 <= i < spec_enum_fields(vals).len() ==> (#[trigger] spec_enum_fields(
                vals,
            )[i].name) != "null"@,
    decreases vals.len(),
{
    if vals.len() > 0 {
        lemma_enum_fields_no_null(vals.skip(1));
    }
}

/// The prefix stack of one lowering walk; push/pop balanced across every
/// call.
pub struct SchemaParser {
    prefixs: Vec<String>,
}

impl View for SchemaParser {
    type V = Seq<Seq<char>>;

    closed spec fn view(&self) -> Seq<Seq<char>> {
        stack_view(self.prefixs@)
    }
}

/// Whether `name` occurs in the list, compared by contents.
fn contains_string(v: &Vec<String>, name: &String) -> (r: bool)
    ensures
        r == stack_view(v@).contains(name@),
{
    let mut i: usize = 0;
    while i < v.len()
        invariant
            i <= v@.len(),
            forall|j: int| 0 <= j < i ==> v@[j]@ != name@,
        decreases v@.len() - i,
    {
        if v[i] == *name {
            proof {
                assert(stack_view(v@)[i as int] == name@);
            }
            return true;
        }
        i = i + 1;
    }
    proof {
        assert forall|j: int| 0 <= j < stack_view(v@).len() implies stack_view(v@)[j]
            != name@ by {
            assert(v@[j]@ != name@);
        }
    }
    false
}

/// Whether the expression is already wrapped in `Option`.
pub(crate) fn starts_with_option(s: &String) -> (r: bool)
    ensures
        r == spec_starts_with_option(s@),
{
    let st = s.as_str();
    let n = st.unicode_len();
    n >= 7 && st.get_char(0) == 'O' && st.get_char(1) == 'p' && st.get_char(2) == 't'
        && st.get_char(3) == 'i' && st.get_char(4) == 'o' && st.get_char(5) == 'n'
        && st.get_char(6) == '<'
}

impl SchemaParser {
    pub fn new() -> (r: Self)
        ensures
            r@ == Seq::<Seq<char>>::empty(),
    {
        let r = SchemaParser { prefixs: Vec::new() };
        proof {
            assert(r@ =~= Seq::<Seq<char>>::empty());
        }
        r
    }

    /// The concatenation of the whole stack, oldest prefix first.
    fn join_prefixes(&self) -> (r: String)
        ensures
            r@ == spec_concat_all(self@),
    {
        let mut out = String::new();
        let mut i: usize = 0;
        proof {
            assert(self@.skip(0) =~= self@);
            assert(Seq::<char>::empty() + spec_concat_all(self@) =~= spec_concat_all(self@));
        }
        while i < self.prefixs.len()
            invariant
                i <= self.prefixs@.len(),
                self@.len() == self.prefixs@.len(),
                out@ + spec_concat_all(self@.skip(i as int)) == spec_concat_all(self@),
            decreases self.prefixs@.len() - i,
        {
            proof {
                assert(self@.skip(i as int)[0] == self@[i as int]);
                assert(self@[i as int] == self.prefixs@[i as int]@);
                assert(self@.skip(i as int).skip(1) =~= self@.skip(i as int + 1));
                assert((out@ + self.prefixs@[i as int]@) + spec_concat_all(
                    self@.skip(i as int + 1),
                ) =~= out@ + (self.prefixs@[i as int]@ + spec_concat_all(
                    self@.skip(i as int + 1),
                )));
            }
            out.append(self.prefixs[i].as_str());
            i = i + 1;
        }
        proof {
            assert(self@.skip(self.prefixs@.len() as int) =~= Seq::<Seq<char>>::empty());
            assert(out@ + Seq::<char>::empty() =~= out@);
        }
        out
    }

    /// Lowers an `enum` node: one variant per value, `"null"` and JSON null
    /// turning the result `Optional` instead.
    fn parse_enum(&mut self, schema: &Schema) -> (r: ParsedStruct)
        requires
            schema@.enum_ is Some,
        ensures
            final(self)@ == old(self)@,
            r@ == spec_parse_enum(old(self)@, schema@.enum_->0, schema@.description),
    {
        let enum_name = self.join_prefixes();
        let mut enum_ = Enum::new(enum_name);
        let mut is_optional = false;

        if let Some(description) = &schema.description {
            enum_.set_description(description.clone());
        }

        let ghost vals = schema@.enum_->0;
        let enum_values = match &schema.enum_ {
            Some(v) => v,
            None => {
                proof {
                    assert(false);
                }
                return ParsedStruct::Enum(enum_);
            },
        };
        proof {
            assert(vals =~= enum_values@.map_values(
                |x: Option<String>| crate::schema::schema::opt_string_view(x),
            ));
        }

        let ghost target_fields = spec_enum_fields(vals);
        let ghost target_opt = spec_enum_optional(vals);
        let ghost old_name = enum_.name;
        let ghost old_desc = enum_.description;
        let mut i: usize = 0;
        proof {
            assert(vals.skip(0) =~= vals);
            assert(enum_view(enum_).fields =~= Seq::<EnumFieldV>::empty());
            assert(Seq::<EnumFieldV>::empty() + spec_enum_fields(vals) =~= spec_enum_fields(
                vals,
            ));
        }
        while i < enum_values.len()
            invariant
                i <= enum_values@.len(),
                vals.len() == enum_values@.len(),
                vals =~= enum_values@.map_values(
                    |x: Option<String>| crate::schema::schema::opt_string_view(x),
                ),
                enum_view(enum_).fields + spec_enum_fields(vals.skip(i as int)) == target_fields,
                target_opt == (is_optional || spec_enum_optional(vals.skip(i as int))),
                enum_.name == old_name,
                enum_.description == old_desc,
            decreases enum_values@.len() - i,
        {
            proof {
                assert(vals.skip(i as int)[0] == vals[i as int]);
                assert(vals.skip(i as int).skip(1) =~= vals.skip(i as int + 1));
            }
            match &enum_values[i] {
                Some(enum_value) => {
                    proof {
                        reveal_strlit("null");
                    }
                    if *enum_value == String::from_str("null") {
                        is_optional = true;
                    } else {
                        let mut enum_field = EnumField::new(enum_value.clone());
                        let internal = StructName::from(enum_value);
                        enum_field.set_type_expr(internal.to_string());
                        let ghost before = enum_view(enum_).fields;
                        let ghost gfield = enum_field;
                        enum_.add_field(enum_field);
                        proof {
                            assert(enum_view(enum_).fields =~= before.push(
                                enum_field_view(gfield),
                            ));
                            assert(enum_field_view(gfield) == EnumFieldV {
                                name: vals[i as int]->0,
                                type_expr: Some(spec_pascal(vals[i as int]->0)),
                                description: None,
                                reference: None,
                            });
                            assert(before.push(enum_field_view(gfield)) + spec_enum_fields(
                                vals.skip(i as int + 1),
                            ) =~= before + (seq![enum_field_view(gfield)] + spec_enum_fields(
                                vals.skip(i as int + 1),
                            )));
                        }
                    }
                },
                None => {
                    is_optional = true;
                },
            }
            i = i + 1;
        }
        proof {
            assert(vals.skip(vals.len() as int) =~= Seq::<Option<Seq<char>>>::empty());
            assert(enum_view(enum_).fields + Seq::<EnumFieldV>::empty() =~= enum_view(
                enum_,
            ).fields);
        }

        if is_optional {
            let name = enum_.name.to_string();
            let type_expr = String::from_str("Option<").concat(name.as_str()).concat(">");
            return ParsedStruct::Type {
                type_expr,
                reference: Some(Arc::new(Declaration::Enum(enum_))),
            };
        }

        ParsedStruct::Enum(enum_)
    }

    /// Lowers an `items` node: the element schema composed through the
    /// node's own flag set.
    fn parse_items(&mut self, items: &Schema, type_: &Option<SchemaTypeDefination>) -> (r:
        Result<ParsedStruct, GithubError>)
        ensures
            final(self)@ == old(self)@,
            match r {
                Ok(p) => spec_parse_items(
                    old(self)@,
                    items@,
                    crate::schema::schema::opt_type_def_view(*type_),
                ) == Some(p@),
                Err(_) => spec_parse_items(
                    old(self)@,
                    items@,
                    crate::schema::schema::opt_type_def_view(*type_),
                ) is None,
            },
        decreases *items, 1int,
    {
        let schema_types = match type_ {
            Some(t) => match SchemaTypes::try_from(t) {
                Ok(st) => st,
                Err(e) => {
                    return Err(e);
                },
            },
            None => SchemaTypes::default(),
        };
        let generated = match self.parse_schema(items) {
            Ok(g) => g,
            Err(e) => {
                return Err(e);
            },
        };
        let (type_expr, reference): (String, Option<Arc<Declaration>>) = match generated {
            ParsedStruct::Struct(struct_) => {
                let tn = struct_.name.to_string();
                (tn, Some(Arc::new(Declaration::Struct(struct_))))
            },
            ParsedStruct::Enum(enum_) => {
                let tn = enum_.name.to_string();
                (tn, Some(Arc::new(Declaration::Enum(enum_))))
            },
            ParsedStruct::Type { type_expr, reference } => (type_expr, reference),
        };
        match schema_types.try_to_full_type_with_object(&type_expr) {
            Ok(full) => Ok(ParsedStruct::Type { type_expr: full, reference }),
            Err(e) => Err(e),
        }
    }

    /// Lowers one schema node, dispatching on `enum`, the composition
    /// lists, `items`, `properties`, and last the bare `type` field.
    fn parse_schema(&mut self, schema: &Schema) -> (r: Result<ParsedStruct, GithubError>)
        ensures
            final(self)@ == old(self)@,
            match r {
                Ok(p) => spec_parse_schema(old(self)@, schema@) == Some(p@),
                Err(_) => spec_parse_schema(old(self)@, schema@) is None,
            },
        decreases *schema, 0int,
    {
        if schema.enum_.is_some() {
            return Ok(self.parse_enum(schema));
        }

        if let Some(one_of) = &schema.one_of {
            return self.parse_one_of_like(one_of);
        }

        if let Some(all_of) = &schema.all_of {
            return self.parse_one_of_like(all_of);
        }

        if let Some(any_of) = &schema.any_of {
            return self.parse_one_of_like(any_of);
        }

        if let Some(items) = &schema.items {
            return self.parse_items(&**items, &schema.type_);
        }

        if let Some(properties) = &schema.properties {
            return self.parse_properties(
                &schema.title,
                properties,
                &schema.required,
                &schema.description,
            );
        }

        let schema_types = match &schema.type_ {
            Some(types) => match SchemaTypes::try_from(types) {
                Ok(st) => st,
                Err(e) => {
                    return Err(e);
                },
            },
            None => SchemaTypes::default(),
        };

        match schema_types.try_to_full_type() {
            Ok(type_expr) => Ok(ParsedStruct::Type { type_expr, reference: None }),
            Err(e) => Err(e),
        }
    }

    /// Lowers a `properties` node: one record, a field per property in
    /// input order, the required policy applied, anonymous children named by
    /// the prefix stack.
    fn parse_properties(
        &mut self,
        title: &Option<String>,
        properties: &Vec<(String, Schema)>,
        required: &Option<Vec<String>>,
        description: &Option<String>,
    ) -> (r: Result<ParsedStruct, GithubError>)
        ensures
            final(self)@ == old(self)@,
            match r {
                Ok(p) => spec_parse_properties(
                    old(self)@,
                    crate::schema::schema::opt_string_view(*title),
                    crate::schema::schema::props_view(properties@),
                    opt_req_view(*required),
                    crate::schema::schema::opt_string_view(*description),
                ) == Some(p@),
                Err(_) => spec_parse_properties(
                    old(self)@,
                    crate::schema::schema::opt_string_view(*title),
                    crate::schema::schema::props_view(properties@),
                    opt_req_view(*required),
                    crate::schema::schema::opt_string_view(*description),
                ) is None,
            },
        decreases *properties, 2int,
    {
        let ghost pv = crate::schema::schema::props_view(properties@);
        let ghost stack0 = self@;
        let ghost pp = spec_prop_fields(stack0, pv);
        let ghost total = pp->0;

        let struct_name: String = match title {
            Some(t) => t.clone(),
            None => self.join_prefixes(),
        };

        let mut fields: Vec<StructField> = Vec::new();
        let mut i: usize = 0;
        proof {
            assert(pv.skip(0) =~= pv);
            assert(crate::codegen::structs::fields_view(fields@) =~= Seq::<
                StructFieldV,
            >::empty());
            if pp is Some {
                assert(Seq::<StructFieldV>::empty() + total =~= total);
            }
        }
        while i < properties.len()
            invariant
                i <= properties@.len(),
                pv.len() == properties@.len(),
                pv == crate::schema::schema::props_view(properties@),
                self@ == stack0,
                stack0 == old(self)@,
                pp == spec_prop_fields(stack0, pv),
                total == pp->0,
                (spec_prop_fields(stack0, pv.skip(i as int)) is Some) == (pp is Some),
                pp is Some ==> crate::codegen::structs::fields_view(fields@)
                    + spec_prop_fields(stack0, pv.skip(i as int))->0 == total,
            decreases properties@.len() - i,
        {
            proof {
                assert(pv.skip(i as int)[0] == pv[i as int]);
                assert(pv.skip(i as int).skip(1) =~= pv.skip(i as int + 1));
                assert(pv[i as int].0 == properties@[i as int].0@);
                assert(pv[i as int].1 == properties@[i as int].1@);
            }
            let key = &properties[i].0;
            let child = &properties[i].1;
            let name: String = key.clone();

            let parsed = match self.try_parse(&name, child) {
                Ok(p) => p,
                Err(e) => {
                    proof {
                        assert(spec_prop_fields(stack0, pv.skip(i as int)) is None);
                        assert(pp is None);
                    }
                    return Err(e);
                },
            };

            let mut struct_field: StructField = match parsed {
                ParsedStruct::Struct(generated) => {
                    let mut f = StructField::new(name.clone(), generated.name.to_string());
                    f.reference(Declaration::Struct(generated));
                    f
                },
                ParsedStruct::Enum(generated) => {
                    let mut f = StructField::new(name.clone(), generated.name.to_string());
                    f.reference(Declaration::Enum(generated));
                    f
                },
                ParsedStruct::Type { type_expr, reference } => {
                    let mut f = StructField::new(name.clone(), type_expr);
                    f.reference = reference;
                    f
                },
            };
            if let Some(d) = &child.description {
                struct_field.set_description(d.clone());
            }

            let ghost before = crate::codegen::structs::fields_view(fields@);
            let ghost gfield = struct_field;
            fields.push(struct_field);
            proof {
                assert(crate::codegen::structs::fields_view(fields@) =~= before.push(
                    struct_field_view(gfield),
                ));
                if pp is Some {
                    let f_spec = (spec_prop_fields(stack0, pv.skip(i as int))->0)[0];
                    assert(struct_field_view(gfield) == f_spec);
                    assert(before.push(f_spec) + spec_prop_fields(
                        stack0,
                        pv.skip(i as int + 1),
                    )->0 =~= before + (seq![f_spec] + spec_prop_fields(
                        stack0,
                        pv.skip(i as int + 1),
                    )->0));
                }
            }
            i = i + 1;
        }
        proof {
            assert(pv.skip(pv.len() as int) =~= Seq::<(Seq<char>, SchemaV)>::empty());
            assert(pp is Some);
            assert(crate::codegen::structs::fields_view(fields@) + Seq::<StructFieldV>::empty()
                =~= crate::codegen::structs::fields_view(fields@));
            assert(crate::codegen::structs::fields_view(fields@) == total);
        }

        let ghost reqv = opt_req_view(*required);
        let ghost wrapped = spec_apply_required(total, reqv);

        let mut struct_ = Struct::new(struct_name);
        if let Some(d) = description {
            struct_.set_description(d.clone());
        }
        let ghost s_name = struct_.name;
        let ghost s_desc = struct_.description;

        let mut j: usize = 0;
        proof {
            assert(crate::codegen::structs::fields_view(struct_.fields@) =~= wrapped.take(0));
        }
        while j < fields.len()
            invariant
                j <= fields@.len(),
                fields@.len() == total.len(),
                wrapped.len() == total.len(),
                wrapped == spec_apply_required(total, reqv),
                reqv == opt_req_view(*required),
                crate::codegen::structs::fields_view(fields@) == total,
                crate::codegen::structs::fields_view(struct_.fields@) == wrapped.take(j as int),
                struct_.name == s_name,
                struct_.description == s_desc,
            decreases fields@.len() - j,
        {
            let f = &fields[j];
            proof {
                assert(struct_field_view(fields@[j as int]) == total[j as int]);
            }
            let in_required = match required {
                Some(req) => contains_string(req, &f.name),
                None => false,
            };
            let type_expr: String = if !in_required && !starts_with_option(&f.type_expr) {
                String::from_str("Option<").concat(f.type_expr.as_str()).concat(">")
            } else {
                f.type_expr.clone()
            };
            let nf = StructField {
                name: f.name.clone(),
                description: crate::codegen::structs::clone_opt_description(&f.description),
                type_expr,
                reference: crate::codegen::structs::clone_opt_reference(&f.reference),
            };
            proof {
                assert(in_required == spec_req_list(reqv).contains(struct_field_view(
                    fields@[j as int],
                ).name));
                assert(wrapped[j as int] == spec_wrap_optional(
                    total[j as int],
                    spec_req_list(reqv),
                ));
                assert(struct_field_view(nf) == wrapped[j as int]);
            }
            let ghost before = crate::codegen::structs::fields_view(struct_.fields@);
            let ghost gnf = nf;
            struct_.add_field(nf);
            proof {
                assert(crate::codegen::structs::fields_view(struct_.fields@) =~= before.push(
                    struct_field_view(gnf),
                ));
                assert(wrapped.take(j as int).push(wrapped[j as int]) =~= wrapped.take(
                    j as int + 1,
                ));
            }
            j = j + 1;
        }
        proof {
            assert(wrapped.take(wrapped.len() as int) =~= wrapped);
            let expect = spec_parse_properties(
                stack0,
                crate::schema::schema::opt_string_view(*title),
                pv,
                reqv,
                crate::schema::schema::opt_string_view(*description),
            )->0;
            assert(struct_view(struct_) =~= expect->Struct_0);
        }

        Ok(ParsedStruct::Struct(struct_))
    }

    /// Lowers a `oneOf` / `allOf` / `anyOf` node: lowers each alternative,
    /// merges the shape flags, and dispatches on how many alternatives
    /// produced a named declaration.
    fn parse_one_of_like(&mut self, schemas: &Vec<Schema>) -> (r: Result<
        ParsedStruct,
        GithubError,
    >)
        ensures
            final(self)@ == old(self)@,
            match r {
                Ok(p) => spec_parse_one_of_like(
                    old(self)@,
                    crate::schema::schema::schema_list_view(schemas@),
                ) == Some(p@),
                Err(_) => spec_parse_one_of_like(
                    old(self)@,
                    crate::schema::schema::schema_list_view(schemas@),
                ) is None,
            },
        decreases *schemas, 2int,
    {
        let ghost sv = crate::schema::schema::schema_list_view(schemas@);
        let ghost stack0 = self@;
        let ghost sm = spec_merged_types(sv);
        let ghost sp = spec_parsed_list(stack0, sv);
        let ghost total_types = sm->0;
        let ghost total_parsed = sp->0;

        let mut parsed: Vec<ParsedStruct> = Vec::new();
        let mut schema_types = SchemaTypes::default();

        let mut i: usize = 0;
        proof {
            assert(sv.skip(0) =~= sv);
            assert(parsed_list_view(parsed@) =~= Seq::<ParsedStructV>::empty());
            if sp is Some {
                assert(Seq::<ParsedStructV>::empty() + total_parsed =~= total_parsed);
            }
            if sm is Some {
                assert(Seq::<SchemaType>::empty() + total_types =~= total_types);
            }
        }
        while i < schemas.len()
            invariant
                i <= schemas@.len(),
                sv.len() == schemas@.len(),
                sv == crate::schema::schema::schema_list_view(schemas@),
                self@ == stack0,
                stack0 == old(self)@,
                sm == spec_merged_types(sv),
                sp == spec_parsed_list(stack0, sv),
                total_types == sm->0,
                total_parsed == sp->0,
                (spec_merged_types(sv.skip(i as int)) is Some) == (sm is Some),
                (spec_parsed_list(stack0, sv.skip(i as int)) is Some) == (sp is Some),
                sm is Some ==> schema_types@.types + spec_merged_types(sv.skip(i as int))->0
                    == total_types,
                schema_types@ == spec_flags_of(schema_types@.types),
                sp is Some ==> parsed_list_view(parsed@) + spec_parsed_list(
                    stack0,
                    sv.skip(i as int),
                )->0 == total_parsed,
            decreases schemas@.len() - i,
        {
            proof {
                assert(sv.skip(i as int)[0] == sv[i as int]);
                assert(sv.skip(i as int).skip(1) =~= sv.skip(i as int + 1));
                assert(sv[i as int] == schemas@[i as int]@);
            }
            let schema = &schemas[i];
            if let Some(type_) = &schema.type_ {
                let other = match SchemaTypes::try_from(type_) {
                    Ok(o) => o,
                    Err(e) => {
                        proof {
                            assert(spec_merged_types(sv.skip(i as int)) is None);
                            assert(sm is None);
                        }
                        return Err(e);
                    },
                };
                let ghost before_types = schema_types@.types;
                schema_types.merge(&other);
                proof {
                    if sm is Some {
                        assert((before_types + spec_types_of_def(
                            crate::schema::schema::type_def_view(*type_),
                        )) + spec_merged_types(sv.skip(i as int + 1))->0 =~= before_types + (
                        spec_types_of_def(crate::schema::schema::type_def_view(*type_))
                            + spec_merged_types(sv.skip(i as int + 1))->0));
                    }
                }
            }

            let p = match self.parse_schema(schema) {
                Ok(p) => p,
                Err(e) => {
                    proof {
                        assert(spec_parsed_list(stack0, sv.skip(i as int)) is None);
                        assert(sp is None);
                    }
                    return Err(e);
                },
            };
            let ghost gp = p;
            let ghost before = parsed_list_view(parsed@);
            parsed.push(p);
            proof {
                assert(parsed_list_view(parsed@) =~= before.push(gp@));
                if sp is Some {
                    assert(before.push(gp@) + spec_parsed_list(
                        stack0,
                        sv.skip(i as int + 1),
                    )->0 =~= before + (seq![gp@] + spec_parsed_list(
                        stack0,
                        sv.skip(i as int + 1),
                    )->0));
                }
            }
            i = i + 1;
        }
        proof {
            assert(sv.skip(sv.len() as int) =~= Seq::<SchemaV>::empty());
            assert(sm is Some);
            assert(sp is Some);
            assert(parsed_list_view(parsed@) + Seq::<ParsedStructV>::empty() =~= parsed_list_view(
                parsed@,
            ));
            assert(schema_types@.types + Seq::<SchemaType>::empty() =~= schema_types@.types);
            assert(parsed_list_view(parsed@) == total_parsed);
            assert(schema_types@.types == total_types);
        }

        let mut struct_or_enum_count: usize = 0;
        let mut k: usize = 0;
        proof {
            assert(total_parsed.skip(0) =~= total_parsed);
        }
        while k < parsed.len()
            invariant
                k <= parsed@.len(),
                parsed_list_view(parsed@) == total_parsed,
                total_parsed.len() == parsed@.len(),
                struct_or_enum_count <= k,
                spec_named_count(total_parsed) == struct_or_enum_count + spec_named_count(
                    total_parsed.skip(k as int),
                ),
            decreases parsed@.len() - k,
        {
            proof {
                assert(total_parsed.skip(k as int)[0] == total_parsed[k as int]);
                assert(total_parsed.skip(k as int).skip(1) =~= total_parsed.skip(k as int + 1));
                assert(parsed_list_view(parsed@)[k as int] == parsed@[k as int]@);
            }
            match &parsed[k] {
                ParsedStruct::Struct(_) => {
                    struct_or_enum_count = struct_or_enum_count + 1;
                },
                ParsedStruct::Enum(_) => {
                    struct_or_enum_count = struct_or_enum_count + 1;
                },
                _ => {
                },
            }
            k = k + 1;
        }
        proof {
            assert(total_parsed.skip(total_parsed.len() as int) =~= Seq::<
                ParsedStructV,
            >::empty());
            assert(spec_named_count(total_parsed) == struct_or_enum_count as nat);
        }

        if struct_or_enum_count == 0 {
            match schema_types.try_to_full_type() {
                Ok(type_expr) => {
                    return Ok(ParsedStruct::Type { type_expr, reference: None });
                },
                Err(e) => {
                    return Err(e);
                },
            }
        }

        if struct_or_enum_count == 1 {
            let mut j: usize = 0;
            while j < parsed.len()
                invariant
                    j <= parsed@.len(),
                    parsed_list_view(parsed@) == total_parsed,
                    total_parsed.len() == parsed@.len(),
                    spec_named_count(total_parsed) == 1,
                    forall|m: int| 0 <= m < j ==> !spec_is_named(total_parsed[m]),
                    self@ == old(self)@,
                    sv == crate::schema::schema::schema_list_view(schemas@),
                    spec_merged_types(sv) == Some(total_types),
                    spec_parsed_list(old(self)@, sv) == Some(total_parsed),
                    schema_types@ == spec_flags_of(total_types),
                decreases parsed@.len() - j,
            {
                proof {
                    assert(parsed_list_view(parsed@)[j as int] == parsed@[j as int]@);
                }
                let is_named = match &parsed[j] {
                    ParsedStruct::Struct(_) => true,
                    ParsedStruct::Enum(_) => true,
                    _ => false,
                };
                if is_named {
                    proof {
                        lemma_first_named_at(total_parsed, j as int);
                        assert(schema_types@ == spec_flags_of(total_types));
                    }
                    let named = parsed.remove(j);
                    proof {
                        assert(named@ == total_parsed[j as int]);
                        assert(named@ == spec_first_named(total_parsed));
                    }
                    match named {
                        ParsedStruct::Struct(struct_) => {
                            let struct_name = struct_.name.to_string();
                            let full_type = match schema_types.try_to_full_type_with_object(
                                &struct_name,
                            ) {
                                Ok(t) => t,
                                Err(e) => {
                                    return Err(e);
                                },
                            };
                            if struct_name == full_type {
                                return Ok(ParsedStruct::Struct(struct_));
                            }
                            return Ok(
                                ParsedStruct::Type {
                                    type_expr: full_type,
                                    reference: Some(Arc::new(Declaration::Struct(struct_))),
                                },
                            );
                        },
                        ParsedStruct::Enum(enum_) => {
                            let enum_name = enum_.name.to_string();
                            let full_type = match schema_types.try_to_full_type_with_object(
                                &enum_name,
                            ) {
                                Ok(t) => t,
                                Err(e) => {
                                    return Err(e);
                                },
                            };
                            if enum_name == full_type {
                                return Ok(ParsedStruct::Enum(enum_));
                            }
                            return Ok(
                                ParsedStruct::Type {
                                    type_expr: full_type,
                                    reference: Some(Arc::new(Declaration::Enum(enum_))),
                                },
                            );
                        },
                        ParsedStruct::Type { .. } => {
                            proof {
                                assert(false);
                            }
                            return Err(GithubError::new(String::new()));
                        },
                    }
                }
                j = j + 1;
            }
            proof {
                lemma_named_count_none(total_parsed);
                assert(false);
            }
            return Err(GithubError::new(String::new()));
        }

        let struct_name = self.join_prefixes();
        let mut enum_ = Enum::new(struct_name);
        let ghost e_name = enum_.name;
        let ghost e_desc = enum_.description;
        let mut is_optional = false;

        let ghost u_fields = spec_union_fields(total_parsed);
        let ghost u_opt = spec_union_optional(total_parsed);

        let mut m: usize = 0;
        proof {
            assert(total_parsed.skip(0) =~= total_parsed);
            assert(enum_view(enum_).fields =~= Seq::<EnumFieldV>::empty());
            assert(Seq::<EnumFieldV>::empty() + u_fields =~= u_fields);
        }
        while m < parsed.len()
            invariant
                m <= parsed@.len(),
                parsed_list_view(parsed@) == total_parsed,
                total_parsed.len() == parsed@.len(),
                enum_view(enum_).fields + spec_union_fields(total_parsed.skip(m as int))
                    == u_fields,
                u_opt == (is_optional || spec_union_optional(total_parsed.skip(m as int))),
                enum_.name == e_name,
                enum_.description == e_desc,
            decreases parsed@.len() - m,
        {
            proof {
                assert(total_parsed.skip(m as int)[0] == total_parsed[m as int]);
                assert(total_parsed.skip(m as int).skip(1) =~= total_parsed.skip(m as int + 1));
                assert(parsed_list_view(parsed@)[m as int] == parsed@[m as int]@);
            }
            let ghost before = enum_view(enum_).fields;
            match &parsed[m] {
                ParsedStruct::Struct(struct_) => {
                    let owned = clone_struct(struct_);
                    let mut enum_field = EnumField::new(owned.name.to_string());
                    if let Some(description) = &owned.description {
                        enum_field.set_description(description.to_string());
                    }
                    enum_field.set_type_expr(owned.name.to_string());
                    enum_field.reference(Declaration::Struct(owned));
                    let ghost gf = enum_field;
                    enum_.add_field(enum_field);
                    proof {
                        assert(enum_view(enum_).fields =~= before.push(enum_field_view(gf)));
                        assert(enum_field_view(gf) == spec_union_fields(
                            total_parsed.skip(m as int),
                        )[0]);
                        assert(before.push(enum_field_view(gf)) + spec_union_fields(
                            total_parsed.skip(m as int + 1),
                        ) =~= before + (seq![enum_field_view(gf)] + spec_union_fields(
                            total_parsed.skip(m as int + 1),
                        )));
                    }
                },
                ParsedStruct::Enum(generated) => {
                    let owned = clone_enum(generated);
                    let mut enum_field = EnumField::new(owned.name.to_string());
                    if let Some(description) = &owned.description {
                        enum_field.set_description(description.to_string());
                    }
                    enum_field.set_type_expr(owned.name.to_string());
                    enum_field.reference(Declaration::Enum(owned));
                    let ghost gf = enum_field;
                    enum_.add_field(enum_field);
                    proof {
                        assert(enum_view(enum_).fields =~= before.push(enum_field_view(gf)));
                        assert(enum_field_view(gf) == spec_union_fields(
                            total_parsed.skip(m as int),
                        )[0]);
                        assert(before.push(enum_field_view(gf)) + spec_union_fields(
                            total_parsed.skip(m as int + 1),
                        ) =~= before + (seq![enum_field_view(gf)] + spec_union_fields(
                            total_parsed.skip(m as int + 1),
                        )));
                    }
                },
                ParsedStruct::Type { type_expr, reference } => {
                    proof {
                        reveal_strlit("Null");
                    }
                    if *type_expr == String::from_str("Null") {
                        is_optional = true;
                    } else {
                        let mut enum_field = EnumField::new(type_expr.clone());
                        enum_field.reference = crate::codegen::structs::clone_opt_reference(
                            reference,
                        );
                        enum_field.set_type_expr(type_expr.clone());
                        let ghost gf = enum_field;
                        enum_.add_field(enum_field);
                        proof {
                            assert(enum_view(enum_).fields =~= before.push(
                                enum_field_view(gf),
                            ));
                            assert(enum_field_view(gf) == spec_union_fields(
                                total_parsed.skip(m as int),
                            )[0]);
                            assert(before.push(enum_field_view(gf)) + spec_union_fields(
                                total_parsed.skip(m as int + 1),
                            ) =~= before + (seq![enum_field_view(gf)] + spec_union_fields(
                                total_parsed.skip(m as int + 1),
                            )));
                        }
                    }
                },
            }
            m = m + 1;
        }
        proof {
            assert(total_parsed.skip(total_parsed.len() as int) =~= Seq::<
                ParsedStructV,
            >::empty());
            assert(enum_view(enum_).fields + Seq::<EnumFieldV>::empty() =~= enum_view(
                enum_,
            ).fields);
            assert(enum_view(enum_).fields == u_fields);
        }

        if is_optional {
            let name = enum_.name.to_string();
            match schema_types.try_to_full_type_with_object(&name) {
                Ok(type_expr) => {
                    return Ok(
                        ParsedStruct::Type {
                            type_expr,
                            reference: Some(Arc::new(Declaration::Enum(enum_))),
                        },
                    );
                },
                Err(e) => {
                    return Err(e);
                },
            }
        }

        Ok(ParsedStruct::Enum(enum_))
    }

    /// The checked entry point: pushes the PascalCase prefix, lowers the
    /// node, pops. The stack leaves with the depth it came with; a hard
    /// failure in the walk comes back as the error.
    pub fn try_parse(&mut self, prefix_name: &String, schema: &Schema) -> (r: Result<
        ParsedStruct,
        GithubError,
    >)
        ensures
            final(self)@ == old(self)@,
            match r {
                Ok(p) => spec_parse(old(self)@, prefix_name@, schema@) == Some(p@),
                Err(_) => spec_parse(old(self)@, prefix_name@, schema@) is None,
            },
        decreases *schema, 2int,
    {
        let prefix = StructName::from(prefix_name);
        self.prefixs.push(prefix.0);
        proof {
            assert(self@ =~= old(self)@.push(spec_pascal(prefix_name@)));
        }

        let parsed = self.parse_schema(schema);

        let ghost mid = self.prefixs@;
        proof {
            assert(stack_view(mid) == old(self)@.push(spec_pascal(prefix_name@)));
            assert(mid.len() == old(self)@.len() + 1);
        }
        let _ = self.prefixs.pop();
        proof {
            assert(self.prefixs@ =~= mid.subrange(0, mid.len() - 1));
            assert(stack_view(mid.subrange(0, mid.len() - 1)) =~= stack_view(mid).subrange(
                0,
                mid.len() - 1,
            ));
            assert(stack_view(mid).subrange(0, mid.len() - 1) =~= old(self)@);
            assert(self@ =~= old(self)@);
        }

        parsed
    }

    /// The lowerer's entry point on input the walk is known to accept:
    /// pushes the PascalCase prefix, lowers the node, pops. The stack
    /// leaves with the depth it came with.
    pub fn parse(&mut self, prefix_name: &String, schema: &Schema) -> (r: ParsedStruct)
        requires
            spec_parse(old(self)@, prefix_name@, schema@) is Some,
        ensures
            final(self)@ == old(self)@,
            r@ == spec_parse(old(self)@, prefix_name@, schema@)->0,
        decreases *schema, 3int,
    {
        match self.try_parse(prefix_name, schema) {
            Ok(p) => p,
            Err(_) => {
                proof {
                    assert(false);
                }
                ParsedStruct::Type { type_expr: String::new(), reference: None }
            },
        }
    }
}

} // verus!
