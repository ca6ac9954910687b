//! The body-parameter lowerer: descriptive entries to a request record,
//! nested groups lifted into named child records.

pub mod generated_struct;

use vstd::prelude::*;
use crate::error::GithubError;
use crate::codegen::body_parameters::generated_struct::{
    spec_generated_full_type, GeneratedStruct, GeneratedStructV,
};
use crate::codegen::function_name::FunctionName;
use crate::codegen::structs::{
    fields_view, struct_field_view, struct_view, Declaration, DeclarationV, Struct, StructField,
    StructFieldV, StructV,
};
use crate::codegen::text::{
    lower_of, spec_description_of, spec_identifier_of, spec_lower_seq, spec_pascal,
};
use crate::schema::body_parameters::{
    body_parameter_list_view, body_parameter_view, BodyParameter, BodyParameterV,
};

verus! {

broadcast use vstd::std_specs::vec::group_vec_axioms, vstd::seq::group_seq_axioms;

/// The composed name of an entry: the parent prefix and the entry's own
/// name, joined by an underscore; a top-level entry under an empty prefix
/// keeps its name.
pub open spec fn spec_body_name(prefix: Seq<char>, name: Seq<char>) -> Seq<char> {
    if prefix.len() == 0 {
        name
    } else {
        prefix + "_"@ + name
    }
}

/// Lowering of one body-parameter entry under a parent prefix: an entry
/// with a non-empty child group becomes a named record; any other entry
/// lowers to its bare descriptor.
pub open spec fn spec_parse_body(p: BodyParameterV, name_prefix: Seq<char>) -> Option<
    GeneratedStructV,
>
    decreases p, 1int,
{
    let struct_name = spec_body_name(name_prefix, p.name);
    match p.child_params_group {
        Some(children) => if children.len() > 0 {
            match spec_body_fields(children, struct_name) {
                None => None,
                Some(fields) => Some(
                    GeneratedStructV::Struct {
                        struct_: StructV {
                            name: spec_pascal(struct_name),
                            description: Some(spec_description_of(p.description)),
                            fields,
                        },
                        type_: p.type_,
                    },
                ),
            }
        } else {
            Some(GeneratedStructV::Type(p.type_))
        },
        None => Some(GeneratedStructV::Type(p.type_)),
    }
}

/// The fields a group of entries produces under a parent name, in order.
pub open spec fn spec_body_fields(
    children: Seq<BodyParameterV>,
    parent_name: Seq<char>,
) -> Option<Seq<StructFieldV>>
    decreases children, 0int,
{
    if children.len() == 0 {
        Some(Seq::empty())
    } else {
        let c = children[0];
        match spec_parse_body(c, parent_name) {
            None => None,
            Some(g) => match spec_generated_full_type(g) {
                None => None,
                Some(ft) => {
                    let f = StructFieldV {
                        name: c.name,
                        description: Some(spec_description_of(c.description)),
                        type_expr: ft,
                        reference: match g {
                            GeneratedStructV::Struct { struct_, .. } => Some(
                                DeclarationV::Struct(struct_),
                            ),
                            GeneratedStructV::Type(_) => None,
                        },
                    };
                    match spec_body_fields(children.skip(1), parent_name) {
                        None => None,
                        Some(rest) => Some(seq![f] + rest),
                    }
                },
            },
        }
    }
}

/// The request record of an endpoint's body parameters: `None` inside when
/// there are none; the outer `None` is the hard failure on a descriptor
/// outside the vocabulary's tables.
pub open spec fn spec_body_parse(bps: Seq<BodyParameterV>, title: Seq<char>) -> Option<
    Option<StructV>,
> {
    if bps.len() == 0 {
        Some(None)
    } else {
        let sname = spec_identifier_of(title) + "_request"@;
        let desc = "Body parameters for "@ + spec_lower_seq(title);
        match spec_body_fields(bps, sname) {
            None => None,
            Some(fields) => Some(
                Some(
                    StructV {
                        name: spec_pascal(sname),
                        description: Some(spec_description_of(desc)),
                        fields,
                    },
                ),
            ),
        }
    }
}

/// The body parameters of one endpoint.
#[derive(Debug)]
pub struct BodyParameters {
    pub body_parameters: Vec<BodyParameter>,
}

impl BodyParameters {
    pub fn new(body_parameters: Vec<BodyParameter>) -> (r: Self)
        ensures
            r.body_parameters == body_parameters,
    {
        Self { body_parameters }
    }

    /// The checked form of the request-record lowering: one field per
    /// entry, nested groups lifted into child records; no entries, no
    /// record; a descriptor outside the tables comes back as the error.
    pub fn try_parse(&self, title: &String) -> (r: Result<Option<Struct>, GithubError>)
        ensures
            match r {
                Ok(opt) => spec_body_parse(
                    body_parameter_list_view(self.body_parameters@),
                    title@,
                ) is Some && (match (
                    opt,
                    spec_body_parse(body_parameter_list_view(self.body_parameters@), title@)->0,
                ) {
                    (Some(st), Some(sv)) => st@ == sv,
                    (None, None) => true,
                    _ => false,
                }),
                Err(_) => spec_body_parse(
                    body_parameter_list_view(self.body_parameters@),
                    title@,
                ) is None,
            },
    {
        if self.body_parameters.len() == 0 {
            return Ok(None);
        }

        let ghost bv = body_parameter_list_view(self.body_parameters@);

        let description = String::from_str("Body parameters for ").concat(
            lower_of(title.as_str()).as_str(),
        );
        let title_fn = FunctionName::from(title);
        let struct_name = title_fn.to_string().concat("_request");
        proof {
            reveal_strlit("Body parameters for ");
            reveal_strlit("_request");
            assert(struct_name@ =~= spec_identifier_of(title@) + "_request"@);
            assert(description@ =~= "Body parameters for "@ + spec_lower_seq(title@));
        }
        let ghost sname = struct_name@;
        let ghost bf = spec_body_fields(bv, sname);
        let ghost total = bf->0;

        let mut new_struct = Struct::new_with_description(struct_name.clone(), description);
        let ghost s_name = new_struct.name;
        let ghost s_desc = new_struct.description;

        let mut i: usize = 0;
        proof {
            assert(bv.skip(0) =~= bv);
            assert(fields_view(new_struct.fields@) =~= Seq::<StructFieldV>::empty());
            if bf is Some {
                assert(Seq::<StructFieldV>::empty() + total =~= total);
            }
        }
        while i < self.body_parameters.len()
            invariant
                i <= self.body_parameters@.len(),
                bv.len() == self.body_parameters@.len(),
                bv == body_parameter_list_view(self.body_parameters@),
                sname == struct_name@,
                sname == spec_identifier_of(title@) + "_request"@,
                bf == spec_body_fields(bv, sname),
                total == bf->0,
                (spec_body_fields(bv.skip(i as int), sname) is Some) == (bf is Some),
                bf is Some ==> fields_view(new_struct.fields@) + spec_body_fields(
                    bv.skip(i as int),
                    sname,
                )->0 == total,
                new_struct.name == s_name,
                new_struct.description == s_desc,
            decreases self.body_parameters@.len() - i,
        {
            proof {
                assert(bv.skip(i as int)[0] == bv[i as int]);
                assert(bv.skip(i as int).skip(1) =~= bv.skip(i as int + 1));
                assert(bv[i as int] == body_parameter_view(self.body_parameters@[i as int]));
            }
            let body_parameter = &self.body_parameters[i];

            let generated_struct = match self.parse_body_parameter(
                body_parameter,
                &struct_name,
            ) {
                Ok(g) => g,
                Err(e) => {
                    proof {
                        assert(spec_body_fields(bv.skip(i as int), sname) is None);
                        assert(bf is None);
                    }
                    return Err(e);
                },
            };
            let full_type = match generated_struct.try_to_full_type() {
                Ok(t) => t,
                Err(e) => {
                    proof {
                        assert(spec_body_fields(bv.skip(i as int), sname) is None);
                        assert(bf is None);
                    }
                    return Err(e);
                },
            };

            let mut field = StructField::new_with_description(
                body_parameter.name.clone(),
                full_type,
                body_parameter.description.clone(),
            );
            match generated_struct {
                GeneratedStruct::Struct { struct_: child_struct, .. } => {
                    field.reference(Declaration::Struct(child_struct));
                },
                GeneratedStruct::Type(_) => {
                },
            }

            let ghost before = fields_view(new_struct.fields@);
            let ghost gfield = field;
            new_struct.add_field(field);
            proof {
                assert(fields_view(new_struct.fields@) =~= before.push(
                    struct_field_view(gfield),
                ));
                if bf is Some {
                    let f_spec = (spec_body_fields(bv.skip(i as int), sname)->0)[0];
                    assert(struct_field_view(gfield) == f_spec);
                    assert(before.push(f_spec) + spec_body_fields(
                        bv.skip(i as int + 1),
                        sname,
                    )->0 =~= before + (seq![f_spec] + spec_body_fields(
                        bv.skip(i as int + 1),
                        sname,
                    )->0));
                }
            }
            i = i + 1;
        }
        proof {
            assert(bv.skip(bv.len() as int) =~= Seq::<BodyParameterV>::empty());
            assert(bf is Some);
            assert(fields_view(new_struct.fields@) + Seq::<StructFieldV>::empty()
                =~= fields_view(new_struct.fields@));
            assert(struct_view(new_struct) =~= spec_body_parse(bv, title@)->0->0);
        }

        Ok(Some(new_struct))
    }

    /// Builds the `<title-identifier>_request` record on input the lowering
    /// is known to accept; no entries, no record.
    pub fn parse(&self, title: &String) -> (r: Option<Struct>)
        requires
            spec_body_parse(body_parameter_list_view(self.body_parameters@), title@) is Some,
        ensures
            match (r, spec_body_parse(body_parameter_list_view(self.body_parameters@), title@)->0) {
                (Some(st), Some(sv)) => st@ == sv,
                (None, None) => true,
                _ => false,
            },
    {
        match self.try_parse(title) {
            Ok(opt) => opt,
            Err(_) => {
                proof {
                    assert(false);
                }
                None
            },
        }
    }

    /// Lowers one entry under its parent prefix: a non-empty child group
    /// becomes a named record whose fields come from lowering each child in
    /// turn; a descriptor outside the tables comes back as the error.
    fn parse_body_parameter(&self, parameter: &BodyParameter, name_prefix: &String) -> (r:
        Result<GeneratedStruct, GithubError>)
        ensures
            match r {
                Ok(g) => spec_parse_body(parameter@, name_prefix@) == Some(g@),
                Err(_) => spec_parse_body(parameter@, name_prefix@) is None,
            },
        decreases *parameter, 2int,
    {
        let struct_name: String = if name_prefix.as_str().is_empty() {
            parameter.name.clone()
        } else {
            name_prefix.clone().concat("_").concat(parameter.name.as_str())
        };
        proof {
            reveal_strlit("_");
            assert(name_prefix@.len() == 0 ==> struct_name@ =~= spec_body_name(
                name_prefix@,
                parameter@.name,
            ));
            assert(name_prefix@.len() > 0 ==> struct_name@ =~= spec_body_name(
                name_prefix@,
                parameter@.name,
            ));
        }

        let has_children = match &parameter.child_params_group {
            Some(g) => g.len() > 0,
            None => false,
        };
        if !has_children {
            return Ok(GeneratedStruct::type_(parameter.type_));
        }
        match &parameter.child_params_group {
            Some(child_params_group) => {
                let ghost cv = parameter@.child_params_group->0;
                let ghost bf = spec_body_fields(cv, struct_name@);
                let ghost total = bf->0;
                let ghost sname = struct_name@;

                let mut new_struct = Struct::new_with_description(
                    struct_name.clone(),
                    parameter.description.clone(),
                );
                let ghost s_name = new_struct.name;
                let ghost s_desc = new_struct.description;

                let mut i: usize = 0;
                proof {
                    assert(cv.skip(0) =~= cv);
                    assert(fields_view(new_struct.fields@) =~= Seq::<StructFieldV>::empty());
                    if bf is Some {
                        assert(Seq::<StructFieldV>::empty() + total =~= total);
                    }
                }
                while i < child_params_group.len()
                    invariant
                        i <= child_params_group@.len(),
                        cv.len() == child_params_group@.len(),
                        cv == body_parameter_list_view(child_params_group@),
                        cv == parameter@.child_params_group->0,
                        cv.len() > 0,
                        sname == struct_name@,
                        sname == spec_body_name(name_prefix@, parameter@.name),
                        bf == spec_body_fields(cv, sname),
                        total == bf->0,
                        (spec_body_fields(cv.skip(i as int), sname) is Some) == (bf is Some),
                        bf is Some ==> fields_view(new_struct.fields@) + spec_body_fields(
                            cv.skip(i as int),
                            sname,
                        )->0 == total,
                        new_struct.name == s_name,
                        new_struct.description == s_desc,
                        parameter.child_params_group == Some(*child_params_group),
                    decreases child_params_group@.len() - i,
                {
                    proof {
                        assert(cv.skip(i as int)[0] == cv[i as int]);
                        assert(cv.skip(i as int).skip(1) =~= cv.skip(i as int + 1));
                        assert(cv[i as int] == body_parameter_view(
                            child_params_group@[i as int],
                        ));
                    }
                    let child_param = &child_params_group[i];
                    proof {
                        assert(parameter.child_params_group->0 == *child_params_group);
                        assert(decreases_to!(*parameter => parameter.child_params_group));
                        assert(decreases_to!(
                            parameter.child_params_group => parameter.child_params_group->0
                        ));
                        assert(decreases_to!(*child_params_group => child_params_group[i as int]));
                        assert(decreases_to!(*parameter => *child_param));
                    }

                    let generated_struct = match self.parse_body_parameter(
                        child_param,
                        &struct_name,
                    ) {
                        Ok(g) => g,
                        Err(e) => {
                            proof {
                                assert(spec_body_fields(cv.skip(i as int), sname) is None);
                                assert(bf is None);
                            }
                            return Err(e);
                        },
                    };
                    let full_type = match generated_struct.try_to_full_type() {
                        Ok(t) => t,
                        Err(e) => {
                            proof {
                                assert(spec_body_fields(cv.skip(i as int), sname) is None);
                                assert(bf is None);
                            }
                            return Err(e);
                        },
                    };

                    let mut field = StructField::new_with_description(
                        child_param.name.clone(),
                        full_type,
                        child_param.description.clone(),
                    );
                    match generated_struct {
                        GeneratedStruct::Struct { struct_: child_struct, .. } => {
                            field.reference(Declaration::Struct(child_struct));
                        },
                        GeneratedStruct::Type(_) => {
                        },
                    }

                    let ghost before = fields_view(new_struct.fields@);
                    let ghost gfield = field;
                    new_struct.add_field(field);
                    proof {
                        assert(fields_view(new_struct.fields@) =~= before.push(
                            struct_field_view(gfield),
                        ));
                        if bf is Some {
                            let f_spec = (spec_body_fields(cv.skip(i as int), sname)->0)[0];
                            assert(struct_field_view(gfield) == f_spec);
                            assert(before.push(f_spec) + spec_body_fields(
                                cv.skip(i as int + 1),
                                sname,
                            )->0 =~= before + (seq![f_spec] + spec_body_fields(
                                cv.skip(i as int + 1),
                                sname,
                            )->0));
                        }
                    }
                    i = i + 1;
                }
                proof {
                    assert(cv.skip(cv.len() as int) =~= Seq::<BodyParameterV>::empty());
                    assert(bf is Some);
                    assert(fields_view(new_struct.fields@) + Seq::<StructFieldV>::empty()
                        =~= fields_view(new_struct.fields@));
                }

                let r = GeneratedStruct::struct_(new_struct, parameter.type_);
                proof {
                    assert(r@ =~= spec_parse_body(parameter@, name_prefix@)->0);
                }
                Ok(r)
            },
            None => Ok(GeneratedStruct::type_(parameter.type_)),
        }
    }
}

} // verus!
