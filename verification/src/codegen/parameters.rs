//! The parameter grouper: drives the lowerer once per parameter group and
//! builds the group's record.

use vstd::prelude::*;
use crate::error::GithubError;
use crate::codegen::schema_parser::{
    spec_parse, spec_starts_with_option, starts_with_option, ParsedStruct, ParsedStructV,
    SchemaParser,
};
use crate::codegen::structs::{
    fields_view, struct_field_view, struct_view, Declaration, DeclarationV, Struct, StructField,
    StructFieldV, StructName, StructV,
};
use crate::codegen::text::{lemma_pascal_idempotent, spec_description_of, spec_pascal};
use crate::schema::parameters::{params_view, Parameter, ParameterV};

verus! {

broadcast use vstd::std_specs::vec::group_vec_axioms, vstd::seq::group_seq_axioms;

/// The `Optional` wrap a parameter's field receives when the parameter is
/// not marked required; a type already `Optional` is never wrapped twice.
pub open spec fn spec_param_optional(f: StructFieldV, required: Option<bool>) -> StructFieldV {
    if required == Some(true) || spec_starts_with_option(f.type_expr) {
        f
    } else {
        StructFieldV { type_expr: "Option<"@ + f.type_expr + ">"@, ..f }
    }
}

/// The fields of a parameter group's record: each parameter is lowered
/// under the prefix `<GroupName>_<name>` on a fresh stack, and a parameter
/// that is not required comes out `Optional`.
pub open spec fn spec_param_fields(
    sn_pascal: Seq<char>,
    params: Seq<ParameterV>,
) -> Option<Seq<StructFieldV>>
    decreases params.len(),
{
    if params.len() == 0 {
        Some(Seq::empty())
    } else {
        let p = params[0];
        let prefix = sn_pascal + "_"@ + p.name;
        match spec_parse(Seq::<Seq<char>>::empty(), prefix, p.schema) {
            None => None,
            Some(parsed) => {
                let f0 = match parsed {
                    ParsedStructV::Struct(sv) => StructFieldV {
                        name: p.name,
                        description: Some(spec_description_of(p.description)),
                        type_expr: sv.name,
                        reference: Some(DeclarationV::Struct(sv)),
                    },
                    ParsedStructV::Enum(ev) => StructFieldV {
                        name: p.name,
                        description: Some(spec_description_of(p.description)),
                        type_expr: ev.name,
                        reference: Some(DeclarationV::Enum(ev)),
                    },
                    ParsedStructV::Type { type_expr, reference } => StructFieldV {
                        name: p.name,
                        description: Some(spec_description_of(p.description)),
                        type_expr,
                        reference,
                    },
                };
                let f = spec_param_optional(f0, p.required);
                match spec_param_fields(sn_pascal, params.skip(1)) {
                    None => None,
                    Some(rest) => Some(seq![f] + rest),
                }
            },
        }
    }
}

/// The record of a parameter group: `None` inside when the group is empty;
/// the outer `None` is the lowerer's hard failure.
pub open spec fn spec_parameters_parse(
    params: Seq<ParameterV>,
    struct_name: Seq<char>,
) -> Option<Option<StructV>> {
    if params.len() == 0 {
        Some(None)
    } else {
        match spec_param_fields(spec_pascal(struct_name), params) {
            None => None,
            Some(fields) => Some(
                Some(StructV { name: spec_pascal(struct_name), description: None, fields }),
            ),
        }
    }
}

/// One group of endpoint parameters (path or query).
#[derive(Debug)]
pub struct Parameters {
    pub parameters: Vec<Parameter>,
}

impl Parameters {
    pub fn new(parameters: Vec<Parameter>) -> (r: Self)
        ensures
            r.parameters == parameters,
    {
        Self { parameters }
    }

    /// The checked form of the group's lowering: one field per parameter,
    /// each lowered under the prefix `<GroupName>_<name>`, a parameter not
    /// marked required coming out `Optional`; an empty group yields no
    /// record, and a hard failure in any parameter's schema comes back as
    /// the error.
    pub fn try_parse(&self, struct_name: &String) -> (r: Result<Option<Struct>, GithubError>)
        ensures
            match r {
                Ok(opt) => spec_parameters_parse(params_view(self.parameters@), struct_name@)
                    is Some && (match (
                    opt,
                    spec_parameters_parse(params_view(self.parameters@), struct_name@)->0,
                ) {
                    (Some(st), Some(sv)) => st@ == sv,
                    (None, None) => true,
                    _ => false,
                }),
                Err(_) => spec_parameters_parse(
                    params_view(self.parameters@),
                    struct_name@,
                ) is None,
            },
    {
        if self.parameters.len() == 0 {
            return Ok(None);
        }

        let ghost pv = params_view(self.parameters@);
        let ghost snp = spec_pascal(struct_name@);
        let ghost pf = spec_param_fields(snp, pv);
        let ghost total = pf->0;

        let sname = StructName::from(struct_name);
        let mut new_struct = Struct::new(sname.to_string());
        proof {
            lemma_pascal_idempotent(struct_name@);
            assert(new_struct.name.0@ == snp);
        }
        let ghost s_name = new_struct.name;
        let ghost s_desc = new_struct.description;

        let mut schema_parser = SchemaParser::new();

        let mut i: usize = 0;
        proof {
            assert(pv.skip(0) =~= pv);
            assert(fields_view(new_struct.fields@) =~= Seq::<StructFieldV>::empty());
            if pf is Some {
                assert(Seq::<StructFieldV>::empty() + total =~= total);
            }
        }
        while i < self.parameters.len()
            invariant
                i <= self.parameters@.len(),
                pv.len() == self.parameters@.len(),
                pv == params_view(self.parameters@),
                snp == sname.0@,
                snp == spec_pascal(struct_name@),
                schema_parser@ == Seq::<Seq<char>>::empty(),
                pf == spec_param_fields(snp, pv),
                total == pf->0,
                (spec_param_fields(snp, pv.skip(i as int)) is Some) == (pf is Some),
                pf is Some ==> fields_view(new_struct.fields@) + spec_param_fields(
                    snp,
                    pv.skip(i as int),
                )->0 == total,
                new_struct.name == s_name,
                new_struct.description == s_desc,
            decreases self.parameters@.len() - i,
        {
            proof {
                assert(pv.skip(i as int)[0] == pv[i as int]);
                assert(pv.skip(i as int).skip(1) =~= pv.skip(i as int + 1));
                assert(pv[i as int] == self.parameters@[i as int]@);
            }
            let parameter = &self.parameters[i];
            let prefix = sname.to_string().concat("_").concat(parameter.name.as_str());
            proof {
                reveal_strlit("_");
                assert(prefix@ =~= snp + "_"@ + parameter.name@);
            }

            let generated_struct = match schema_parser.try_parse(&prefix, &parameter.schema) {
                Ok(p) => p,
                Err(e) => {
                    proof {
                        assert(spec_param_fields(snp, pv.skip(i as int)) is None);
                        assert(pf is None);
                    }
                    return Err(e);
                },
            };

            let mut field: StructField = match generated_struct {
                ParsedStruct::Type { type_expr, reference } => {
                    let mut f = StructField::new_with_description(
                        parameter.name.clone(),
                        type_expr,
                        parameter.description.clone(),
                    );
                    f.reference = reference;
                    f
                },
                ParsedStruct::Enum(enum_) => {
                    let mut f = StructField::new_with_description(
                        parameter.name.clone(),
                        enum_.name.to_string(),
                        parameter.description.clone(),
                    );
                    f.reference(Declaration::Enum(enum_));
                    f
                },
                ParsedStruct::Struct(struct_) => {
                    let mut f = StructField::new_with_description(
                        parameter.name.clone(),
                        struct_.name.to_string(),
                        parameter.description.clone(),
                    );
                    f.reference(Declaration::Struct(struct_));
                    f
                },
            };

            let not_required = match parameter.required {
                Some(true) => false,
                _ => true,
            };
            if not_required && !starts_with_option(&field.type_expr) {
                let wrapped = String::from_str("Option<").concat(
                    field.type_expr.as_str(),
                ).concat(">");
                field.type_expr = wrapped;
            }

            let ghost before = fields_view(new_struct.fields@);
            let ghost gfield = field;
            new_struct.add_field(field);
            proof {
                assert(fields_view(new_struct.fields@) =~= before.push(
                    struct_field_view(gfield),
                ));
                if pf is Some {
                    let f_spec = (spec_param_fields(snp, pv.skip(i as int))->0)[0];
                    assert(struct_field_view(gfield) == f_spec);
                    assert(before.push(f_spec) + spec_param_fields(
                        snp,
                        pv.skip(i as int + 1),
                    )->0 =~= before + (seq![f_spec] + spec_param_fields(
                        snp,
                        pv.skip(i as int + 1),
                    )->0));
                }
            }
            i = i + 1;
        }
        proof {
            assert(pv.skip(pv.len() as int) =~= Seq::<ParameterV>::empty());
            assert(pf is Some);
            assert(fields_view(new_struct.fields@) + Seq::<StructFieldV>::empty()
                =~= fields_view(new_struct.fields@));
            assert(struct_view(new_struct) =~= StructV {
                name: snp,
                description: None,
                fields: total,
            });
        }

        Ok(Some(new_struct))
    }

    /// Builds the group's record on input the lowering is known to accept:
    /// one field per parameter; an empty group yields no record.
    pub fn parse(&self, struct_name: &String) -> (r: Option<Struct>)
        requires
            spec_parameters_parse(params_view(self.parameters@), struct_name@) is Some,
        ensures
            match (r, spec_parameters_parse(params_view(self.parameters@), struct_name@)->0) {
                (Some(st), Some(sv)) => st@ == sv,
                (None, None) => true,
                _ => false,
            },
    {
        match self.try_parse(struct_name) {
            Ok(opt) => opt,
            Err(_) => {
                proof {
                    assert(false);
                }
                None
            },
        }
    }
}

} // verus!
