//! The flat endpoint form: parameter groups kept as groups, the first code
//! example's response kept whole.

use vstd::prelude::*;
use crate::codegen::body_parameters::{spec_body_parse, BodyParameters};
use crate::codegen::parameters::Parameters;
use crate::codegen::parsed::api::{opt_struct_view, spec_path_params, spec_query_params};
use crate::codegen::structs::Struct;
use crate::schema::api::{APISchema, Method};
use crate::schema::parameters::{params_view, Parameter, ParameterV};
use crate::schema::response::Response;

verus! {

broadcast use vstd::std_specs::vec::group_vec_axioms, vstd::seq::group_seq_axioms;

/// One endpoint with its parameter groups and its documented response.
#[derive(Debug)]
pub struct API {
    pub name: String,
    pub path: String,
    pub method: Method,
    pub parameters: Parameters,
    pub body: Option<Struct>,
    pub query: Parameters,
    pub response: Response,
}

impl API {
    /// Assembles the flat endpoint form: partitions the parameters by
    /// position, lowers the body parameters, and keeps the first code
    /// example's response.
    pub fn from(api_schema: APISchema) -> (r: API)
        requires
            api_schema@.code_examples.len() > 0,
            spec_body_parse(api_schema@.body_parameters, api_schema@.title) is Some,
        ensures
            r.name@ == api_schema@.title,
            r.path@ == api_schema@.path,
            r.method == api_schema@.method,
            params_view(r.parameters.parameters@) == spec_path_params(api_schema@.parameters),
            params_view(r.query.parameters@) == spec_query_params(api_schema@.parameters),
            opt_struct_view(r.body) == spec_body_parse(
                api_schema@.body_parameters,
                api_schema@.title,
            )->0,
            r.response@ == api_schema@.code_examples[0].response,
    {
        let ghost av = api_schema@;

        let mut query: Vec<Parameter> = Vec::new();
        let mut parameters: Vec<Parameter> = Vec::new();
        let mut rest = api_schema.parameters;
        proof {
            assert(params_view(query@) =~= Seq::<ParameterV>::empty());
            assert(params_view(parameters@) =~= Seq::<ParameterV>::empty());
            assert(Seq::<ParameterV>::empty() + spec_query_params(av.parameters)
                =~= spec_query_params(av.parameters));
            assert(Seq::<ParameterV>::empty() + spec_path_params(av.parameters)
                =~= spec_path_params(av.parameters));
            assert(params_view(rest@) == av.parameters);
        }
        while rest.len() > 0
            invariant
                params_view(query@) + spec_query_params(params_view(rest@))
                    == spec_query_params(av.parameters),
                params_view(parameters@) + spec_path_params(params_view(rest@))
                    == spec_path_params(av.parameters),
            decreases rest@.len(),
        {
            let ghost rv0 = rest@;
            let ghost rv = params_view(rest@);
            let parameter = rest.remove(0);
            proof {
                assert(rest@ =~= rv0.skip(1));
                assert(params_view(rv0.skip(1)) =~= rv.skip(1));
                assert(rv[0] == parameter@);
            }
            if parameter.position.is_query() {
                let ghost qbefore = params_view(query@);
                let ghost gp = parameter;
                query.push(parameter);
                proof {
                    assert(params_view(query@) =~= qbefore.push(gp@));
                    assert(qbefore.push(gp@) + spec_query_params(rv.skip(1)) =~= qbefore + (
                    seq![gp@] + spec_query_params(rv.skip(1))));
                }
            } else {
                let ghost pbefore = params_view(parameters@);
                let ghost gp = parameter;
                parameters.push(parameter);
                proof {
                    assert(params_view(parameters@) =~= pbefore.push(gp@));
                    assert(pbefore.push(gp@) + spec_path_params(rv.skip(1)) =~= pbefore + (
                    seq![gp@] + spec_path_params(rv.skip(1))));
                }
            }
        }
        proof {
            assert(params_view(rest@) =~= Seq::<ParameterV>::empty());
            assert(params_view(query@) + Seq::<ParameterV>::empty() =~= params_view(query@));
            assert(params_view(parameters@) + Seq::<ParameterV>::empty() =~= params_view(
                parameters@,
            ));
        }

        let mut code_examples = api_schema.code_examples;
        let first_example = code_examples.remove(0);
        proof {
            assert(av.code_examples[0] == crate::schema::api::code_example_view(
                first_example,
            ));
        }
        let response = first_example.response;

        let body_parameters = BodyParameters::new(api_schema.body_parameters);
        let body = body_parameters.parse(&api_schema.title);

        API {
            name: api_schema.title,
            path: api_schema.path,
            method: api_schema.method,
            query: Parameters::new(query),
            parameters: Parameters::new(parameters),
            body,
            response,
        }
    }
}

} // verus!
