//! One lowered endpoint, and the module (one subcategory) that owns its
//! local declarations.

use vstd::prelude::*;
use std::sync::Arc;
use crate::codegen::body_parameters::{spec_body_parse, BodyParameters};
use crate::error::GithubError;
use crate::codegen::parameters::{spec_parameters_parse, Parameters};
use crate::codegen::schema_parser::{spec_parse, ParsedStruct, ParsedStructV, SchemaParser};
use crate::codegen::structs::{decl_view, struct_view, Declaration, DeclarationV, Struct, StructV};
use crate::schema::api::{APISchema, APISchemaV, Method};
use crate::schema::parameters::{params_view, Parameter, ParameterV, Position};

verus! {

broadcast use vstd::std_specs::vec::group_vec_axioms, vstd::seq::group_seq_axioms;

/// One lowered endpoint: its identifier is derived later by the emitter;
/// here it keeps the title, verb, path, and its four optional declarations.
#[derive(Debug)]
pub struct ParsedAPI {
    pub name: String,
    pub path: String,
    pub method: Method,
    pub parameters: Option<Struct>,
    pub body: Option<Struct>,
    pub query: Option<Struct>,
    pub response: Option<ParsedStruct>,
}

/// Ghost mirror of a lowered endpoint.
#[verifier::ext_equal]
pub ghost struct ParsedAPIV {
    pub name: Seq<char>,
    pub path: Seq<char>,
    pub method: Method,
    pub parameters: Option<StructV>,
    pub body: Option<StructV>,
    pub query: Option<StructV>,
    pub response: Option<ParsedStructV>,
}

pub open spec fn opt_struct_view(s: Option<Struct>) -> Option<StructV> {
    match s {
        Some(st) => Some(struct_view(st)),
        None => None,
    }
}

pub open spec fn parsed_api_view(a: ParsedAPI) -> ParsedAPIV {
    ParsedAPIV {
        name: a.name@,
        path: a.path@,
        method: a.method,
        parameters: opt_struct_view(a.parameters),
        body: opt_struct_view(a.body),
        query: opt_struct_view(a.query),
        response: match a.response {
            Some(p) => Some(p@),
            None => None,
        },
    }
}

impl View for ParsedAPI {
    type V = ParsedAPIV;

    open spec fn view(&self) -> ParsedAPIV {
        parsed_api_view(*self)
    }
}

/// The query-position parameters, in input order.
pub open spec fn spec_query_params(ps: Seq<ParameterV>) -> Seq<ParameterV>
    decreases ps.len(),
{
    if ps.len() == 0 {
        Seq::empty()
    } else if ps[0].position == Position::Query {
        seq![ps[0]] + spec_query_params(ps.skip(1))
    } else {
        spec_query_params(ps.skip(1))
    }
}

/// The path-position parameters, in input order.
pub open spec fn spec_path_params(ps: Seq<ParameterV>) -> Seq<ParameterV>
    decreases ps.len(),
{
    if ps.len() == 0 {
        Seq::empty()
    } else if ps[0].position != Position::Query {
        seq![ps[0]] + spec_path_params(ps.skip(1))
    } else {
        spec_path_params(ps.skip(1))
    }
}

/// Lowering of one endpoint: parameters partitioned by position, the three
/// groups and the first code example's response each lowered in turn.
pub open spec fn spec_api_from(a: APISchemaV) -> Option<ParsedAPIV> {
    let qs = spec_query_params(a.parameters);
    let ps = spec_path_params(a.parameters);
    let response0: Option<Option<ParsedStructV>> = if a.code_examples.len() == 0 {
        Some(None)
    } else {
        match a.code_examples[0].response.schema {
            None => Some(None),
            Some(schema) => match spec_parse(
                Seq::<Seq<char>>::empty(),
                a.title + "Response"@,
                schema,
            ) {
                None => None,
                Some(p) => Some(Some(p)),
            },
        }
    };
    match response0 {
        None => None,
        Some(resp) => match spec_body_parse(a.body_parameters, a.title) {
            None => None,
            Some(body) => match spec_parameters_parse(qs, a.title + "Query"@) {
                None => None,
                Some(query) => match spec_parameters_parse(ps, a.title + "Parameters"@) {
                    None => None,
                    Some(parameters) => Some(
                        ParsedAPIV {
                            name: a.title,
                            path: a.path,
                            method: a.method,
                            parameters,
                            body,
                            query,
                            response: resp,
                        },
                    ),
                },
            },
        },
    }
}

impl ParsedAPI {
    /// The checked lowering of one endpoint: any hard failure in its
    /// schemas, groups or body descriptors comes back as the error.
    pub fn try_from(api_schema: APISchema) -> (r: Result<ParsedAPI, GithubError>)
        ensures
            match r {
                Ok(p) => spec_api_from(api_schema@) == Some(p@),
                Err(_) => spec_api_from(api_schema@) is None,
            },
    {
        let ghost av = api_schema@;

        let mut query: Vec<Parameter> = Vec::new();
        let mut parameters: Vec<Parameter> = Vec::new();
        let mut rest = api_schema.parameters;
        proof {
            assert(params_view(rest@).skip(0) =~= params_view(rest@));
            assert(params_view(query@) =~= Seq::<ParameterV>::empty());
            assert(params_view(parameters@) =~= Seq::<ParameterV>::empty());
            assert(Seq::<ParameterV>::empty() + spec_query_params(av.parameters)
                =~= spec_query_params(av.parameters));
            assert(Seq::<ParameterV>::empty() + spec_path_params(av.parameters)
                =~= spec_path_params(av.parameters));
            assert(params_view(rest@) == av.parameters);
        }
        while rest.len() > 0
            invariant
                params_view(query@) + spec_query_params(params_view(rest@))
                    == spec_query_params(av.parameters),
                params_view(parameters@) + spec_path_params(params_view(rest@))
                    == spec_path_params(av.parameters),
            decreases rest@.len(),
        {
            let ghost rv0 = rest@;
            let ghost rv = params_view(rest@);
            let parameter = rest.remove(0);
            proof {
                assert(rest@ =~= rv0.skip(1));
                assert(params_view(rv0.skip(1)) =~= rv.skip(1));
                assert(rv[0] == parameter@);
            }
            if parameter.position.is_query() {
                let ghost qbefore = params_view(query@);
                let ghost gp = parameter;
                query.push(parameter);
                proof {
                    assert(params_view(query@) =~= qbefore.push(gp@));
                    assert(qbefore.push(gp@) + spec_query_params(rv.skip(1)) =~= qbefore + (
                    seq![gp@] + spec_query_params(rv.skip(1))));
                }
            } else {
                let ghost pbefore = params_view(parameters@);
                let ghost gp = parameter;
                parameters.push(parameter);
                proof {
                    assert(params_view(parameters@) =~= pbefore.push(gp@));
                    assert(pbefore.push(gp@) + spec_path_params(rv.skip(1)) =~= pbefore + (
                    seq![gp@] + spec_path_params(rv.skip(1))));
                }
            }
        }
        proof {
            assert(params_view(rest@) =~= Seq::<ParameterV>::empty());
            assert(params_view(query@) + Seq::<ParameterV>::empty() =~= params_view(query@));
            assert(params_view(parameters@) + Seq::<ParameterV>::empty() =~= params_view(
                parameters@,
            ));
        }

        let response: Option<ParsedStruct> = if api_schema.code_examples.len() > 0 {
            let code_example = &api_schema.code_examples[0];
            proof {
                assert(av.code_examples[0] == crate::schema::api::code_example_view(
                    api_schema.code_examples@[0],
                ));
            }
            match &code_example.response.schema {
                Some(schema) => {
                    let mut schema_parser = SchemaParser::new();
                    let prefix = api_schema.title.clone().concat("Response");
                    proof {
                        reveal_strlit("Response");
                        assert(prefix@ =~= av.title + "Response"@);
                    }
                    match schema_parser.try_parse(&prefix, schema) {
                        Ok(p) => Some(p),
                        Err(e) => {
                            return Err(e);
                        },
                    }
                },
                None => None,
            }
        } else {
            None
        };

        let body_parameters = BodyParameters::new(api_schema.body_parameters);
        let body = match body_parameters.try_parse(&api_schema.title) {
            Ok(b) => b,
            Err(e) => {
                return Err(e);
            },
        };

        let query = Parameters::new(query);
        let query_prefix = api_schema.title.clone().concat("Query");
        proof {
            reveal_strlit("Query");
            assert(query_prefix@ =~= av.title + "Query"@);
        }
        let query = match query.try_parse(&query_prefix) {
            Ok(q) => q,
            Err(e) => {
                return Err(e);
            },
        };

        let parameters = Parameters::new(parameters);
        let parameters_prefix = api_schema.title.clone().concat("Parameters");
        proof {
            reveal_strlit("Parameters");
            assert(parameters_prefix@ =~= av.title + "Parameters"@);
        }
        let parameters = match parameters.try_parse(&parameters_prefix) {
            Ok(p) => p,
            Err(e) => {
                return Err(e);
            },
        };

        let r = ParsedAPI {
            name: api_schema.title,
            path: api_schema.path,
            method: api_schema.method,
            query,
            parameters,
            body,
            response,
        };
        proof {
            assert(r@ =~= spec_api_from(av)->0);
        }
        Ok(r)
    }

    /// Lowers one endpoint on input the lowering is known to accept.
    pub fn from(api_schema: APISchema) -> (r: ParsedAPI)
        requires
            spec_api_from(api_schema@) is Some,
        ensures
            r@ == spec_api_from(api_schema@)->0,
    {
        let ghost av = api_schema@;
        match ParsedAPI::try_from(api_schema) {
            Ok(p) => p,
            Err(_) => {
                proof {
                    assert(false);
                }
                ParsedAPI {
                    name: String::new(),
                    path: String::new(),
                    method: crate::schema::api::Method::GET,
                    parameters: None,
                    body: None,
                    query: None,
                    response: None,
                }
            },
        }
    }
}

/// The declarations a module owns, element by element.
pub open spec fn decls_view(v: Seq<Arc<Declaration>>) -> Seq<DeclarationV> {
    Seq::new(
        v.len(),
        |i: int|
            if 0 <= i < v.len() {
                decl_view(*v[i])
            } else {
                arbitrary()
            },
    )
}

/// One module: a subcategory's endpoints and the declarations local to
/// them.
#[derive(Debug)]
pub struct ParsedAPIModule {
    pub name: String,
    pub types: Vec<Arc<Declaration>>,
    pub apis: Vec<ParsedAPI>,
}

impl ParsedAPIModule {
    pub fn new(name: String) -> (r: Self)
        ensures
            r.name == name,
            r.types@.len() == 0,
            r.apis@.len() == 0,
    {
        ParsedAPIModule { name, types: Vec::new(), apis: Vec::new() }
    }

    /// Registers a declaration with the module.
    pub fn add_type(&mut self, referable: Declaration)
        ensures
            decls_view(final(self).types@) == decls_view(old(self).types@).push(
                decl_view(referable),
            ),
            final(self).name == old(self).name,
            final(self).apis == old(self).apis,
    {
        let ghost before = decls_view(self.types@);
        let ghost gref = referable;
        self.types.push(Arc::new(referable));
        proof {
            assert(decls_view(self.types@) =~= before.push(decl_view(gref)));
        }
    }

    /// Appends an endpoint to the module.
    pub fn add_api(&mut self, api: ParsedAPI)
        ensures
            final(self).apis@ == old(self).apis@.push(api),
            final(self).name == old(self).name,
            final(self).types == old(self).types,
    {
        self.apis.push(api);
    }
}

} // verus!
