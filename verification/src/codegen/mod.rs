//! The lowering engine: name normalization, the type-shape classifier, the
//! recursive schema lowerer, parameter and body grouping, and the declaration
//! tree they fill.

pub mod api;
pub mod body_parameters;
pub mod file_tree;
pub mod function_name;
pub mod parameters;
pub mod parsed;
pub mod schema_parser;
pub mod schema_types;
pub mod structs;
pub mod text;

use vstd::prelude::*;
use crate::error::GithubError;
use crate::codegen::parsed::api::{spec_api_from, ParsedAPI, ParsedAPIModule};
use crate::codegen::parsed::api_tree::ParsedAPIModuleV;
use crate::codegen::parsed::api_tree::{
    categories_view, globals_view, spec_lookup_or_empty, spec_register, spec_register_module,
    ParsedAPITree,
};
use crate::codegen::schema_parser::{ParsedStruct, ParsedStructV};
use crate::codegen::structs::{clone_enum, clone_struct, spec_decl_name, Declaration, DeclarationV};
use crate::schema::api::{api_schema_view, APISchema, APISchemaV};
use crate::schema::Source;

verus! {

broadcast use vstd::std_specs::vec::group_vec_axioms, vstd::seq::group_seq_axioms;

pub open spec fn apis_view(v: Seq<APISchema>) -> Seq<APISchemaV> {
    Seq::new(
        v.len(),
        |i: int|
            if 0 <= i < v.len() {
                api_schema_view(v[i])
            } else {
                arbitrary()
            },
    )
}

pub open spec fn subcats_view(v: Seq<(String, Vec<APISchema>)>) -> Seq<
    (Seq<char>, Seq<APISchemaV>),
> {
    Seq::new(
        v.len(),
        |i: int|
            if 0 <= i < v.len() {
                (v[i].0@, apis_view(v[i].1@))
            } else {
                arbitrary()
            },
    )
}

pub open spec fn source_view(v: Seq<(String, Vec<(String, Vec<APISchema>)>)>) -> Seq<
    (Seq<char>, Seq<(Seq<char>, Seq<APISchemaV>)>),
> {
    Seq::new(
        v.len(),
        |i: int|
            if 0 <= i < v.len() {
                (v[i].0@, subcats_view(v[i].1@))
            } else {
                arbitrary()
            },
    )
}

/// The whole tree at the ghost level: the global response table and the
/// category mapping.
#[verifier::ext_equal]
pub ghost struct TreeV {
    pub globals: Seq<(Seq<char>, DeclarationV)>,
    pub categories: Seq<(Seq<char>, Seq<ParsedAPIModuleV>)>,
}

/// One endpoint folded into the state: its body, query and parameter
/// records join the module, its response declaration joins the global
/// table, and the endpoint itself joins the module's list.
pub open spec fn spec_fold_api(
    globals: Seq<(Seq<char>, DeclarationV)>,
    module: ParsedAPIModuleV,
    a: APISchemaV,
) -> Option<(Seq<(Seq<char>, DeclarationV)>, ParsedAPIModuleV)> {
    match spec_api_from(a) {
        None => None,
        Some(pa) => {
            let types1 = match pa.body {
                Some(b) => module.types.push(DeclarationV::Struct(b)),
                None => module.types,
            };
            let types2 = match pa.query {
                Some(q) => types1.push(DeclarationV::Struct(q)),
                None => types1,
            };
            let types3 = match pa.parameters {
                Some(p) => types2.push(DeclarationV::Struct(p)),
                None => types2,
            };
            let globals1 = match pa.response {
                Some(ParsedStructV::Enum(e)) => spec_register(
                    globals,
                    e.name,
                    DeclarationV::Enum(e),
                ),
                Some(ParsedStructV::Struct(s)) => spec_register(
                    globals,
                    s.name,
                    DeclarationV::Struct(s),
                ),
                Some(ParsedStructV::Type { reference, .. }) => match reference {
                    Some(d) => spec_register(globals, spec_decl_name(d), d),
                    None => globals,
                },
                None => globals,
            };
            Some(
                (
                    globals1,
                    ParsedAPIModuleV {
                        name: module.name,
                        types: types3,
                        apis: module.apis.push(pa),
                    },
                ),
            )
        },
    }
}

pub open spec fn spec_fold_apis(
    globals: Seq<(Seq<char>, DeclarationV)>,
    module: ParsedAPIModuleV,
    apis: Seq<APISchemaV>,
) -> Option<(Seq<(Seq<char>, DeclarationV)>, ParsedAPIModuleV)>
    decreases apis.len(),
{
    if apis.len() == 0 {
        Some((globals, module))
    } else {
        match spec_fold_api(globals, module, apis[0]) {
            None => None,
            Some((g1, m1)) => spec_fold_apis(g1, m1, apis.skip(1)),
        }
    }
}

pub open spec fn spec_fold_subcats(
    globals: Seq<(Seq<char>, DeclarationV)>,
    categories: Seq<(Seq<char>, Seq<ParsedAPIModuleV>)>,
    category: Seq<char>,
    subs: Seq<(Seq<char>, Seq<APISchemaV>)>,
) -> Option<(Seq<(Seq<char>, DeclarationV)>, Seq<(Seq<char>, Seq<ParsedAPIModuleV>)>)>
    decreases subs.len(),
{
    if subs.len() == 0 {
        Some((globals, categories))
    } else {
        let m0 = ParsedAPIModuleV { name: subs[0].0, types: Seq::empty(), apis: Seq::empty() };
        match spec_fold_apis(globals, m0, subs[0].1) {
            None => None,
            Some((g1, m1)) => {
                let cats1 = spec_register(
                    categories,
                    category,
                    spec_register_module(spec_lookup_or_empty(categories, category), m1),
                );
                spec_fold_subcats(g1, cats1, category, subs.skip(1))
            },
        }
    }
}

pub open spec fn spec_fold_source(
    globals: Seq<(Seq<char>, DeclarationV)>,
    categories: Seq<(Seq<char>, Seq<ParsedAPIModuleV>)>,
    src: Seq<(Seq<char>, Seq<(Seq<char>, Seq<APISchemaV>)>)>,
) -> Option<TreeV>
    decreases src.len(),
{
    if src.len() == 0 {
        Some(TreeV { globals, categories })
    } else {
        match spec_fold_subcats(globals, categories, src[0].0, src[0].1) {
            None => None,
            Some((g1, c1)) => spec_fold_source(g1, c1, src.skip(1)),
        }
    }
}

/// The whole run: the tree an input document lowers to, starting from an
/// empty tree.
pub open spec fn spec_codegen_parse(
    src: Seq<(Seq<char>, Seq<(Seq<char>, Seq<APISchemaV>)>)>,
) -> Option<TreeV> {
    spec_fold_source(Seq::empty(), Seq::empty(), src)
}

/// The state one lowering run fills.
pub struct ParseContext {
    pub api_tree: ParsedAPITree,
}

/// The generator: owns the declaration tree its run produces.
pub struct Codegen {
    pub context: ParseContext,
}

impl Codegen {
    pub fn new() -> (r: Self)
        ensures
            r.context.api_tree.global_types@.len() == 0,
            r.context.api_tree.modules@.len() == 0,
    {
        Codegen { context: ParseContext { api_tree: ParsedAPITree::new() } }
    }

    /// The checked lowering of the whole input document: category by
    /// category, subcategory by subcategory, endpoint by endpoint. A hard
    /// failure anywhere in the document comes back as the error; the tree
    /// then holds whatever was lowered before it.
    pub fn try_parse(&mut self, source: Source) -> (r: Result<(), GithubError>)
        ensures
            match r {
                Ok(_) => Some(
                    TreeV {
                        globals: globals_view(final(self).context.api_tree.global_types@),
                        categories: categories_view(final(self).context.api_tree.modules@),
                    },
                ) == spec_fold_source(
                    globals_view(old(self).context.api_tree.global_types@),
                    categories_view(old(self).context.api_tree.modules@),
                    source_view(source@),
                ),
                Err(_) => spec_fold_source(
                    globals_view(old(self).context.api_tree.global_types@),
                    categories_view(old(self).context.api_tree.modules@),
                    source_view(source@),
                ) is None,
            },
    {
        let ghost target = spec_fold_source(
            globals_view(self.context.api_tree.global_types@),
            categories_view(self.context.api_tree.modules@),
            source_view(source@),
        );
        let mut src = source;
        while src.len() > 0
            invariant
                target == spec_fold_source(
                    globals_view(old(self).context.api_tree.global_types@),
                    categories_view(old(self).context.api_tree.modules@),
                    source_view(source@),
                ),
                spec_fold_source(
                    globals_view(self.context.api_tree.global_types@),
                    categories_view(self.context.api_tree.modules@),
                    source_view(src@),
                ) == target,
            decreases src@.len(),
        {
            let ghost sv0 = src@;
            let pair = src.remove(0);
            let category = pair.0;
            let mut subs = pair.1;
            let ghost g0 = globals_view(self.context.api_tree.global_types@);
            let ghost c0 = categories_view(self.context.api_tree.modules@);
            proof {
                assert(src@ =~= sv0.skip(1));
                assert(source_view(sv0.skip(1)) =~= source_view(sv0).skip(1));
                assert(source_view(sv0)[0] == (category@, subcats_view(subs@)));
            }
            let ghost fold_s = spec_fold_subcats(g0, c0, category@, subcats_view(subs@));
            let ghost rest_src = source_view(src@);

            while subs.len() > 0
                invariant
                    target == spec_fold_source(
                        globals_view(old(self).context.api_tree.global_types@),
                        categories_view(old(self).context.api_tree.modules@),
                        source_view(source@),
                    ),
                    rest_src == source_view(src@),
                    spec_fold_subcats(
                        globals_view(self.context.api_tree.global_types@),
                        categories_view(self.context.api_tree.modules@),
                        category@,
                        subcats_view(subs@),
                    ) == fold_s,
                    fold_s matches Some(gc) ==> spec_fold_source(gc.0, gc.1, rest_src)
                        == target,
                    fold_s is None ==> target is None,
                decreases subs@.len(),
            {
                let ghost bv0 = subs@;
                let sub_pair = subs.remove(0);
                let subcategory_name = sub_pair.0;
                let mut apis = sub_pair.1;
                let ghost g1 = globals_view(self.context.api_tree.global_types@);
                let ghost c1 = categories_view(self.context.api_tree.modules@);
                proof {
                    assert(subs@ =~= bv0.skip(1));
                    assert(subcats_view(bv0.skip(1)) =~= subcats_view(bv0).skip(1));
                    assert(subcats_view(bv0)[0] == (subcategory_name@, apis_view(apis@)));
                }
                let ghost sub_name = subcategory_name@;

                let mut module = ParsedAPIModule::new(subcategory_name);
                proof {
                    assert(module@ =~= (ParsedAPIModuleV {
                        name: sub_name,
                        types: Seq::empty(),
                        apis: Seq::empty(),
                    }));
                }
                let ghost fold_a = spec_fold_apis(g1, module@, apis_view(apis@));

                while apis.len() > 0
                    invariant
                        target == spec_fold_source(
                            globals_view(old(self).context.api_tree.global_types@),
                            categories_view(old(self).context.api_tree.modules@),
                            source_view(source@),
                        ),
                        spec_fold_apis(
                            globals_view(self.context.api_tree.global_types@),
                            module@,
                            apis_view(apis@),
                        ) == fold_a,
                        categories_view(self.context.api_tree.modules@) == c1,
                        fold_a is None ==> fold_s is None,
                        fold_s is None ==> target is None,
                    decreases apis@.len(),
                {
                    let ghost av0 = apis@;
                    let ghost gbefore = globals_view(self.context.api_tree.global_types@);
                    let ghost mbefore_step = module@;
                    let api = apis.remove(0);
                    let ghost gapi = api@;
                    proof {
                        assert(apis@ =~= av0.skip(1));
                        assert(apis_view(av0.skip(1)) =~= apis_view(av0).skip(1));
                        assert(apis_view(av0)[0] == gapi);
                    }

                    let parsed_api = match ParsedAPI::try_from(api) {
                        Ok(p) => p,
                        Err(e) => {
                            proof {
                                assert(spec_fold_api(
                                    globals_view(self.context.api_tree.global_types@),
                                    module@,
                                    gapi,
                                ) is None);
                                assert(fold_a is None);
                                assert(target is None);
                            }
                            return Err(e);
                        },
                    };

                    if let Some(body) = &parsed_api.body {
                        module.add_type(Declaration::Struct(clone_struct(body)));
                    }

                    if let Some(query) = &parsed_api.query {
                        module.add_type(Declaration::Struct(clone_struct(query)));
                    }

                    if let Some(parameters) = &parsed_api.parameters {
                        module.add_type(Declaration::Struct(clone_struct(parameters)));
                    }

                    match &parsed_api.response {
                        Some(ParsedStruct::Enum(enum_)) => {
                            self.context.api_tree.add_global_type(
                                &enum_.name.0,
                                Declaration::Enum(clone_enum(enum_)),
                            );
                        },
                        Some(ParsedStruct::Struct(struct_)) => {
                            self.context.api_tree.add_global_type(
                                &struct_.name.0,
                                Declaration::Struct(clone_struct(struct_)),
                            );
                        },
                        Some(ParsedStruct::Type { reference, .. }) => {
                            if let Some(referable) = reference {
                                let decl_name: String = match &**referable {
                                    Declaration::Struct(s) => s.name.to_string(),
                                    Declaration::Enum(e) => e.name.to_string(),
                                };
                                self.context.api_tree.add_boxed_global_type(
                                    decl_name,
                                    referable.clone(),
                                );
                            }
                        },
                        None => {
                        },
                    }

                    let ghost mod_before = module@;
                    let ghost gparsed = parsed_api@;
                    module.add_api(parsed_api);
                    proof {
                        assert(module@ =~= (ParsedAPIModuleV {
                            name: mod_before.name,
                            types: mod_before.types,
                            apis: mod_before.apis.push(gparsed),
                        }));
                        let stepped = spec_fold_api(gbefore, mbefore_step, gapi);
                        assert(stepped is Some);
                        assert(globals_view(self.context.api_tree.global_types@)
                            == (stepped->0).0);
                        assert(module@ =~= (stepped->0).1);
                    }
                }
                proof {
                    assert(apis_view(apis@) =~= Seq::<APISchemaV>::empty());
                }

                self.context.api_tree.add_module(category.clone(), module);
            }
            proof {
                assert(subcats_view(subs@) =~= Seq::<(Seq<char>, Seq<APISchemaV>)>::empty());
            }
        }
        proof {
            assert(source_view(src@) =~= Seq::<
                (Seq<char>, Seq<(Seq<char>, Seq<APISchemaV>)>),
            >::empty());
        }
        Ok(())
    }

    /// Lowers the whole input document into the declaration tree, on a
    /// document the lowering is known to accept.
    pub fn parse(&mut self, source: Source)
        requires
            spec_fold_source(
                globals_view(old(self).context.api_tree.global_types@),
                categories_view(old(self).context.api_tree.modules@),
                source_view(source@),
            ) is Some,
        ensures
            Some(
                TreeV {
                    globals: globals_view(final(self).context.api_tree.global_types@),
                    categories: categories_view(final(self).context.api_tree.modules@),
                },
            ) == spec_fold_source(
                globals_view(old(self).context.api_tree.global_types@),
                categories_view(old(self).context.api_tree.modules@),
                source_view(source@),
            ),
    {
        match self.try_parse(source) {
            Ok(_) => {
            },
            Err(_) => {
                proof {
                    assert(false);
                }
            },
        }
    }

    /// Hands the finished tree to the emitter; the tree is read-only from
    /// here on.
    pub fn generate(&self) -> (r: &ParsedAPITree)
        ensures
            r == &self.context.api_tree,
    {
        &self.context.api_tree
    }
}

} // verus!
