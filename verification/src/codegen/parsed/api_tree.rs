//! The declaration tree: category, then subcategory, then module; plus the
//! global table of response declarations.

use vstd::prelude::*;
use std::sync::Arc;
use crate::codegen::parsed::api::{decls_view, parsed_api_view, ParsedAPIModule, ParsedAPIV};
use crate::codegen::structs::{decl_view, Declaration, DeclarationV};

verus! {

broadcast use vstd::std_specs::vec::group_vec_axioms, vstd::seq::group_seq_axioms;

/// Ghost mirror of a module.
#[verifier::ext_equal]
pub ghost struct ParsedAPIModuleV {
    pub name: Seq<char>,
    pub types: Seq<DeclarationV>,
    pub apis: Seq<ParsedAPIV>,
}

pub open spec fn module_view(m: ParsedAPIModule) -> ParsedAPIModuleV {
    ParsedAPIModuleV {
        name: m.name@,
        types: decls_view(m.types@),
        apis: Seq::new(
            m.apis@.len(),
            |i: int|
                if 0 <= i < m.apis@.len() {
                    parsed_api_view(m.apis@[i])
                } else {
                    arbitrary()
                },
        ),
    }
}

impl View for ParsedAPIModule {
    type V = ParsedAPIModuleV;

    open spec fn view(&self) -> ParsedAPIModuleV {
        module_view(*self)
    }
}

/// Registration in an association list: the first entry under the name is
/// overwritten; a fresh name is appended.
pub open spec fn spec_register<T>(
    entries: Seq<(Seq<char>, T)>,
    name: Seq<char>,
    value: T,
) -> Seq<(Seq<char>, T)>
    decreases entries.len(),
{
    if entries.len() == 0 {
        seq![(name, value)]
    } else if entries[0].0 == name {
        seq![(name, value)] + entries.skip(1)
    } else {
        seq![entries[0]] + spec_register(entries.skip(1), name, value)
    }
}

/// Lookup in an association list: the first entry under the name.
pub open spec fn spec_lookup<T>(entries: Seq<(Seq<char>, T)>, name: Seq<char>) -> Option<T>
    decreases entries.len(),
{
    if entries.len() == 0 {
        None
    } else if entries[0].0 == name {
        Some(entries[0].1)
    } else {
        spec_lookup(entries.skip(1), name)
    }
}

/// A later registration under an existing name overwrites the earlier
/// entry: looking the name up afterwards yields the new value.
pub proof fn lemma_register_overwrites<T>(
    entries: Seq<(Seq<char>, T)>,
    name: Seq<char>,
    value: T,
)
    ensures
        spec_lookup(spec_register(entries, name, value), name) == Some(value),
    decreases entries.len(),
{
    if entries.len() == 0 {
        assert(spec_register(entries, name, value)[0] == (name, value));
    } else if entries[0].0 == name {
        assert(spec_register(entries, name, value)[0] == (name, value));
    } else {
        lemma_register_overwrites(entries.skip(1), name, value);
        let r = spec_register(entries, name, value);
        assert(r[0] == entries[0]);
        assert(r.skip(1) =~= spec_register(entries.skip(1), name, value));
    }
}

/// Registration leaves every other name's binding untouched.
pub proof fn lemma_register_preserves_others<T>(
    entries: Seq<(Seq<char>, T)>,
    name: Seq<char>,
    value: T,
    other: Seq<char>,
)
    requires
        other != name,
    ensures
        spec_lookup(spec_register(entries, name, value), other) == spec_lookup(entries, other),
    decreases entries.len(),
{
    if entries.len() == 0 {
        let r = spec_register(entries, name, value);
        assert(r[0] == (name, value));
        assert(r.skip(1) =~= Seq::<(Seq<char>, T)>::empty());
        assert(spec_lookup(Seq::<(Seq<char>, T)>::empty(), other) is None);
        assert(spec_lookup(r, other) is None);
        assert(spec_lookup(entries, other) is None);
    } else if entries[0].0 == name {
        let r = spec_register(entries, name, value);
        assert(r[0] == (name, value));
        assert(r.skip(1) =~= entries.skip(1));
    } else {
        lemma_register_preserves_others(entries.skip(1), name, value, other);
        let r = spec_register(entries, name, value);
        assert(r[0] == entries[0]);
        assert(r.skip(1) =~= spec_register(entries.skip(1), name, value));
    }
}

/// The global-table entries, each declaration by view.
pub open spec fn globals_view(v: Seq<(String, Arc<Declaration>)>) -> Seq<
    (Seq<char>, DeclarationV),
> {
    Seq::new(
        v.len(),
        |i: int|
            if 0 <= i < v.len() {
                (v[i].0@, decl_view(*v[i].1))
            } else {
                arbitrary()
            },
    )
}

/// The category entries, each module list by view.
pub open spec fn categories_view(v: Seq<(String, Vec<ParsedAPIModule>)>) -> Seq<
    (Seq<char>, Seq<ParsedAPIModuleV>),
> {
    Seq::new(
        v.len(),
        |i: int|
            if 0 <= i < v.len() {
                (v[i].0@, modules_view(v[i].1@))
            } else {
                arbitrary()
            },
    )
}

pub open spec fn modules_view(v: Seq<ParsedAPIModule>) -> Seq<ParsedAPIModuleV> {
    Seq::new(
        v.len(),
        |i: int|
            if 0 <= i < v.len() {
                module_view(v[i])
            } else {
                arbitrary()
            },
    )
}

/// The whole declaration tree: the global response table and the two-level
/// category mapping; entries keep their insertion order.
#[derive(Debug)]
pub struct ParsedAPITree {
    pub global_types: Vec<(String, Arc<Declaration>)>,
    pub modules: Vec<(String, Vec<ParsedAPIModule>)>,
}

impl ParsedAPITree {
    pub fn new() -> (r: Self)
        ensures
            r.global_types@.len() == 0,
            r.modules@.len() == 0,
    {
        ParsedAPITree { global_types: Vec::new(), modules: Vec::new() }
    }

    /// Registers a response declaration under its name; a later entry under
    /// the same name overwrites the earlier one.
    pub fn add_global_type(&mut self, name: &String, referable: Declaration)
        ensures
            globals_view(final(self).global_types@) == spec_register(
                globals_view(old(self).global_types@),
                name@,
                decl_view(referable),
            ),
            final(self).modules == old(self).modules,
    {
        self.add_boxed_global_type(name.clone(), Arc::new(referable));
    }

    /// Registers an already shared response declaration under a name.
    pub fn add_boxed_global_type(&mut self, name: String, referable: Arc<Declaration>)
        ensures
            globals_view(final(self).global_types@) == spec_register(
                globals_view(old(self).global_types@),
                name@,
                decl_view(*referable),
            ),
            final(self).modules == old(self).modules,
    {
        let ghost gv = globals_view(self.global_types@);
        let mut i: usize = 0;
        proof {
            assert(gv.skip(0) =~= gv);
        }
        while i < self.global_types.len()
            invariant
                i <= self.global_types@.len(),
                gv.len() == self.global_types@.len(),
                gv == globals_view(self.global_types@),
                self.global_types@ == old(self).global_types@,
                self.modules == old(self).modules,
                forall|j: int| 0 <= j < i ==> gv[j].0 != name@,
            decreases self.global_types@.len() - i,
        {
            proof {
                assert(gv[i as int] == (self.global_types@[i as int].0@, decl_view(
                    *self.global_types@[i as int].1,
                )));
            }
            if self.global_types[i].0 == name {
                let _ = self.global_types.remove(i);
                self.global_types.insert(i, (name, referable));
                proof {
                    lemma_register_at(gv, name@, referable@, i as int);
                    assert(globals_view(self.global_types@) =~= gv.update(
                        i as int,
                        (name@, decl_view(*referable)),
                    ));
                }
                return ;
            }
            i = i + 1;
        }
        proof {
            lemma_register_fresh(gv, name@, referable@);
        }
        let ghost before = globals_view(self.global_types@);
        self.global_types.push((name, referable));
        proof {
            assert(globals_view(self.global_types@) =~= before.push(
                (name@, decl_view(*referable)),
            ));
            assert(before.push((name@, decl_view(*referable))) =~= before + seq![
                (name@, decl_view(*referable)),
            ]);
        }
    }

    /// Registers a module under its category; within one category a later
    /// module under the same name overwrites the earlier one.
    pub fn add_module(&mut self, category: String, module: ParsedAPIModule)
        ensures
            categories_view(final(self).modules@) == spec_register(
                categories_view(old(self).modules@),
                category@,
                spec_register_module(
                    spec_lookup_or_empty(categories_view(old(self).modules@), category@),
                    module@,
                ),
            ),
            final(self).global_types == old(self).global_types,
    {
        let ghost cv = categories_view(self.modules@);
        let ghost gmv = module@;
        let mut i: usize = 0;
        proof {
            assert(cv.skip(0) =~= cv);
        }
        while i < self.modules.len()
            invariant
                i <= self.modules@.len(),
                cv.len() == self.modules@.len(),
                cv == categories_view(self.modules@),
                self.modules@ == old(self).modules@,
                self.global_types == old(self).global_types,
                gmv == module@,
                forall|j: int| 0 <= j < i ==> cv[j].0 != category@,
            decreases self.modules@.len() - i,
        {
            proof {
                assert(cv[i as int] == (self.modules@[i as int].0@, modules_view(
                    self.modules@[i as int].1@,
                )));
            }
            if self.modules[i].0 == category {
                let mut pair = self.modules.remove(i);
                let ghost inner0 = modules_view(pair.1@);
                proof {
                    lemma_lookup_at(cv, category@, i as int);
                    assert(inner0 == spec_lookup_or_empty(cv, category@));
                }
                register_module(&mut pair.1, module);
                let ghost inner1 = modules_view(pair.1@);
                self.modules.insert(i, pair);
                proof {
                    assert(inner1 == spec_register_module(inner0, gmv));
                    lemma_register_at(cv, category@, inner1, i as int);
                    assert(categories_view(self.modules@) =~= cv.update(
                        i as int,
                        (category@, inner1),
                    ));
                }
                return ;
            }
            i = i + 1;
        }
        proof {
            lemma_lookup_none(cv, category@);
        }
        let mut inner: Vec<ParsedAPIModule> = Vec::new();
        let ghost gm = module;
        inner.push(module);
        let ghost before = categories_view(self.modules@);
        self.modules.push((category, inner));
        proof {
            assert(spec_lookup_or_empty(cv, category@) =~= Seq::<ParsedAPIModuleV>::empty());
            assert(spec_register_module(spec_lookup_or_empty(cv, category@), gmv) =~= seq![gmv]);
            lemma_register_fresh(
                cv,
                category@,
                spec_register_module(spec_lookup_or_empty(cv, category@), gmv),
            );
            assert(modules_view(inner@) =~= seq![gmv]);
            assert(categories_view(self.modules@) =~= before.push((category@, seq![gmv])));
            assert(before.push((category@, seq![gmv])) =~= before + seq![(category@, seq![gmv])]);
        }
    }
}

/// The module list under a name, or the empty list when the name is fresh.
pub open spec fn spec_lookup_or_empty(
    entries: Seq<(Seq<char>, Seq<ParsedAPIModuleV>)>,
    name: Seq<char>,
) -> Seq<ParsedAPIModuleV> {
    match spec_lookup(entries, name) {
        Some(ms) => ms,
        None => Seq::empty(),
    }
}

/// Registers a module in a category's list, overwriting by module name.
fn register_module(modules: &mut Vec<ParsedAPIModule>, module: ParsedAPIModule)
    ensures
        modules_view(final(modules)@) == spec_register_module(
            modules_view(old(modules)@),
            module@,
        ),
{
    let ghost mv = modules_view(modules@);
    let ghost gm = module@;
    let mut i: usize = 0;
    proof {
        assert(mv.skip(0) =~= mv);
    }
    while i < modules.len()
        invariant
            i <= modules@.len(),
            mv.len() == modules@.len(),
            mv == modules_view(modules@),
            modules@ == old(modules)@,
            forall|j: int| 0 <= j < i ==> mv[j].name != gm.name,
            gm == module@,
        decreases modules@.len() - i,
    {
        proof {
            assert(mv[i as int] == modules@[i as int]@);
        }
        if modules[i].name == module.name {
            let _ = modules.remove(i);
            modules.insert(i, module);
            proof {
                lemma_register_module_at(mv, gm, i as int);
                assert(modules_view(modules@) =~= mv.update(i as int, gm));
            }
            return ;
        }
        i = i + 1;
    }
    proof {
        lemma_register_module_fresh(mv, gm);
    }
    let ghost before = modules_view(modules@);
    modules.push(module);
    proof {
        assert(modules_view(modules@) =~= before.push(gm));
        assert(before.push(gm) =~= before + seq![gm]);
    }
}

/// Registration of a module in a list, overwriting the first module of the
/// same name; a fresh name is appended.
pub open spec fn spec_register_module(
    modules: Seq<ParsedAPIModuleV>,
    m: ParsedAPIModuleV,
) -> Seq<ParsedAPIModuleV>
    decreases modules.len(),
{
    if modules.len() == 0 {
        seq![m]
    } else if modules[0].name == m.name {
        seq![m] + modules.skip(1)
    } else {
        seq![modules[0]] + spec_register_module(modules.skip(1), m)
    }
}

proof fn lemma_register_at<T>(entries: Seq<(Seq<char>, T)>, name: Seq<char>, value: T, i: int)
    requires
        0 <= i < entries.len(),
        entries[i].0 == name,
        forall|j: int| 0 <= j < i ==> entries[j].0 != name,
    ensures
        spec_register(entries, name, value) == entries.update(i, (name, value)),
    decreases i,
{
    if i == 0 {
        assert(spec_register(entries, name, value) =~= entries.update(0, (name, value)));
    } else {
        assert(entries[0].0 != name);
        assert(forall|j: int| 0 <= j < i - 1 ==> entries.skip(1)[j].0 != name);
        assert(entries.skip(1)[i - 1].0 == name);
        lemma_register_at(entries.skip(1), name, value, i - 1);
        assert(spec_register(entries, name, value) =~= entries.update(i, (name, value)));
    }
}

proof fn lemma_register_fresh<T>(entries: Seq<(Seq<char>, T)>, name: Seq<char>, value: T)
    requires
        forall|j: int| 0 <= j < entries.len() ==> entries[j].0 != name,
    ensures
        spec_register(entries, name, value) == entries + seq![(name, value)],
    decreases entries.len(),
{
    if entries.len() == 0 {
        assert(spec_register(entries, name, value) =~= entries + seq![(name, value)]);
    } else {
        assert(forall|j: int|
            0 <= j < entries.skip(1).len() ==> entries.skip(1)[j].0 != name);
        lemma_register_fresh(entries.skip(1), name, value);
        assert(spec_register(entries, name, value) =~= entries + seq![(name, value)]);
    }
}

proof fn lemma_lookup_at<T>(entries: Seq<(Seq<char>, T)>, name: Seq<char>, i: int)
    requires
        0 <= i < entries.len(),
        entries[i].0 == name,
        forall|j: int| 0 <= j < i ==> entries[j].0 != name,
    ensures
        spec_lookup(entries, name) == Some(entries[i].1),
    decreases i,
{
    if i > 0 {
        assert(forall|j: int| 0 <= j < i - 1 ==> entries.skip(1)[j].0 != name);
        assert(entries.skip(1)[i - 1].0 == name);
        lemma_lookup_at(entries.skip(1), name, i - 1);
    }
}

proof fn lemma_lookup_none<T>(entries: Seq<(Seq<char>, T)>, name: Seq<char>)
    requires
        forall|j: int| 0 <= j < entries.len() ==> entries[j].0 != name,
    ensures
        spec_lookup(entries, name) is None,
    decreases entries.len(),
{
    if entries.len() > 0 {
        assert(forall|j: int|
            0 <= j < entries.skip(1).len() ==> entries.skip(1)[j].0 != name);
        lemma_lookup_none(entries.skip(1), name);
    }
}

proof fn lemma_register_module_at(modules: Seq<ParsedAPIModuleV>, m: ParsedAPIModuleV, i: int)
    requires
        0 <= i < modules.len(),
        modules[i].name == m.name,
        forall|j: int| 0 <= j < i ==> modules[j].name != m.name,
    ensures
        spec_register_module(modules, m) == modules.update(i, m),
    decreases i,
{
    if i == 0 {
        assert(spec_register_module(modules, m) =~= modules.update(0, m));
    } else {
        assert(modules[0].name != m.name);
        assert(forall|j: int| 0 <= j < i - 1 ==> modules.skip(1)[j].name != m.name);
        assert(modules.skip(1)[i - 1].name == m.name);
        lemma_register_module_at(modules.skip(1), m, i - 1);
        assert(spec_register_module(modules, m) =~= modules.update(i, m));
    }
}

proof fn lemma_register_module_fresh(modules: Seq<ParsedAPIModuleV>, m: ParsedAPIModuleV)
    requires
        forall|j: int| 0 <= j < modules.len() ==> modules[j].name != m.name,
    ensures
        spec_register_module(modules, m) == modules + seq![m],
    decreases modules.len(),
{
    if modules.len() == 0 {
        assert(spec_register_module(modules, m) =~= modules + seq![m]);
    } else {
        assert(forall|j: int|
            0 <= j < modules.skip(1).len() ==> modules.skip(1)[j].name != m.name);
        lemma_register_module_fresh(modules.skip(1), m);
        assert(spec_register_module(modules, m) =~= modules + seq![m]);
    }
}

} // verus!
