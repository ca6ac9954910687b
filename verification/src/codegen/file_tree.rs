//! The output layout: the files the emitter will write, and the module
//! index a directory carries.

use vstd::prelude::*;
use crate::codegen::api::API;
use crate::codegen::structs::Struct;

verus! {

broadcast use vstd::std_specs::vec::group_vec_axioms, vstd::seq::group_seq_axioms;

/// A file of the generated output, able to name itself.
pub trait File {
    fn file_name(&self) -> String;
}

/// The file that collects the shared type declarations.
#[derive(Debug)]
pub struct TypesFile {
    pub types: Vec<Struct>,
}

/// One module file: a subcategory's endpoints.
#[derive(Debug)]
pub struct APIModuleFile {
    pub name: String,
    pub apis: Vec<API>,
}

/// The entry file of a generated crate: the modules it re-exports.
#[derive(Debug)]
pub struct EntryModuleFile {
    pub name: String,
    pub modules: Vec<APIModuleFile>,
}

/// One entry of the tree: a file or a directory.
#[derive(Debug)]
pub enum FileEntry {
    Types(TypesFile),
    APIModule(APIModuleFile),
    Dir(Directory),
}

/// A directory of files; its own index file lists each member as a module.
#[derive(Debug)]
pub struct Directory {
    pub name: String,
    pub files: Vec<FileEntry>,
}

/// The set of files the emitter is asked to write.
#[derive(Debug)]
pub struct FileTree {
    pub files: Vec<FileEntry>,
}

/// The name an entry answers with.
pub open spec fn spec_entry_file_name(e: FileEntry) -> Seq<char> {
    match e {
        FileEntry::Types(_) => "types.rs"@,
        FileEntry::APIModule(f) => f.name@ + ".rs"@,
        FileEntry::Dir(d) => d.name@,
    }
}

/// The index lines of a directory: one `mod` item per member file.
pub open spec fn spec_mod_lines(names: Seq<Seq<char>>) -> Seq<char>
    decreases names.len(),
{
    if names.len() == 0 {
        Seq::empty()
    } else {
        "mod "@ + names[0] + ";\n"@ + spec_mod_lines(names.skip(1))
    }
}

pub open spec fn entry_names(files: Seq<FileEntry>) -> Seq<Seq<char>> {
    Seq::new(
        files.len(),
        |i: int|
            if 0 <= i < files.len() {
                spec_entry_file_name(files[i])
            } else {
                arbitrary()
            },
    )
}

impl File for TypesFile {
    fn file_name(&self) -> String {
        String::from_str("types.rs")
    }
}

impl File for APIModuleFile {
    fn file_name(&self) -> String {
        self.name.clone().concat(".rs")
    }
}

impl File for Directory {
    fn file_name(&self) -> String {
        self.name.clone()
    }
}

impl FileEntry {
    pub fn entry_file_name(&self) -> (r: String)
        ensures
            r@ == spec_entry_file_name(*self),
    {
        proof {
            reveal_strlit("types.rs");
            reveal_strlit(".rs");
        }
        match self {
            FileEntry::Types(_) => String::from_str("types.rs"),
            FileEntry::APIModule(f) => f.name.clone().concat(".rs"),
            FileEntry::Dir(d) => d.name.clone(),
        }
    }
}

impl Directory {
    /// The text of the directory's index file: a `mod` item per member, in
    /// order.
    pub fn mod_file_content(&self) -> (r: String)
        ensures
            r@ == spec_mod_lines(entry_names(self.files@)),
    {
        let ghost names = entry_names(self.files@);
        let mut out = String::new();
        let mut i: usize = 0;
        proof {
            assert(names.skip(0) =~= names);
            assert(Seq::<char>::empty() + spec_mod_lines(names) =~= spec_mod_lines(names));
        }
        while i < self.files.len()
            invariant
                i <= self.files@.len(),
                names.len() == self.files@.len(),
                names == entry_names(self.files@),
                out@ + spec_mod_lines(names.skip(i as int)) == spec_mod_lines(names),
            decreases self.files@.len() - i,
        {
            proof {
                reveal_strlit("mod ");
                reveal_strlit(";\n");
                assert(names.skip(i as int)[0] == names[i as int]);
                assert(names.skip(i as int).skip(1) =~= names.skip(i as int + 1));
            }
            let name = self.files[i].entry_file_name();
            out.append("mod ");
            out.append(name.as_str());
            out.append(";\n");
            i = i + 1;
        }
        proof {
            assert(names.skip(names.len() as int) =~= Seq::<Seq<char>>::empty());
            assert(out@ + Seq::<char>::empty() =~= out@);
        }
        out
    }
}

impl FileTree {
    pub fn new() -> (r: Self)
        ensures
            r.files@.len() == 0,
    {
        Self { files: Vec::new() }
    }

    pub fn add_file(&mut self, file: FileEntry)
        ensures
            final(self).files@ == old(self).files@.push(file),
    {
        self.files.push(file);
    }
}

} // verus!
