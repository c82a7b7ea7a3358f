//! The generator for Dioxus clients.

use vstd::prelude::*;
use crate::hooks_file::{
    generate_dioxus_hooks, hooks_defined, module_hooks_text, HOOKS_FILENAME,
};
use crate::laws::registration::law_global_files_keep_the_others;
use crate::output::{OutputFile, OutputFileView};
use crate::reducer_file::{
    generate_reducer_file_with_aliases, reducer_file_text, reducer_file_view, reducer_filename,
};
use crate::refs::param_refs;
use crate::schema::{CodegenVisibility, ModuleDef, ReducerDef};
use crate::search::{find, first_occurrence};
use crate::text::views;

verus! {

/// The name of the file that declares the generated modules.
pub const MODULE_FILENAME: &'static str = "mod.rs";

/// How the first declaration of a public module is found.
pub const MODULE_DECLARATION: &'static str = "\npub mod ";

/// What declares the module with the hooks.
pub const HOOKS_DECLARATION: &'static str = "\npub mod dioxus;\n";

/// `code` with the module of the hooks declared before the first other public module, or as it
/// is where it declares none.
pub open spec fn registered_text(code: Seq<char>) -> Seq<char> {
    match first_occurrence(code, MODULE_DECLARATION@) {
        Some(i) => code.take(i) + HOOKS_DECLARATION@ + code.skip(i),
        None => code,
    }
}

/// The first file that is called `name`, if there is any.
pub open spec fn first_named(files: Seq<OutputFileView>, name: Seq<char>) -> Option<int> {
    files.map_values(|f: OutputFileView| f.filename).index_of_first(name)
}

/// `files` with the module of the hooks declared in the first file called `mod.rs`.
pub open spec fn registered_files(files: Seq<OutputFileView>) -> Seq<OutputFileView> {
    match first_named(files, MODULE_FILENAME@) {
        Some(i) => files.update(
            i,
            OutputFileView {
                filename: files[i].filename,
                code: registered_text(files[i].code),
            },
        ),
        None => files,
    }
}

/// The file with the hooks for `module`.
pub open spec fn hooks_file_view(
    header: Seq<char>,
    module: ModuleDef,
    visibility: CodegenVisibility,
) -> OutputFileView {
    OutputFileView {
        filename: HOOKS_FILENAME@,
        code: module_hooks_text(header, module, visibility),
    }
}

/// Declares the module of the hooks before the first other public module.
pub fn register_hooks(code: &str) -> (registered: String)
    ensures
        registered@ == registered_text(code@),
{
    match find(code, MODULE_DECLARATION) {
        Some(pos) => {
            let mut registered = String::from_str(code.substring_char(0, pos));
            registered.append(HOOKS_DECLARATION);
            registered.append(code.substring_char(pos, code.unicode_len()));
            registered
        },
        None => code.to_owned(),
    }
}

/// Finds the first file that is called `name`.
fn find_named(files: &Vec<OutputFile>, name: &str) -> (found: Option<usize>)
    ensures
        match found {
            Some(i) => i < files@.len() && first_named(views(files@), name@) == Some(i as int),
            None => first_named(views(files@), name@) is None,
        },
{
    let wanted = name.to_owned();
    let ghost names = views(files@).map_values(|f: OutputFileView| f.filename);
    proof {
        names.index_of_first_ensures(name@);
    }
    for i in 0..files.len()
        invariant
            wanted@ == name@,
            names == views(files@).map_values(|f: OutputFileView| f.filename),
            names.len() == files@.len(),
            forall|j: int| 0 <= j < i ==> names[j] != name@,
            first_named(views(files@), name@) == names.index_of_first(name@),
            match names.index_of_first(name@) {
                Some(index) => 0 <= index < names.len() && names[index] == name@ && forall|j: int|
                    0 <= j < index ==> names[j] != name@,
                None => !names.contains(name@),
            },
    {
        assert(names[i as int] == files@[i as int].filename@);
        if files[i].filename == wanted {
            assert(names.contains(name@));
            return Some(i);
        }
    }
    None
}

/// What shapes the generated code.
#[derive(Clone, Copy, Debug)]
pub struct CodegenOptions {
    /// Which declarations code is generated for.
    pub visibility: CodegenVisibility,
}

/// Generates client code with signals and hooks for Dioxus.
pub struct Dioxus;

impl Dioxus {
    /// Generates the file for `reducer`, which starts with `header`.
    pub fn generate_reducer_file(
        &self,
        module: &ModuleDef,
        reducer: &ReducerDef,
        header: &str,
    ) -> (file: OutputFile)
        requires
            module.defines(param_refs(reducer.params_for_generate@)),
        ensures
            file.filename@ == reducer_filename(*reducer),
            header@.is_prefix_of(file.code@),
            file.code@ == reducer_file_text(header@, reducer_file_view(*module, *reducer)),
    {
        generate_reducer_file_with_aliases(module, reducer, header)
    }

    /// Adds the file with the hooks, which starts with `header`, to the `files` that the
    /// generator for plain Rust clients made of the whole module, and declares it as a module.
    pub fn generate_global_files(
        &self,
        module: &ModuleDef,
        options: &CodegenOptions,
        header: &str,
        files: Vec<OutputFile>,
    ) -> (all: Vec<OutputFile>)
        requires
            hooks_defined(*module, options.visibility),
        ensures
            views(all@) == registered_files(
                views(files@).push(hooks_file_view(header@, *module, options.visibility)),
            ),
            all@.len() == files@.len() + 1,
            all@.last().filename@ == "dioxus.rs"@,
            all@.last().code@ == module_hooks_text(header@, *module, options.visibility),
            forall|i: int|
                0 <= i < files@.len() ==> (#[trigger] all@[i]).filename@ == files@[i].filename@
                    && (files@[i].filename@ != "mod.rs"@ ==> all@[i].code@ == files@[i].code@),
    {
        let mut all = files;
        all.push(generate_dioxus_hooks(module, options.visibility, header));
        let ghost before = views(all@);
        assert(before =~= views(files@).push(
            hooks_file_view(header@, *module, options.visibility),
        ));
        if let Some(i) = find_named(&all, MODULE_FILENAME) {
            let code = register_hooks(all[i].code.as_str());
            let filename = all[i].filename.clone();
            all.set(i, OutputFile { filename, code });
            assert(views(all@) =~= registered_files(before));
        }
        proof {
            law_global_files_keep_the_others(
                header@,
                *module,
                options.visibility,
                views(files@),
            );
            assert forall|i: int| 0 <= i < all@.len() implies views(all@)[i] == #[trigger] all@[i]@ by {
            }
            assert(views(all@).last() == all@.last()@);
            assert forall|i: int| 0 <= i < files@.len() implies (#[trigger] all@[i]).filename@
                == files@[i].filename@ && (files@[i].filename@ != "mod.rs"@ ==> all@[i].code@
                == files@[i].code@) by {
                assert(views(files@)[i] == files@[i]@);
                assert(views(all@)[i] == all@[i]@);
            }
        }
        all
    }
}

} // verus!
