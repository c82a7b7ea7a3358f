//! The file for one reducer: the struct that wraps its arguments, and the extension trait through
//! which client code invokes it.
//!
//! The wrapper struct is called after the reducer, so a type that the reducer's parameters mention
//! can have the same name. Such a type is imported under an alias, which no other import binds, and
//! goes by it in the file.

use vstd::prelude::*;
use std::collections::HashMap;
use crate::casing::{case_converted, pascal, snake, to_case, Case};
use crate::args::{
    arg_names, arg_names_text, arglist, arglist_text, args_type_name, args_type_text, leading_args,
    leading_args_text, Arg, ArgView,
};
use crate::output::OutputFile;
use crate::refs::{collect_refs, in_order, lemma_param_refs_contain, param_refs};
use crate::schema::{AlgebraicTypeRef, ModuleDef, ParamDef, ReducerDef};
use crate::text::{
    concat_map, lemma_concat_map_none, lemma_concat_map_step, lemma_prefix_append,
    lemma_prefix_itself, texts, views,
};
use crate::types::{
    alias_texts, get_type_module_name, renderable, type_module_text, type_ref_name, type_ref_text,
    type_text, write_type_to_string,
};

verus! {

/// A type that the file imports.
#[derive(Debug)]
pub struct Import {
    /// The module that defines the type.
    pub module_name: String,
    /// The type's name in that module.
    pub name: String,
    /// The name that the file uses for it instead, if any.
    pub alias: Option<String>,
}

/// The texts of an [`Import`].
#[verifier::ext_equal]
pub struct ImportView {
    pub module_name: Seq<char>,
    pub name: Seq<char>,
    pub alias: Option<Seq<char>>,
}

impl View for Import {
    type V = ImportView;

    open spec fn view(&self) -> ImportView {
        ImportView {
            module_name: self.module_name@,
            name: self.name@,
            alias: match self.alias {
                Some(alias) => Some(alias@),
                None => None,
            },
        }
    }
}

impl ImportView {
    /// The name that the import brings into the scope of the file.
    pub open spec fn bound_name(self) -> Seq<char> {
        match self.alias {
            Some(alias) => alias,
            None => self.name,
        }
    }
}

/// What a reducer's file is made of.
#[derive(Debug)]
pub struct ReducerFile {
    /// The reducer's name as declared in the module
    pub reducer_name: String,
    /// snake_case accessor name: the extension trait and its method
    pub func_name: String,
    /// PascalCase accessor name: the variant of the reducer enum
    pub variant_name: String,
    /// The types that the arguments mention
    pub imports: Vec<Import>,
    /// The arguments
    pub args: Vec<Arg>,
}

/// The texts of a [`ReducerFile`].
#[verifier::ext_equal]
pub struct ReducerFileView {
    pub reducer_name: Seq<char>,
    pub func_name: Seq<char>,
    pub variant_name: Seq<char>,
    pub imports: Seq<ImportView>,
    pub args: Seq<ArgView>,
}

impl View for ReducerFile {
    type V = ReducerFileView;

    open spec fn view(&self) -> ReducerFileView {
        ReducerFileView {
            reducer_name: self.reducer_name@,
            func_name: self.func_name@,
            variant_name: self.variant_name@,
            imports: views(self.imports@),
            args: views(self.args@),
        }
    }
}

/// What follows the header of every reducer file.
pub const FILE_PRELUDE: &'static str = "#![allow(unused, clippy::all)]
use spacetimedb_sdk::__codegen::{
    self as __sdk,
    __lib,
    __sats,
    __ws,
};

";

/// What stands between the imports and the wrapper struct.
pub const STRUCT_ATTRIBUTES: &'static str = "
#[derive(__lib::ser::Serialize, __lib::de::Deserialize, Clone, PartialEq, Debug)]
#[sats(crate = __lib)]
";

/// The documentation of the fire-and-forget method, up to the line that names the other one.
pub const METHOD_DOC: &'static str = "    ///
    /// This method returns immediately, and errors only if we are unable to send the request.
    /// The reducer will run asynchronously in the future,
    ///  and this method provides no way to listen for its completion status.
    ///
";

/// The documentation of the method with a callback, after the line that names the reducer.
pub const THEN_METHOD_DOC: &'static str = "    /// registering `callback` to run when we are notified that the reducer completed.
    ///
    /// This method returns immediately, and errors only if we are unable to send the request.
    /// The reducer will run asynchronously in the future,
    ///  and its status can be observed with the `callback`.
";

/// The `callback` parameter.
pub const CALLBACK_PARAM: &'static str = "        callback: impl FnOnce(&super::ReducerEventContext, Result<Result<(), String>, __sdk::InternalError>)
            + Send
            + 'static,
";

/// One import.
pub open spec fn import_text(i: ImportView) -> Seq<char> {
    match i.alias {
        Some(alias) => "use super::"@ + i.module_name + "::"@ + i.name + " as "@ + alias + ";\n"@,
        None => "use super::"@ + i.module_name + "::"@ + i.name + ";\n"@,
    }
}

/// One field of the wrapper struct.
pub open spec fn field_text(a: ArgView) -> Seq<char> {
    "    pub "@ + a.name + ": "@ + a.ty + ",\n"@
}

/// One field of the variant, taken from the wrapper struct.
pub open spec fn moved_field_text(a: ArgView) -> Seq<char> {
    "            "@ + a.name + ": args."@ + a.name + ",\n"@
}

/// The fields of the variant, which has a body only if there is one.
pub open spec fn moved_fields_text(args: Seq<ArgView>) -> Seq<char> {
    if args.len() == 0 {
        Seq::empty()
    } else {
        " {\n"@ + concat_map(args, |a: ArgView| moved_field_text(a)) + "        }\n"@
    }
}

/// The line that holds the parameters, if there are any.
pub open spec fn arglist_line_text(args: Seq<ArgView>) -> Seq<char> {
    if arglist_text(args).len() == 0 {
        Seq::empty()
    } else {
        "        "@ + arglist_text(args) + ",\n"@
    }
}

/// The wrapper struct that holds the arguments of one invocation.
pub open spec fn wrapper_struct_text(f: ReducerFileView) -> Seq<char> {
    "pub(super) struct "@ + args_type_text(f.variant_name) + " {\n"@
        + concat_map(f.args, |a: ArgView| field_text(a))
        + "}\n"@
        + "\n"@
}

/// The conversion of the wrapper struct into the variant of the reducer.
pub open spec fn from_impl_text(f: ReducerFileView) -> Seq<char> {
    "impl From<"@ + args_type_text(f.variant_name) + "> for super::Reducer {\n"@
        + "    fn from(args: "@ + args_type_text(f.variant_name) + ") -> Self {\n"@
        + "        Self::"@ + f.variant_name + moved_fields_text(f.args)
        + "    }\n"@
        + "}\n"@
        + "\n"@
}

/// What ties the wrapper struct to the module.
pub open spec fn in_module_impl_text(f: ReducerFileView) -> Seq<char> {
    "impl __sdk::InModule for "@ + args_type_text(f.variant_name) + " {\n"@
        + "    type Module = super::RemoteModule;\n"@
        + "}\n"@
        + "\n"@
}

/// The extension trait through which client code invokes the reducer.
pub open spec fn extension_trait_text(f: ReducerFileView) -> Seq<char> {
    "#[allow(non_camel_case_types)]\n"@
        + "/// Extension trait for access to the reducer `"@ + f.reducer_name + "`.\n"@
        + "///\n"@
        + "/// Implemented for [`super::RemoteReducers`].\n"@
        + "pub trait "@ + f.func_name + " {\n"@
        + "    /// Request that the remote module invoke the reducer `"@ + f.reducer_name + "` to run as soon as possible.\n"@
        + METHOD_DOC@
        + "    /// Use [`"@ + f.func_name + "::"@ + f.func_name + "_then`] to run a callback after the reducer completes.\n"@
        + "    fn "@ + f.func_name + "(&self, "@ + arglist_text(f.args) + ") -> __sdk::Result<()> {\n"@
        + "        self."@ + f.func_name + "_then("@ + leading_args_text(arg_names_text(f.args)) + "|_, _| {})\n"@
        + "    }\n"@
        + "\n"@
        + "    /// Request that the remote module invoke the reducer `"@ + f.reducer_name + "` to run as soon as possible,\n"@
        + THEN_METHOD_DOC@
        + "    fn "@ + f.func_name + "_then(\n"@
        + "        &self,\n"@
        + arglist_line_text(f.args)
        + CALLBACK_PARAM@
        + "    ) -> __sdk::Result<()>;\n"@
        + "}\n"@
        + "\n"@
}

/// The implementation of the extension trait.
pub open spec fn trait_impl_text(f: ReducerFileView) -> Seq<char> {
    "impl "@ + f.func_name + " for super::RemoteReducers {\n"@
        + "    fn "@ + f.func_name + "_then(\n"@
        + "        &self,\n"@
        + arglist_line_text(f.args)
        + CALLBACK_PARAM@
        + "    ) -> __sdk::Result<()> {\n"@
        + "        self.imp.invoke_reducer_with_callback("@ + args_type_text(f.variant_name) + " { "@ + arg_names_text(f.args) + " }, callback)\n"@
        + "    }\n"@
        + "}\n"@
}

/// The file for one reducer.
pub open spec fn reducer_file_text(header: Seq<char>, f: ReducerFileView) -> Seq<char> {
    header + FILE_PRELUDE@ + concat_map(f.imports, |i: ImportView| import_text(i))
        + STRUCT_ATTRIBUTES@ + wrapper_struct_text(f) + from_impl_text(f) + in_module_impl_text(f)
        + extension_trait_text(f) + trait_impl_text(f)
}

/// The length of the longest of `names`.
pub open spec fn longest(names: Seq<Seq<char>>) -> nat
    decreases names.len(),
{
    if names.len() == 0 {
        0
    } else if names.last().len() > longest(names.drop_last()) {
        names.last().len()
    } else {
        longest(names.drop_last())
    }
}

/// None of `names` is longer than the longest.
pub proof fn lemma_longest(names: Seq<Seq<char>>, name: Seq<char>)
    requires
        names.contains(name),
    ensures
        name.len() <= longest(names),
    decreases names.len(),
{
    if names.last() != name {
        let i = choose|i: int| 0 <= i < names.len() && names[i] == name;
        assert(names.drop_last()[i] == name);
        lemma_longest(names.drop_last(), name);
    }
}

/// How much longer `candidate` can get before it is longer than each of `names`.
pub open spec fn room(candidate: Seq<char>, names: Seq<Seq<char>>) -> nat {
    if candidate.len() > longest(names) {
        0
    } else {
        (longest(names) + 1 - candidate.len()) as nat
    }
}

/// Appending to a candidate that is one of `names` leaves less room.
pub proof fn lemma_room(candidate: Seq<char>, names: Seq<Seq<char>>)
    requires
        names.contains(candidate),
    ensures
        room(candidate + "Type"@, names) < room(candidate, names),
{
    reveal_strlit("Type");
    lemma_longest(names, candidate);
}

/// `candidate`, with "Type" appended until it is none of `names`.
pub open spec fn fresh_name(candidate: Seq<char>, names: Seq<Seq<char>>) -> Seq<char>
    decreases room(candidate, names),
{
    if names.contains(candidate) {
        proof {
            lemma_room(candidate, names);
        }
        fresh_name(candidate + "Type"@, names)
    } else {
        candidate
    }
}

/// A fresh name is none of `names`, and is at least as long as the candidate.
pub proof fn lemma_fresh_name(candidate: Seq<char>, names: Seq<Seq<char>>)
    ensures
        !names.contains(fresh_name(candidate, names)),
        fresh_name(candidate, names).len() >= candidate.len(),
    decreases room(candidate, names),
{
    if names.contains(candidate) {
        lemma_room(candidate, names);
        lemma_fresh_name(candidate + "Type"@, names);
    }
}

/// The alias for a type called `name` in a file that gives the name `taken` to something else and
/// imports types called `names`.
pub open spec fn alias_text(
    name: Seq<char>,
    taken: Seq<char>,
    names: Seq<Seq<char>>,
) -> Option<Seq<char>> {
    if name == taken {
        Some(fresh_name(name + "Type"@, names))
    } else {
        None
    }
}

/// The names of the types that `refs` refer to.
pub open spec fn type_names(module: ModuleDef, refs: Seq<AlgebraicTypeRef>) -> Seq<Seq<char>> {
    refs.map_values(|r: AlgebraicTypeRef| type_ref_text(module, r))
}

/// The import of the type that `r` refers to, in a file that imports types called `names`.
pub open spec fn import_view(
    module: ModuleDef,
    r: AlgebraicTypeRef,
    taken: Seq<char>,
    names: Seq<Seq<char>>,
) -> ImportView {
    ImportView {
        module_name: type_module_text(module, r),
        name: type_ref_text(module, r),
        alias: alias_text(type_ref_text(module, r), taken, names),
    }
}

/// The aliases of those types of `refs` that need one, in a file that imports types called
/// `names`.
pub open spec fn alias_map(
    module: ModuleDef,
    refs: Set<AlgebraicTypeRef>,
    taken: Seq<char>,
    names: Seq<Seq<char>>,
) -> Map<AlgebraicTypeRef, Seq<char>> {
    Map::new(
        |r: AlgebraicTypeRef| refs.contains(r) && type_ref_text(module, r) == taken,
        |r: AlgebraicTypeRef| fresh_name(type_ref_text(module, r) + "Type"@, names),
    )
}

/// A parameter as the reducer's file spells it.
pub open spec fn file_arg_view(
    module: ModuleDef,
    param: ParamDef,
    aliases: Map<AlgebraicTypeRef, Seq<char>>,
) -> ArgView {
    ArgView { name: snake(param.name@), ty: type_text(module, param.ty, aliases) }
}

/// What the file of `reducer` is made of.
pub open spec fn reducer_file_view(module: ModuleDef, reducer: ReducerDef) -> ReducerFileView {
    let refs = param_refs(reducer.params_for_generate@);
    let variant_name = pascal(reducer.accessor_name@);
    let taken = args_type_text(variant_name);
    let names = type_names(module, in_order(refs));
    let aliases = alias_map(module, refs, taken, names);
    ReducerFileView {
        reducer_name: reducer.name@,
        func_name: snake(reducer.accessor_name@),
        variant_name,
        imports: in_order(refs).map_values(
            |r: AlgebraicTypeRef| import_view(module, r, taken, names),
        ),
        args: reducer.params_for_generate@.map_values(
            |p: ParamDef| file_arg_view(module, p, aliases),
        ),
    }
}

fn import_line(i: &Import) -> (text: String)
    ensures
        text@ == import_text(i@),
{
    let mut text = String::from_str("use super::");
    text.append(i.module_name.as_str());
    text.append("::");
    text.append(i.name.as_str());
    if let Some(alias) = &i.alias {
        text.append(" as ");
        text.append(alias.as_str());
    }
    text.append(";\n");
    text
}

#[verifier::loop_isolation(false)]
fn import_lines(imports: &Vec<Import>) -> (text: String)
    ensures
        text@ == concat_map(views(imports@), |i: ImportView| import_text(i)),
{
    let mut text = String::new();
    let ghost all = views(imports@);
    let ghost one = |i: ImportView| import_text(i);
    proof {
        lemma_concat_map_none(all, one);
    }
    for i in 0..imports.len()
        invariant
            text@ == concat_map(all.take(i as int), one),
    {
        text.append(import_line(&imports[i]).as_str());
        proof {
            lemma_concat_map_step(all, i as int, one);
        }
    }
    assert(all.take(imports@.len() as int) =~= all);
    text
}

fn field_line(a: &Arg) -> (text: String)
    ensures
        text@ == field_text(a@),
{
    let mut text = String::from_str("    pub ");
    text.append(a.name.as_str());
    text.append(": ");
    text.append(a.ty.as_str());
    text.append(",\n");
    text
}

#[verifier::loop_isolation(false)]
fn struct_fields(args: &Vec<Arg>) -> (text: String)
    ensures
        text@ == concat_map(views(args@), |a: ArgView| field_text(a)),
{
    let mut text = String::new();
    let ghost all = views(args@);
    let ghost one = |a: ArgView| field_text(a);
    proof {
        lemma_concat_map_none(all, one);
    }
    for i in 0..args.len()
        invariant
            text@ == concat_map(all.take(i as int), one),
    {
        text.append(field_line(&args[i]).as_str());
        proof {
            lemma_concat_map_step(all, i as int, one);
        }
    }
    assert(all.take(args@.len() as int) =~= all);
    text
}

fn moved_field(a: &Arg) -> (text: String)
    ensures
        text@ == moved_field_text(a@),
{
    let mut text = String::from_str("            ");
    text.append(a.name.as_str());
    text.append(": args.");
    text.append(a.name.as_str());
    text.append(",\n");
    text
}

#[verifier::loop_isolation(false)]
fn moved_fields(args: &Vec<Arg>) -> (text: String)
    ensures
        text@ == moved_fields_text(views(args@)),
{
    let mut lines = String::new();
    let ghost all = views(args@);
    let ghost one = |a: ArgView| moved_field_text(a);
    proof {
        lemma_concat_map_none(all, one);
    }
    for i in 0..args.len()
        invariant
            lines@ == concat_map(all.take(i as int), one),
    {
        lines.append(moved_field(&args[i]).as_str());
        proof {
            lemma_concat_map_step(all, i as int, one);
        }
    }
    assert(all.take(args@.len() as int) =~= all);
    if args.len() == 0 {
        return String::new();
    }
    let mut text = String::from_str(" {\n");
    text.append(lines.as_str());
    text.append("        }\n");
    text
}

fn arglist_line(args: &Vec<Arg>) -> (text: String)
    ensures
        text@ == arglist_line_text(views(args@)),
{
    let list = arglist(args);
    if list.as_str().is_empty() {
        return String::new();
    }
    let mut text = String::from_str("        ");
    text.append(list.as_str());
    text.append(",\n");
    text
}

fn wrapper_struct(f: &ReducerFile) -> (text: String)
    ensures
        text@ == wrapper_struct_text(f@),
{
    let mut text = String::from_str("pub(super) struct ");
    text.append(args_type_name(f.variant_name.as_str()).as_str());
    text.append(" {\n");
    text.append(struct_fields(&f.args).as_str());
    text.append("}\n");
    text.append("\n");
    text
}

fn from_impl(f: &ReducerFile) -> (text: String)
    ensures
        text@ == from_impl_text(f@),
{
    let mut text = String::from_str("impl From<");
    text.append(args_type_name(f.variant_name.as_str()).as_str());
    text.append("> for super::Reducer {\n");
    text.append("    fn from(args: ");
    text.append(args_type_name(f.variant_name.as_str()).as_str());
    text.append(") -> Self {\n");
    text.append("        Self::");
    text.append(f.variant_name.as_str());
    text.append(moved_fields(&f.args).as_str());
    text.append("    }\n");
    text.append("}\n");
    text.append("\n");
    text
}

fn in_module_impl(f: &ReducerFile) -> (text: String)
    ensures
        text@ == in_module_impl_text(f@),
{
    let mut text = String::from_str("impl __sdk::InModule for ");
    text.append(args_type_name(f.variant_name.as_str()).as_str());
    text.append(" {\n");
    text.append("    type Module = super::RemoteModule;\n");
    text.append("}\n");
    text.append("\n");
    text
}

fn extension_trait(f: &ReducerFile) -> (text: String)
    ensures
        text@ == extension_trait_text(f@),
{
    let mut text = String::from_str("#[allow(non_camel_case_types)]\n");
    text.append("/// Extension trait for access to the reducer `");
    text.append(f.reducer_name.as_str());
    text.append("`.\n");
    text.append("///\n");
    text.append("/// Implemented for [`super::RemoteReducers`].\n");
    text.append("pub trait ");
    text.append(f.func_name.as_str());
    text.append(" {\n");
    text.append("    /// Request that the remote module invoke the reducer `");
    text.append(f.reducer_name.as_str());
    text.append("` to run as soon as possible.\n");
    text.append(METHOD_DOC);
    text.append("    /// Use [`");
    text.append(f.func_name.as_str());
    text.append("::");
    text.append(f.func_name.as_str());
    text.append("_then`] to run a callback after the reducer completes.\n");
    text.append("    fn ");
    text.append(f.func_name.as_str());
    text.append("(&self, ");
    text.append(arglist(&f.args).as_str());
    text.append(") -> __sdk::Result<()> {\n");
    text.append("        self.");
    text.append(f.func_name.as_str());
    text.append("_then(");
    text.append(leading_args(arg_names(&f.args).as_str()).as_str());
    text.append("|_, _| {})\n");
    text.append("    }\n");
    text.append("\n");
    text.append("    /// Request that the remote module invoke the reducer `");
    text.append(f.reducer_name.as_str());
    text.append("` to run as soon as possible,\n");
    text.append(THEN_METHOD_DOC);
    text.append("    fn ");
    text.append(f.func_name.as_str());
    text.append("_then(\n");
    text.append("        &self,\n");
    text.append(arglist_line(&f.args).as_str());
    text.append(CALLBACK_PARAM);
    text.append("    ) -> __sdk::Result<()>;\n");
    text.append("}\n");
    text.append("\n");
    text
}

fn trait_impl(f: &ReducerFile) -> (text: String)
    ensures
        text@ == trait_impl_text(f@),
{
    let mut text = String::from_str("impl ");
    text.append(f.func_name.as_str());
    text.append(" for super::RemoteReducers {\n");
    text.append("    fn ");
    text.append(f.func_name.as_str());
    text.append("_then(\n");
    text.append("        &self,\n");
    text.append(arglist_line(&f.args).as_str());
    text.append(CALLBACK_PARAM);
    text.append("    ) -> __sdk::Result<()> {\n");
    text.append("        self.imp.invoke_reducer_with_callback(");
    text.append(args_type_name(f.variant_name.as_str()).as_str());
    text.append(" { ");
    text.append(arg_names(&f.args).as_str());
    text.append(" }, callback)\n");
    text.append("    }\n");
    text.append("}\n");
    text
}

/// A reducer's file starts with the header.
proof fn lemma_file_starts_with_header(header: Seq<char>, f: ReducerFileView)
    ensures
        header.is_prefix_of(reducer_file_text(header, f)),
{
    broadcast use lemma_prefix_append;

    lemma_prefix_itself(header);
}

/// The text of a reducer's file, which starts with `header`.
pub fn render_reducer_file(header: &str, f: &ReducerFile) -> (code: String)
    ensures
        code@ == reducer_file_text(header@, f@),
        header@.is_prefix_of(code@),
{
    let mut code = String::from_str(header);
    code.append(FILE_PRELUDE);
    code.append(import_lines(&f.imports).as_str());
    code.append(STRUCT_ATTRIBUTES);
    code.append(wrapper_struct(f).as_str());
    code.append(from_impl(f).as_str());
    code.append(in_module_impl(f).as_str());
    code.append(extension_trait(f).as_str());
    code.append(trait_impl(f).as_str());
    proof {
        lemma_file_starts_with_header(header@, f@);
    }
    code
}

/// Whether `name` is one of `names`.
fn is_among(name: &String, names: &Vec<String>) -> (among: bool)
    ensures
        among == texts(names@).contains(name@),
{
    for i in 0..names.len()
        invariant
            forall|j: int| 0 <= j < i ==> texts(names@)[j] != name@,
    {
        assert(texts(names@)[i as int] == names@[i as int]@);
        if names[i] == *name {
            return true;
        }
    }
    false
}

/// Appends "Type" to `candidate` until it is none of `names`.
pub fn freshen(candidate: String, names: &Vec<String>) -> (fresh: String)
    ensures
        fresh@ == fresh_name(candidate@, texts(names@)),
{
    let mut fresh = candidate;
    while is_among(&fresh, names)
        invariant
            fresh_name(fresh@, texts(names@)) == fresh_name(candidate@, texts(names@)),
        decreases room(fresh@, texts(names@)),
    {
        proof {
            lemma_room(fresh@, texts(names@));
        }
        fresh.append("Type");
    }
    fresh
}

/// The import of a type called `name` in a file that imports types called `names`, under an alias
/// if `name` is also the name `taken`.
pub fn import_of(module_name: String, name: String, taken: &str, names: &Vec<String>) -> (import:
    Import)
    ensures
        import@ == (ImportView {
            module_name: module_name@,
            name: name@,
            alias: alias_text(name@, taken@, texts(names@)),
        }),
{
    let alias = if name == taken.to_owned() {
        let mut alias = name.clone();
        alias.append("Type");
        Some(freshen(alias, names))
    } else {
        None
    };
    Import { module_name, name, alias }
}

/// The names of the types that `refs` refer to.
fn type_ref_names(module: &ModuleDef, refs: &Vec<AlgebraicTypeRef>) -> (names: Vec<String>)
    requires
        module.defines(refs@.to_set()),
    ensures
        texts(names@) == type_names(*module, refs@),
{
    let mut names: Vec<String> = Vec::new();
    for i in 0..refs.len()
        invariant
            module.defines(refs@.to_set()),
            names@.len() == i,
            forall|j: int| 0 <= j < i ==> #[trigger] names@[j]@ == type_ref_text(*module, refs@[j]),
    {
        assert(refs@.to_set().contains(refs@[i as int]));
        names.push(type_ref_name(module, refs[i]));
    }
    assert(texts(names@) =~= type_names(*module, refs@));
    names
}

/// The imports of the types `refs`, and the aliases of those that go by one.
#[verifier::loop_isolation(false)]
fn plan_imports(module: &ModuleDef, refs: &Vec<AlgebraicTypeRef>, taken: &str) -> (plan: (
    Vec<Import>,
    HashMap<AlgebraicTypeRef, String>,
))
    requires
        module.defines(refs@.to_set()),
    ensures
        views(plan.0@) == refs@.map_values(
            |r: AlgebraicTypeRef|
                import_view(*module, r, taken@, type_names(*module, refs@)),
        ),
        alias_texts(plan.1@) == alias_map(
            *module,
            refs@.to_set(),
            taken@,
            type_names(*module, refs@),
        ),
{
    broadcast use vstd::std_specs::hash::group_hash_axioms;

    let names = type_ref_names(module, refs);
    let ghost all = type_names(*module, refs@);
    let mut imports: Vec<Import> = Vec::new();
    let mut aliases: HashMap<AlgebraicTypeRef, String> = HashMap::new();
    for i in 0..refs.len()
        invariant
            imports@.len() == i,
            forall|j: int|
                0 <= j < i ==> #[trigger] imports@[j]@ == import_view(
                    *module,
                    refs@[j],
                    taken@,
                    all,
                ),
            forall|r: AlgebraicTypeRef| #[trigger]
                aliases@.contains_key(r) <==> (exists|j: int| 0 <= j < i && refs@[j] == r)
                    && type_ref_text(*module, r) == taken@,
            forall|r: AlgebraicTypeRef| #[trigger]
                aliases@.contains_key(r) ==> aliases@[r]@ == fresh_name(
                    type_ref_text(*module, r) + "Type"@,
                    all,
                ),
    {
        let r = refs[i];
        assert(refs@.to_set().contains(r));
        let import = import_of(
            get_type_module_name(module, r),
            type_ref_name(module, r),
            taken,
            &names,
        );
        if let Some(alias) = &import.alias {
            aliases.insert(r, alias.clone());
        }
        imports.push(import);
    }
    proof {
        assert forall|r: AlgebraicTypeRef|
            refs@.to_set().contains(r) == (exists|j: int| 0 <= j < refs@.len() && refs@[j] == r) by {
            assert(refs@.to_set().contains(r) == refs@.contains(r));
        }
        assert(alias_texts(aliases@) =~= alias_map(*module, refs@.to_set(), taken@, all));
        assert(views(imports@) =~= refs@.map_values(
            |r: AlgebraicTypeRef| import_view(*module, r, taken@, all),
        ));
    }
    (imports, aliases)
}

/// The parameters as the reducer's file spells them.
#[verifier::loop_isolation(false)]
fn plan_args(
    module: &ModuleDef,
    params: &Vec<ParamDef>,
    aliases: &HashMap<AlgebraicTypeRef, String>,
) -> (args: Vec<Arg>)
    requires
        forall|i: int|
            0 <= i < params@.len() ==> #[trigger] renderable(
                *module,
                params@[i].ty,
                alias_texts(aliases@),
            ),
    ensures
        views(args@) == params@.map_values(
            |p: ParamDef| file_arg_view(*module, p, alias_texts(aliases@)),
        ),
{
    let mut args: Vec<Arg> = Vec::new();
    for i in 0..params.len()
        invariant
            args@.len() == i,
            forall|j: int|
                0 <= j < i ==> #[trigger] args@[j]@ == file_arg_view(
                    *module,
                    params@[j],
                    alias_texts(aliases@),
                ),
    {
        let param = &params[i];
        let mut ty = String::new();
        assert(renderable(*module, params@[i as int].ty, alias_texts(aliases@)));
        write_type_to_string(&mut ty, module, &param.ty, aliases);
        let ghost rendered = type_text(*module, param.ty, alias_texts(aliases@));
        assert(Seq::<char>::empty() + rendered =~= rendered);
        args.push(Arg { name: to_case(param.name.as_str(), Case::Snake), ty });
    }
    assert(views(args@) =~= params@.map_values(
        |p: ParamDef| file_arg_view(*module, p, alias_texts(aliases@)),
    ));
    args
}

/// What the file of `reducer` is made of.
pub fn plan_reducer_file(module: &ModuleDef, reducer: &ReducerDef) -> (file: ReducerFile)
    requires
        module.defines(param_refs(reducer.params_for_generate@)),
    ensures
        file@ == reducer_file_view(*module, *reducer),
{
    let params = &reducer.params_for_generate;
    let variant_name = to_case(reducer.accessor_name.as_str(), Case::Pascal);
    let taken = args_type_name(variant_name.as_str());
    let refs = collect_refs(params);
    let (imports, aliases) = plan_imports(module, &refs, taken.as_str());
    proof {
        assert forall|i: int| 0 <= i < params@.len() implies #[trigger] renderable(
            *module,
            params@[i].ty,
            alias_texts(aliases@),
        ) by {
            lemma_param_refs_contain(params@, i);
        }
    }
    let args = plan_args(module, params, &aliases);
    ReducerFile {
        reducer_name: reducer.name.clone(),
        func_name: to_case(reducer.accessor_name.as_str(), Case::Snake),
        variant_name,
        imports,
        args,
    }
}

/// The name of the file for a reducer.
pub open spec fn reducer_filename(reducer: ReducerDef) -> Seq<char> {
    snake(reducer.accessor_name@) + "_reducer.rs"@
}

/// Generates the file for `reducer`, which starts with `header`.
///
/// A type that is called like the struct that wraps the reducer's arguments goes by an alias.
pub fn generate_reducer_file_with_aliases(
    module: &ModuleDef,
    reducer: &ReducerDef,
    header: &str,
) -> (file: OutputFile)
    requires
        module.defines(param_refs(reducer.params_for_generate@)),
    ensures
        file.filename@ == reducer_filename(*reducer),
        file.filename@ == case_converted(reducer.accessor_name@, Case::Snake) + "_reducer.rs"@,
        file.code@ == reducer_file_text(header@, reducer_file_view(*module, *reducer)),
        header@.is_prefix_of(file.code@),
{
    let plan = plan_reducer_file(module, reducer);
    let mut filename = to_case(reducer.accessor_name.as_str(), Case::Snake);
    filename.append("_reducer.rs");
    OutputFile { filename, code: render_reducer_file(header, &plan) }
}

} // verus!
