//! Argument lists of generated functions.

use vstd::prelude::*;
use crate::text::{join, joined, texts, views};

verus! {

/// An argument as generated code spells it.
#[derive(Debug)]
pub struct Arg {
    /// snake_case name
    pub name: String,
    /// Type as a Rust type expression
    pub ty: String,
}

/// The texts of an [`Arg`].
#[verifier::ext_equal]
pub struct ArgView {
    pub name: Seq<char>,
    pub ty: Seq<char>,
}

impl View for Arg {
    type V = ArgView;

    open spec fn view(&self) -> ArgView {
        ArgView { name: self.name@, ty: self.ty@ }
    }
}

/// One parameter: its name and its type.
pub open spec fn arg_text(a: ArgView) -> Seq<char> {
    a.name + ": "@ + a.ty
}

/// The parameters formatted as "name: Type, name: Type".
pub open spec fn arglist_text(args: Seq<ArgView>) -> Seq<char> {
    joined(args.map_values(|a: ArgView| arg_text(a)), ", "@)
}

/// The parameter names formatted as "name, name".
pub open spec fn arg_names_text(args: Seq<ArgView>) -> Seq<char> {
    joined(args.map_values(|a: ArgView| a.name), ", "@)
}

/// The types of the parameters formatted as "Type, Type".
pub open spec fn arg_types_text(args: Seq<ArgView>) -> Seq<char> {
    joined(args.map_values(|a: ArgView| a.ty), ", "@)
}

/// `arg_names` as they stand in front of a further argument.
pub open spec fn leading_args_text(arg_names: Seq<char>) -> Seq<char> {
    if arg_names.len() == 0 {
        Seq::empty()
    } else {
        arg_names + ", "@
    }
}

/// The name of the struct that wraps the arguments of a reducer or procedure, which `pascal_name`
/// is the PascalCase name of.
pub open spec fn args_type_text(pascal_name: Seq<char>) -> Seq<char> {
    pascal_name + "Args"@
}

/// The parameters formatted as "name: Type, name: Type".
pub fn arglist(args: &Vec<Arg>) -> (list: String)
    ensures
        list@ == arglist_text(views(args@)),
{
    let mut parts: Vec<String> = Vec::new();
    for i in 0..args.len()
        invariant
            parts@.len() == i,
            forall|j: int| 0 <= j < i ==> #[trigger] parts@[j]@ == arg_text(args@[j]@),
    {
        let mut part = args[i].name.clone();
        part.append(": ");
        part.append(args[i].ty.as_str());
        parts.push(part);
    }
    assert(texts(parts@) =~= views(args@).map_values(|a: ArgView| arg_text(a)));
    join(&parts, ", ")
}

/// The parameter names formatted as "name, name".
pub fn arg_names(args: &Vec<Arg>) -> (list: String)
    ensures
        list@ == arg_names_text(views(args@)),
{
    let mut parts: Vec<String> = Vec::new();
    for i in 0..args.len()
        invariant
            parts@.len() == i,
            forall|j: int| 0 <= j < i ==> #[trigger] parts@[j]@ == args@[j].name@,
    {
        parts.push(args[i].name.clone());
    }
    assert(texts(parts@) =~= views(args@).map_values(|a: ArgView| a.name));
    join(&parts, ", ")
}

/// The types of the parameters formatted as "Type, Type".
pub fn arg_types(args: &Vec<Arg>) -> (list: String)
    ensures
        list@ == arg_types_text(views(args@)),
{
    let mut parts: Vec<String> = Vec::new();
    for i in 0..args.len()
        invariant
            parts@.len() == i,
            forall|j: int| 0 <= j < i ==> #[trigger] parts@[j]@ == args@[j].ty@,
    {
        parts.push(args[i].ty.clone());
    }
    assert(texts(parts@) =~= views(args@).map_values(|a: ArgView| a.ty));
    join(&parts, ", ")
}

/// `arg_names` as they stand in front of a further argument.
pub fn leading_args(arg_names: &str) -> (text: String)
    ensures
        text@ == leading_args_text(arg_names@),
{
    let mut text = String::new();
    if !arg_names.is_empty() {
        text.append(arg_names);
        text.append(", ");
        assert(text@ =~= arg_names@ + ", "@);
    }
    text
}

/// The name of the struct that wraps the arguments of a reducer or procedure, which `pascal_name`
/// is the PascalCase name of.
pub fn args_type_name(pascal_name: &str) -> (name: String)
    ensures
        name@ == args_type_text(pascal_name@),
{
    let mut name = String::from_str(pascal_name);
    name.append("Args");
    name
}

} // verus!
