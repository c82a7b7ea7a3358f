use dioxus_codegen::args::{arg_names, arg_types, arglist, args_type_name, leading_args, Arg};
use dioxus_codegen::casing::{collect_case, Case};
use dioxus_codegen::refs::collect_refs;
use dioxus_codegen::schema::{AlgebraicTypeUse, ModuleDef, ParamDef, PrimitiveType, TypeDef};
use dioxus_codegen::text::join;
use dioxus_codegen::types::{
    get_type_module_name, qualification, type_name_for_hook, type_ref_name, write_type_inline, write_type_to_string,
};
use std::collections::HashMap;

fn module() -> ModuleDef {
    let named = |type_ref, name: &str| TypeDef { type_ref, name_segments: vec![name.to_string()] };
    let scoped = TypeDef { type_ref: 2, name_segments: vec!["outer".to_string(), "InnerType".to_string()] };
    ModuleDef {
        types: vec![named(0, "CreateEventArgs"), named(1, "event"), scoped, named(0, "Later")],
        relations: vec![],
        reducers: vec![],
        procedures: vec![],
    }
}

fn rendered(ty: &AlgebraicTypeUse, aliases: &HashMap<u32, String>) -> String {
    let mut text = String::new();
    write_type_to_string(&mut text, &module(), ty, aliases);
    text
}

fn plain(ty: AlgebraicTypeUse) -> String {
    rendered(&ty, &HashMap::new())
}

#[test]
fn types_without_parts() {
    assert_eq!(plain(AlgebraicTypeUse::Unit), "()");
    assert_eq!(plain(AlgebraicTypeUse::Never), "std::convert::Infallible");
    assert_eq!(plain(AlgebraicTypeUse::Identity), "__sdk::Identity");
    assert_eq!(plain(AlgebraicTypeUse::ConnectionId), "__sdk::ConnectionId");
    assert_eq!(plain(AlgebraicTypeUse::Timestamp), "__sdk::Timestamp");
    assert_eq!(plain(AlgebraicTypeUse::TimeDuration), "__sdk::TimeDuration");
    assert_eq!(plain(AlgebraicTypeUse::Uuid), "__sdk::Uuid");
    assert_eq!(plain(AlgebraicTypeUse::ScheduleAt), "__sdk::ScheduleAt");
    assert_eq!(plain(AlgebraicTypeUse::String), "String");
}

#[test]
fn primitive_types() {
    let cases = [
        (PrimitiveType::Bool, "bool"),
        (PrimitiveType::I8, "i8"),
        (PrimitiveType::U8, "u8"),
        (PrimitiveType::I16, "i16"),
        (PrimitiveType::U16, "u16"),
        (PrimitiveType::I32, "i32"),
        (PrimitiveType::U32, "u32"),
        (PrimitiveType::I64, "i64"),
        (PrimitiveType::U64, "u64"),
        (PrimitiveType::I128, "i128"),
        (PrimitiveType::U128, "u128"),
        (PrimitiveType::I256, "__sats::i256"),
        (PrimitiveType::U256, "__sats::u256"),
        (PrimitiveType::F32, "f32"),
        (PrimitiveType::F64, "f64"),
    ];
    for (prim, name) in cases {
        assert_eq!(plain(AlgebraicTypeUse::Primitive(prim)), name);
    }
}

#[test]
fn types_with_parts() {
    let ty = AlgebraicTypeUse::Result {
        ok_ty: Box::new(AlgebraicTypeUse::Array(Box::new(AlgebraicTypeUse::Ref(1)))),
        err_ty: Box::new(AlgebraicTypeUse::Option(Box::new(AlgebraicTypeUse::String))),
    };
    assert_eq!(plain(ty), "Result<Vec<Event>, Option<String>>");
}

#[test]
fn aliases_stand_for_their_types() {
    let mut aliases = HashMap::new();
    aliases.insert(1, "Renamed".to_string());
    aliases.insert(77, "Undefined".to_string());
    let ty = |r| AlgebraicTypeUse::Array(Box::new(AlgebraicTypeUse::Ref(r)));
    assert_eq!(rendered(&ty(1), &aliases), "Vec<Renamed>");
    assert_eq!(rendered(&ty(77), &aliases), "Vec<Undefined>");
    assert_eq!(rendered(&ty(2), &aliases), "Vec<OuterInnerType>");
}

#[test]
fn types_are_appended() {
    let mut text = "x: ".to_string();
    write_type_inline(&module(), &mut text, &AlgebraicTypeUse::String, &HashMap::new());
    assert_eq!(text, "x: String");
}

#[test]
fn names_of_defined_types() {
    assert_eq!(type_ref_name(&module(), 1), "Event");
    assert_eq!(type_ref_name(&module(), 2), "OuterInnerType");
    assert_eq!(type_ref_name(&module(), 0), "CreateEventArgs");
    assert_eq!(get_type_module_name(&module(), 0), "create_event_args_type");
    assert_eq!(get_type_module_name(&module(), 2), "outer_inner_type_type");
}

#[test]
fn the_first_definition_counts() {
    assert_eq!(module().type_def_from_ref(0).unwrap().name_segments, vec!["CreateEventArgs"]);
    assert!(module().type_def_from_ref(5).is_none());
}

#[test]
fn segments_are_re_cased_and_joined() {
    let segments = vec!["fooBar".to_string(), "Baz".to_string()];
    assert_eq!(collect_case(Case::Snake, &segments), "foo_bar_baz");
    assert_eq!(collect_case(Case::Pascal, &segments), "FooBarBaz");
    assert_eq!(collect_case(Case::Snake, &vec![]), "");
}

#[test]
fn hook_types_of_defined_types() {
    let name = |ty: AlgebraicTypeUse, wrapper: &str| type_name_for_hook(&module(), &ty, "AsRust", wrapper);
    assert_eq!(
        name(AlgebraicTypeUse::Ref(0), "CreateEventArgs"),
        "create_event_args_type::CreateEventArgs"
    );
    assert_eq!(name(AlgebraicTypeUse::Ref(0), "OtherArgs"), "CreateEventArgs");
    assert_eq!(name(AlgebraicTypeUse::String, "CreateEventArgs"), "AsRust");
}

#[test]
fn nested_hook_types_of_defined_types() {
    let option = |ty| AlgebraicTypeUse::Option(Box::new(ty));
    let result = |ok, err| AlgebraicTypeUse::Result { ok_ty: Box::new(ok), err_ty: Box::new(err) };
    let name = |ty: AlgebraicTypeUse, wrapper: &str| type_name_for_hook(&module(), &ty, "AsRust", wrapper);
    assert_eq!(
        name(AlgebraicTypeUse::Array(Box::new(option(AlgebraicTypeUse::Ref(0)))), "CreateEventArgs"),
        "Vec<Option<create_event_args_type::CreateEventArgs>>"
    );
    assert_eq!(
        name(result(AlgebraicTypeUse::Ref(1), option(AlgebraicTypeUse::Ref(0))), "CreateEventArgs"),
        "Result<Event, Option<create_event_args_type::CreateEventArgs>>"
    );
    assert_eq!(name(option(AlgebraicTypeUse::Ref(0)), "OtherArgs"), "AsRust");
    assert_eq!(name(option(AlgebraicTypeUse::Ref(1)), "CreateEventArgs"), "AsRust");
}

#[test]
fn a_conflicting_name_is_qualified() {
    assert_eq!(qualification("A".to_string(), "m", "A"), Some("m::A".to_string()));
    assert_eq!(qualification("A".to_string(), "m", "B"), None);
}

#[test]
fn refs_are_collected_in_order() {
    let param = |ty| ParamDef { name: String::new(), ty, rust_name: String::new() };
    let params = vec![
        param(AlgebraicTypeUse::Option(Box::new(AlgebraicTypeUse::Ref(9)))),
        param(AlgebraicTypeUse::Ref(2)),
        param(AlgebraicTypeUse::Unit),
        param(AlgebraicTypeUse::Array(Box::new(AlgebraicTypeUse::Ref(9)))),
        param(AlgebraicTypeUse::Ref(u32::MAX)),
    ];
    assert_eq!(collect_refs(&params), vec![2, 9, u32::MAX]);
    assert!(collect_refs(&vec![]).is_empty());
}

#[test]
fn argument_lists() {
    let arg = |name: &str, ty: &str| Arg { name: name.to_string(), ty: ty.to_string() };
    let args = vec![arg("a", "A"), arg("b", "B"), arg("c", "C")];
    assert_eq!(arglist(&args), "a: A, b: B, c: C");
    assert_eq!(arg_names(&args), "a, b, c");
    assert_eq!(arg_types(&args), "A, B, C");
    assert_eq!(arglist(&vec![]), "");
    assert_eq!(arglist(&vec![arg("", "")]), ": ");
    assert_eq!(arg_names(&vec![arg("", "")]), "");
    assert_eq!(arg_names(&vec![arg("", ""), arg("", "")]), ", ");
}

#[test]
fn leading_arguments_end_in_a_comma() {
    assert_eq!(leading_args("a, b"), "a, b, ");
    assert_eq!(leading_args(""), "");
}

#[test]
fn the_wrapper_is_called_after_its_owner() {
    assert_eq!(args_type_name("AddTodo"), "AddTodoArgs");
}

#[test]
fn joining() {
    let parts = vec!["a".to_string(), String::new(), "b".to_string()];
    assert_eq!(join(&parts, "--"), "a----b");
    assert_eq!(join(&vec![], "--"), "");
}
