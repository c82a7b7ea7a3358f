use dioxus_codegen::args::arg_names;
use dioxus_codegen::collect::collect_reducers;
use dioxus_codegen::defined::{hooks_are_defined, reducer_is_defined, type_is_defined};
use dioxus_codegen::dioxus::Dioxus;
use dioxus_codegen::reducer_file::plan_reducer_file;
use dioxus_codegen::schema::{AlgebraicTypeUse, CodegenVisibility, ModuleDef, ParamDef, ReducerDef, TypeDef};
use dioxus_codegen::types::write_type_to_string;
use std::collections::HashMap;

fn param(name: &str, ty: AlgebraicTypeUse, rust_name: &str) -> ParamDef {
    ParamDef { name: name.to_string(), ty, rust_name: rust_name.to_string() }
}

fn reducer(name: &str, accessor_name: &str) -> ReducerDef {
    ReducerDef {
        name: name.to_string(),
        accessor_name: accessor_name.to_string(),
        params_for_generate: vec![
            param("firstArg", AlgebraicTypeUse::Ref(0), "Item"),
            param("second", AlgebraicTypeUse::Ref(1), "PutItemArgs"),
            param("third", AlgebraicTypeUse::String, "String"),
        ],
        is_invokable: true,
        is_private: false,
    }
}

fn module(reducers: Vec<ReducerDef>) -> ModuleDef {
    let named = |type_ref, name: &str| TypeDef { type_ref, name_segments: vec![name.to_string()] };
    ModuleDef {
        types: vec![named(0, "Item"), named(1, "PutItemArgs")],
        relations: vec![],
        reducers,
        procedures: vec![],
    }
}

#[test]
fn hooks_and_file_agree_on_arguments() {
    let module = module(vec![reducer("put_item", "put_item")]);
    let infos = collect_reducers(&module, CodegenVisibility::OnlyPublic);
    let plan = plan_reducer_file(&module, &module.reducers[0]);
    assert_eq!(infos[0].arg_names, "first_arg, second, third");
    assert_eq!(infos[0].arg_names, arg_names(&plan.args));
    assert_eq!(infos[0].name_snake, plan.func_name);
}

#[test]
fn a_conflicting_type_has_two_spellings() {
    let module = module(vec![reducer("put_item", "put_item")]);
    let infos = collect_reducers(&module, CodegenVisibility::OnlyPublic);
    let plan = plan_reducer_file(&module, &module.reducers[0]);
    assert_eq!(infos[0].fn_trait_params, "Item, put_item_args_type::PutItemArgs, String");
    let types: Vec<String> = plan.args.iter().map(|a| a.ty.clone()).collect();
    assert_eq!(types, vec!["Item", "PutItemArgsType", "String"]);
}

#[test]
fn without_a_conflict_the_spellings_are_the_same() {
    let module = module(vec![reducer("store_item", "store_item")]);
    let infos = collect_reducers(&module, CodegenVisibility::OnlyPublic);
    let plan = plan_reducer_file(&module, &module.reducers[0]);
    assert_eq!(infos[0].fn_trait_params, "Item, PutItemArgs, String");
    let types: Vec<String> = plan.args.iter().map(|a| a.ty.clone()).collect();
    assert_eq!(types, vec!["Item", "PutItemArgs", "String"]);
}

#[test]
fn the_hooks_go_by_the_name_and_the_file_by_the_accessor() {
    let module = module(vec![reducer("put_item", "storeItem")]);
    let infos = collect_reducers(&module, CodegenVisibility::OnlyPublic);
    let plan = plan_reducer_file(&module, &module.reducers[0]);
    assert_eq!(infos[0].name_snake, "put_item");
    assert_eq!(plan.func_name, "store_item");
}

#[test]
fn reducers_get_their_own_files() {
    let module = module(vec![]);
    let a = Dioxus.generate_reducer_file(&module, &reducer("a", "put_item"), "");
    let b = Dioxus.generate_reducer_file(&module, &reducer("b", "store_item"), "");
    assert_eq!(a.filename, "put_item_reducer.rs");
    assert_eq!(b.filename, "store_item_reducer.rs");
}

#[test]
fn aliases_of_other_types_do_not_matter() {
    let module = module(vec![]);
    let mut aliases = HashMap::new();
    aliases.insert(1, "Renamed".to_string());
    let ty = AlgebraicTypeUse::Option(Box::new(AlgebraicTypeUse::Ref(0)));
    let mut with = String::new();
    write_type_to_string(&mut with, &module, &ty, &aliases);
    let mut without = String::new();
    write_type_to_string(&mut without, &module, &ty, &HashMap::new());
    assert_eq!(with, "Option<Item>");
    assert_eq!(with, without);
}

#[test]
fn the_hooks_need_what_the_file_needs() {
    let mut module = module(vec![reducer("put_item", "put_item")]);
    assert!(reducer_is_defined(&module, &module.reducers[0]));
    assert!(hooks_are_defined(&module, CodegenVisibility::OnlyPublic));
    assert!(hooks_are_defined(&module, CodegenVisibility::IncludePrivate));
    let nested = AlgebraicTypeUse::Array(Box::new(AlgebraicTypeUse::Ref(9)));
    assert!(!type_is_defined(&module, &nested));
    module.reducers[0].params_for_generate.push(param("nested", nested, "Vec<Elsewhere>"));
    assert!(!reducer_is_defined(&module, &module.reducers[0]));
    assert!(!hooks_are_defined(&module, CodegenVisibility::OnlyPublic));
}
