use dioxus_codegen::args::Arg;
use dioxus_codegen::defined::reducer_is_defined;
use dioxus_codegen::dioxus::Dioxus;
use dioxus_codegen::reducer_file::{
    freshen, generate_reducer_file_with_aliases, import_of, plan_reducer_file, render_reducer_file, Import,
    ReducerFile,
};
use dioxus_codegen::schema::{AlgebraicTypeUse, ModuleDef, ParamDef, PrimitiveType, ReducerDef, TypeDef};

const HEADER: &str = "// Header line.\n";

const ADD_TODO_FILE: &str = r##"// Header line.
#![allow(unused, clippy::all)]
use spacetimedb_sdk::__codegen::{
    self as __sdk,
    __lib,
    __sats,
    __ws,
};

use super::todo_type::Todo;
use super::add_todo_args_type::AddTodoArgs as AddTodoArgsType;

#[derive(__lib::ser::Serialize, __lib::de::Deserialize, Clone, PartialEq, Debug)]
#[sats(crate = __lib)]
pub(super) struct AddTodoArgs {
    pub title: String,
    pub extra_args: AddTodoArgsType,
    pub history: Vec<Option<AddTodoArgsType>>,
    pub todo: Todo,
}

impl From<AddTodoArgs> for super::Reducer {
    fn from(args: AddTodoArgs) -> Self {
        Self::AddTodo {
            title: args.title,
            extra_args: args.extra_args,
            history: args.history,
            todo: args.todo,
        }
    }
}

impl __sdk::InModule for AddTodoArgs {
    type Module = super::RemoteModule;
}

#[allow(non_camel_case_types)]
/// Extension trait for access to the reducer `add_todo`.
///
/// Implemented for [`super::RemoteReducers`].
pub trait add_todo {
    /// Request that the remote module invoke the reducer `add_todo` to run as soon as possible.
    ///
    /// This method returns immediately, and errors only if we are unable to send the request.
    /// The reducer will run asynchronously in the future,
    ///  and this method provides no way to listen for its completion status.
    ///
    /// Use [`add_todo::add_todo_then`] to run a callback after the reducer completes.
    fn add_todo(&self, title: String, extra_args: AddTodoArgsType, history: Vec<Option<AddTodoArgsType>>, todo: Todo) -> __sdk::Result<()> {
        self.add_todo_then(title, extra_args, history, todo, |_, _| {})
    }

    /// Request that the remote module invoke the reducer `add_todo` to run as soon as possible,
    /// registering `callback` to run when we are notified that the reducer completed.
    ///
    /// This method returns immediately, and errors only if we are unable to send the request.
    /// The reducer will run asynchronously in the future,
    ///  and its status can be observed with the `callback`.
    fn add_todo_then(
        &self,
        title: String, extra_args: AddTodoArgsType, history: Vec<Option<AddTodoArgsType>>, todo: Todo,
        callback: impl FnOnce(&super::ReducerEventContext, Result<Result<(), String>, __sdk::InternalError>)
            + Send
            + 'static,
    ) -> __sdk::Result<()>;
}

impl add_todo for super::RemoteReducers {
    fn add_todo_then(
        &self,
        title: String, extra_args: AddTodoArgsType, history: Vec<Option<AddTodoArgsType>>, todo: Todo,
        callback: impl FnOnce(&super::ReducerEventContext, Result<Result<(), String>, __sdk::InternalError>)
            + Send
            + 'static,
    ) -> __sdk::Result<()> {
        self.imp.invoke_reducer_with_callback(AddTodoArgs { title, extra_args, history, todo }, callback)
    }
}
"##;

const RESET_FILE: &str = r##"#![allow(unused, clippy::all)]
use spacetimedb_sdk::__codegen::{
    self as __sdk,
    __lib,
    __sats,
    __ws,
};


#[derive(__lib::ser::Serialize, __lib::de::Deserialize, Clone, PartialEq, Debug)]
#[sats(crate = __lib)]
pub(super) struct ResetArgs {
}

impl From<ResetArgs> for super::Reducer {
    fn from(args: ResetArgs) -> Self {
        Self::Reset    }
}

impl __sdk::InModule for ResetArgs {
    type Module = super::RemoteModule;
}

#[allow(non_camel_case_types)]
/// Extension trait for access to the reducer `Reset`.
///
/// Implemented for [`super::RemoteReducers`].
pub trait reset {
    /// Request that the remote module invoke the reducer `Reset` to run as soon as possible.
    ///
    /// This method returns immediately, and errors only if we are unable to send the request.
    /// The reducer will run asynchronously in the future,
    ///  and this method provides no way to listen for its completion status.
    ///
    /// Use [`reset::reset_then`] to run a callback after the reducer completes.
    fn reset(&self, ) -> __sdk::Result<()> {
        self.reset_then(|_, _| {})
    }

    /// Request that the remote module invoke the reducer `Reset` to run as soon as possible,
    /// registering `callback` to run when we are notified that the reducer completed.
    ///
    /// This method returns immediately, and errors only if we are unable to send the request.
    /// The reducer will run asynchronously in the future,
    ///  and its status can be observed with the `callback`.
    fn reset_then(
        &self,
        callback: impl FnOnce(&super::ReducerEventContext, Result<Result<(), String>, __sdk::InternalError>)
            + Send
            + 'static,
    ) -> __sdk::Result<()>;
}

impl reset for super::RemoteReducers {
    fn reset_then(
        &self,
        callback: impl FnOnce(&super::ReducerEventContext, Result<Result<(), String>, __sdk::InternalError>)
            + Send
            + 'static,
    ) -> __sdk::Result<()> {
        self.imp.invoke_reducer_with_callback(ResetArgs {  }, callback)
    }
}
"##;

fn named(type_ref: u32, segments: &[&str]) -> TypeDef {
    TypeDef { type_ref, name_segments: segments.iter().map(|s| s.to_string()).collect() }
}

fn module(types: Vec<TypeDef>) -> ModuleDef {
    ModuleDef { types, relations: vec![], reducers: vec![], procedures: vec![] }
}

fn param(name: &str, ty: AlgebraicTypeUse) -> ParamDef {
    ParamDef { name: name.to_string(), ty, rust_name: String::new() }
}

fn reducer(name: &str, accessor_name: &str, params: Vec<ParamDef>) -> ReducerDef {
    ReducerDef {
        name: name.to_string(),
        accessor_name: accessor_name.to_string(),
        params_for_generate: params,
        is_invokable: true,
        is_private: false,
    }
}

fn option(ty: AlgebraicTypeUse) -> AlgebraicTypeUse {
    AlgebraicTypeUse::Option(Box::new(ty))
}

fn array(ty: AlgebraicTypeUse) -> AlgebraicTypeUse {
    AlgebraicTypeUse::Array(Box::new(ty))
}

fn result(ok: AlgebraicTypeUse, err: AlgebraicTypeUse) -> AlgebraicTypeUse {
    AlgebraicTypeUse::Result { ok_ty: Box::new(ok), err_ty: Box::new(err) }
}

fn todo_module() -> ModuleDef {
    module(vec![named(7, &["AddTodoArgs"]), named(3, &["Todo"])])
}

fn add_todo() -> ReducerDef {
    reducer(
        "add_todo",
        "add_todo",
        vec![
            param("title", AlgebraicTypeUse::String),
            param("extraArgs", AlgebraicTypeUse::Ref(7)),
            param("history", array(option(AlgebraicTypeUse::Ref(7)))),
            param("todo", AlgebraicTypeUse::Ref(3)),
        ],
    )
}

#[test]
fn reducer_file_with_a_conflicting_type() {
    let module = todo_module();
    let reducer = add_todo();
    assert!(reducer_is_defined(&module, &reducer));
    let file = generate_reducer_file_with_aliases(&module, &reducer, HEADER);
    assert_eq!(file.filename, "add_todo_reducer.rs");
    assert_eq!(file.code, ADD_TODO_FILE);
}

#[test]
fn reducer_file_without_parameters() {
    let module = todo_module();
    let reducer = reducer("Reset", "Reset", vec![]);
    assert!(reducer_is_defined(&module, &reducer));
    let file = Dioxus.generate_reducer_file(&module, &reducer, "");
    assert_eq!(file.filename, "reset_reducer.rs");
    assert_eq!(file.code, RESET_FILE);
}

#[test]
fn reducer_file_is_called_after_the_accessor() {
    let module = todo_module();
    let reducer = reducer("add", "AddTodo", vec![]);
    let file = Dioxus.generate_reducer_file(&module, &reducer, "");
    assert_eq!(file.filename, "add_todo_reducer.rs");
    assert!(file.code.contains("reducer `add`"));
    assert!(file.code.contains("pub trait add_todo {\n"));
    assert!(file.code.contains("pub(super) struct AddTodoArgs {\n"));
}

#[test]
fn rendering_takes_the_cased_names() {
    let plan = ReducerFile {
        reducer_name: "R".to_string(),
        func_name: "f".to_string(),
        variant_name: "V".to_string(),
        imports: vec![
            Import { module_name: "m".to_string(), name: "N".to_string(), alias: None },
            Import { module_name: "m".to_string(), name: "O".to_string(), alias: Some("P".to_string()) },
        ],
        args: vec![Arg { name: "a".to_string(), ty: "N".to_string() }, Arg { name: "b".to_string(), ty: "P".to_string() }],
    };
    let code = render_reducer_file("// H\n", &plan);
    assert!(code.starts_with("// H\n#![allow(unused, clippy::all)]\nuse spacetimedb_sdk::__codegen::{\n"));
    assert!(code.contains("};\n\nuse super::m::N;\nuse super::m::O as P;\n\n#[derive("));
    assert!(code.contains("pub(super) struct VArgs {\n    pub a: N,\n    pub b: P,\n}\n\n"));
    assert!(code.contains("        Self::V {\n            a: args.a,\n            b: args.b,\n        }\n    }\n"));
    assert!(code.contains("    fn f(&self, a: N, b: P) -> __sdk::Result<()> {\n        self.f_then(a, b, |_, _| {})\n"));
    assert!(code.ends_with("(VArgs { a, b }, callback)\n    }\n}\n"));
}

#[test]
fn a_conflicting_name_gets_an_alias() {
    let names = |list: &[&str]| list.iter().map(|n| n.to_string()).collect::<Vec<String>>();
    let alias = |name: &str, list: &[&str]| import_of("m".to_string(), name.to_string(), "FooArgs", &names(list)).alias;
    assert_eq!(alias("FooArgs", &["FooArgs"]), Some("FooArgsType".to_string()));
    assert_eq!(alias("FooArgs", &["FooArgs", "FooArgsTypeType"]), Some("FooArgsType".to_string()));
    assert_eq!(alias("FooArgs", &["FooArgsType", "FooArgs"]), Some("FooArgsTypeType".to_string()));
    assert_eq!(
        alias("FooArgs", &["FooArgsTypeType", "FooArgs", "FooArgsType"]),
        Some("FooArgsTypeTypeType".to_string())
    );
    assert_eq!(alias("Foo", &["Foo", "FooArgs"]), None);
    let import = import_of("m".to_string(), "Foo".to_string(), "FooArgs", &names(&["Foo"]));
    assert_eq!(import.module_name, "m");
    assert_eq!(import.name, "Foo");
}

#[test]
fn a_fresh_name_is_none_of_the_names() {
    assert_eq!(freshen("A".to_string(), &vec![]), "A");
    assert_eq!(freshen("A".to_string(), &vec!["B".to_string(), "A".to_string()]), "AType");
}

#[test]
fn imports_ascend_and_do_not_repeat() {
    let module = module(vec![named(1, &["B"]), named(9, &["A"]), named(4, &["C"])]);
    let reducer = reducer(
        "go",
        "go",
        vec![
            param("x", AlgebraicTypeUse::Ref(9)),
            param("y", result(AlgebraicTypeUse::Ref(4), array(AlgebraicTypeUse::Ref(9)))),
            param("z", option(AlgebraicTypeUse::Ref(1))),
        ],
    );
    let plan = plan_reducer_file(&module, &reducer);
    let names: Vec<String> = plan.imports.iter().map(|i| i.name.clone()).collect();
    assert_eq!(names, vec!["B", "C", "A"]);
    let types: Vec<String> = plan.args.iter().map(|a| a.ty.clone()).collect();
    assert_eq!(types, vec!["A", "Result<C, Vec<A>>", "Option<B>"]);
}

#[test]
fn no_import_binds_the_name_of_the_wrapper() {
    let plan = plan_reducer_file(&todo_module(), &add_todo());
    let wrapper = format!("{}Args", plan.variant_name);
    for import in &plan.imports {
        assert_ne!(import.alias.as_ref().unwrap_or(&import.name), &wrapper);
    }
}

#[test]
fn imports_bind_different_names() {
    let module = module(vec![named(0, &["FooArgs"]), named(1, &["FooArgsType"])]);
    let reducer = reducer(
        "foo",
        "foo",
        vec![param("a", array(AlgebraicTypeUse::Ref(0))), param("b", AlgebraicTypeUse::Ref(1))],
    );
    let plan = plan_reducer_file(&module, &reducer);
    assert_eq!(plan.imports[0].alias, Some("FooArgsTypeType".to_string()));
    assert_eq!(plan.imports[1].name, "FooArgsType");
    assert_eq!(plan.imports[1].alias, None);
    let file = Dioxus.generate_reducer_file(&module, &reducer, "");
    assert!(file.code.contains(
        "use super::foo_args_type::FooArgs as FooArgsTypeType;\nuse super::foo_args_type_type::FooArgsType;\n"
    ));
    assert!(file.code.contains("    pub a: Vec<FooArgsTypeType>,\n    pub b: FooArgsType,\n"));
}

#[test]
fn scoped_types_are_imported_from_their_module() {
    let module = module(vec![named(0, &["geoData", "PointList"])]);
    let reducer = reducer("plot", "plot", vec![param("points", AlgebraicTypeUse::Ref(0))]);
    let file = Dioxus.generate_reducer_file(&module, &reducer, "");
    assert!(file.code.contains("use super::geo_data_point_list_type::GeoDataPointList;\n"));
    assert!(file.code.contains("    pub points: GeoDataPointList,\n"));
}

#[test]
fn a_reducer_with_an_undefined_type_is_found_out() {
    let module = todo_module();
    assert!(!reducer_is_defined(&module, &reducer("r", "r", vec![param("a", AlgebraicTypeUse::Ref(8))])));
    let nested = result(AlgebraicTypeUse::Unit, array(option(AlgebraicTypeUse::Ref(8))));
    assert!(!reducer_is_defined(&module, &reducer("r", "r", vec![param("a", nested)])));
    let defined = result(AlgebraicTypeUse::Primitive(PrimitiveType::U8), array(AlgebraicTypeUse::Ref(3)));
    assert!(reducer_is_defined(&module, &reducer("r", "r", vec![param("a", defined)])));
}
