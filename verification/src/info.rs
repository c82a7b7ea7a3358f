//! What the generated hooks need to know of a table, a reducer or a procedure.

use vstd::prelude::*;

verus! {

/// A table or a view that clients subscribe to.
#[derive(Debug)]
pub struct TableInfo {
    /// snake_case accessor name (e.g. "todo")
    pub accessor_snake: String,
    /// PascalCase row type name (e.g. "Todo")
    pub row_type: String,
    /// Whether the table/view has a primary key (enables on_update callback)
    pub has_primary_key: bool,
}

/// The texts of a [`TableInfo`].
#[verifier::ext_equal]
pub struct TableInfoView {
    pub accessor_snake: Seq<char>,
    pub row_type: Seq<char>,
    pub has_primary_key: bool,
}

impl View for TableInfo {
    type V = TableInfoView;

    open spec fn view(&self) -> TableInfoView {
        TableInfoView {
            accessor_snake: self.accessor_snake@,
            row_type: self.row_type@,
            has_primary_key: self.has_primary_key,
        }
    }
}

/// A reducer that clients can invoke.
#[derive(Debug)]
pub struct ReducerInfo {
    /// snake_case name (e.g. "add_todo")
    pub name_snake: String,
    /// Original reducer name
    pub name_orig: String,
    /// Parameter list formatted as "name: Type, name: Type"
    pub arglist: String,
    /// Parameter names formatted as "name, name"
    pub arg_names: String,
    /// Closure parameter list formatted as "name: Type, name: Type"
    pub closure_params: String,
    /// Fn trait parameter list (types only) formatted as "Type, Type"
    pub fn_trait_params: String,
}

/// The texts of a [`ReducerInfo`].
#[verifier::ext_equal]
pub struct ReducerInfoView {
    pub name_snake: Seq<char>,
    pub name_orig: Seq<char>,
    pub arglist: Seq<char>,
    pub arg_names: Seq<char>,
    pub closure_params: Seq<char>,
    pub fn_trait_params: Seq<char>,
}

impl View for ReducerInfo {
    type V = ReducerInfoView;

    open spec fn view(&self) -> ReducerInfoView {
        ReducerInfoView {
            name_snake: self.name_snake@,
            name_orig: self.name_orig@,
            arglist: self.arglist@,
            arg_names: self.arg_names@,
            closure_params: self.closure_params@,
            fn_trait_params: self.fn_trait_params@,
        }
    }
}

/// A procedure that clients can invoke.
#[derive(Debug)]
pub struct ProcedureInfo {
    /// snake_case accessor name (e.g. "provision_message_category")
    pub name_snake: String,
    /// Original procedure name as declared in the module
    pub name_orig: String,
    /// Parameter names formatted as "name, name"
    pub arg_names: String,
    /// Closure parameter list formatted as "name: Type, name: Type"
    pub closure_params: String,
    /// Fn trait parameter list (types only) formatted as "Type, Type"
    pub fn_trait_params: String,
    /// Return type as a Rust type expression string
    pub return_type: String,
}

/// The texts of a [`ProcedureInfo`].
#[verifier::ext_equal]
pub struct ProcedureInfoView {
    pub name_snake: Seq<char>,
    pub name_orig: Seq<char>,
    pub arg_names: Seq<char>,
    pub closure_params: Seq<char>,
    pub fn_trait_params: Seq<char>,
    pub return_type: Seq<char>,
}

impl View for ProcedureInfo {
    type V = ProcedureInfoView;

    open spec fn view(&self) -> ProcedureInfoView {
        ProcedureInfoView {
            name_snake: self.name_snake@,
            name_orig: self.name_orig@,
            arg_names: self.arg_names@,
            closure_params: self.closure_params@,
            fn_trait_params: self.fn_trait_params@,
            return_type: self.return_type@,
        }
    }
}

} // verus!
