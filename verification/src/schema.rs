//! The part of a module's schema that code generation reads.

use vstd::prelude::*;

verus! {

/// Refers to a type that the module defines.
pub type AlgebraicTypeRef = u32;

/// The primitive types.
#[derive(Clone, Copy, Debug, PartialEq, Eq, Structural)]
pub enum PrimitiveType {
    Bool,
    I8,
    U8,
    I16,
    U16,
    I32,
    U32,
    I64,
    U64,
    I128,
    U128,
    I256,
    U256,
    F32,
    F64,
}

/// A type as a column, a parameter or a return value uses it.
#[derive(Debug)]
pub enum AlgebraicTypeUse {
    Array(Box<AlgebraicTypeUse>),
    Result { ok_ty: Box<AlgebraicTypeUse>, err_ty: Box<AlgebraicTypeUse> },
    ConnectionId,
    ScheduleAt,
    Option(Box<AlgebraicTypeUse>),
    Identity,
    Ref(AlgebraicTypeRef),
    String,
    TimeDuration,
    Timestamp,
    Uuid,
    Unit,
    Never,
    Primitive(PrimitiveType),
}

impl AlgebraicTypeUse {
    /// The types of the module that this type mentions, at any depth.
    pub open spec fn refs(self) -> Set<AlgebraicTypeRef>
        decreases self,
    {
        match self {
            AlgebraicTypeUse::Array(elem) => elem.refs(),
            AlgebraicTypeUse::Option(inner) => inner.refs(),
            AlgebraicTypeUse::Result { ok_ty, err_ty } => ok_ty.refs().union(err_ty.refs()),
            AlgebraicTypeUse::Ref(r) => set![r],
            _ => Set::empty(),
        }
    }
}

/// A type that the module defines.
#[derive(Debug)]
pub struct TypeDef {
    /// What refers to the type.
    pub type_ref: AlgebraicTypeRef,
    /// The segments of its scoped name, outermost scope first.
    pub name_segments: Vec<String>,
}

/// A table that the module declares.
#[derive(Debug)]
pub struct TableDef {
    /// The name that the table goes by in client code.
    pub accessor_name: String,
    /// The row type.
    pub product_type_ref: AlgebraicTypeRef,
    /// The column that is the primary key, if there is one.
    pub primary_key: Option<u16>,
    /// Whether only the owner of the module can read the table.
    pub is_private: bool,
}

/// A view that the module declares.
#[derive(Debug)]
pub struct ViewDef {
    /// The name that the view goes by in client code.
    pub accessor_name: String,
    /// The row type.
    pub product_type_ref: AlgebraicTypeRef,
    /// The column that is the primary key, if there is one: a view over a table with a primary key
    /// has it too.
    pub primary_key: Option<u16>,
}

/// What clients subscribe to: a table or a view.
#[derive(Debug)]
pub enum Relation {
    Table(TableDef),
    View(ViewDef),
}

/// A parameter of a reducer or of a procedure.
#[derive(Debug)]
pub struct ParamDef {
    /// The parameter's name as declared in the module.
    pub name: String,
    /// The parameter's type.
    pub ty: AlgebraicTypeUse,
    /// That type as the Rust client bindings spell it.
    pub rust_name: String,
}

/// A reducer that the module declares.
#[derive(Debug)]
pub struct ReducerDef {
    /// The name as declared in the module.
    pub name: String,
    /// The name that the reducer goes by in client code.
    pub accessor_name: String,
    /// The parameters, in order.
    pub params_for_generate: Vec<ParamDef>,
    /// Whether a client may invoke the reducer, as opposed to the host alone.
    pub is_invokable: bool,
    /// Whether only the owner of the module can invoke the reducer.
    pub is_private: bool,
}

/// A procedure that the module declares.
#[derive(Debug)]
pub struct ProcedureDef {
    /// The name as declared in the module.
    pub name: String,
    /// The name that the procedure goes by in client code.
    pub accessor_name: String,
    /// The parameters, in order.
    pub params_for_generate: Vec<ParamDef>,
    /// What the procedure returns.
    pub return_type_for_generate: AlgebraicTypeUse,
    /// Whether only the owner of the module can invoke the procedure.
    pub is_private: bool,
}

/// Which declarations client code is generated for.
#[derive(Clone, Copy, Debug, PartialEq, Eq, Structural)]
pub enum CodegenVisibility {
    /// All of them, the private ones too.
    IncludePrivate,
    /// The public ones.
    OnlyPublic,
}

impl CodegenVisibility {
    /// Whether client code is generated for a declaration that is private or not.
    pub open spec fn shows(self, is_private: bool) -> bool {
        self == CodegenVisibility::IncludePrivate || !is_private
    }

    /// Whether client code is generated for a declaration that is private or not.
    pub fn includes(self, is_private: bool) -> (shown: bool)
        ensures
            shown == self.shows(is_private),
    {
        match self {
            CodegenVisibility::IncludePrivate => true,
            CodegenVisibility::OnlyPublic => !is_private,
        }
    }
}

impl Relation {
    /// The name that the relation goes by in client code.
    pub open spec fn accessor(self) -> Seq<char> {
        match self {
            Relation::Table(table) => table.accessor_name@,
            Relation::View(view) => view.accessor_name@,
        }
    }

    /// The row type.
    pub open spec fn row_ref(self) -> AlgebraicTypeRef {
        match self {
            Relation::Table(table) => table.product_type_ref,
            Relation::View(view) => view.product_type_ref,
        }
    }

    /// The column that is the primary key, if there is one.
    pub open spec fn key(self) -> Option<u16> {
        match self {
            Relation::Table(table) => table.primary_key,
            Relation::View(view) => view.primary_key,
        }
    }

    /// Whether client code is generated for the relation: for every view, and for the tables that
    /// `visibility` shows.
    pub open spec fn is_covered(self, visibility: CodegenVisibility) -> bool {
        match self {
            Relation::Table(table) => visibility.shows(table.is_private),
            Relation::View(view) => true,
        }
    }

    /// The name that the relation goes by in client code.
    pub fn accessor_name(&self) -> (name: &String)
        ensures
            name@ == self.accessor(),
    {
        match self {
            Relation::Table(table) => &table.accessor_name,
            Relation::View(view) => &view.accessor_name,
        }
    }

    /// The row type.
    pub fn product_type_ref(&self) -> (r: AlgebraicTypeRef)
        ensures
            r == self.row_ref(),
    {
        match self {
            Relation::Table(table) => table.product_type_ref,
            Relation::View(view) => view.product_type_ref,
        }
    }

    /// Whether there is a primary key.
    pub fn has_key(&self) -> (has: bool)
        ensures
            has == self.key() is Some,
    {
        match self {
            Relation::Table(table) => table.primary_key.is_some(),
            Relation::View(view) => view.primary_key.is_some(),
        }
    }

    /// Whether client code is generated for the relation.
    pub fn covered(&self, visibility: CodegenVisibility) -> (covered: bool)
        ensures
            covered == self.is_covered(visibility),
    {
        match self {
            Relation::Table(table) => visibility.includes(table.is_private),
            Relation::View(_) => true,
        }
    }
}

impl ReducerDef {
    /// Whether client code is generated for the reducer: it is shown, and a client may invoke it.
    pub open spec fn is_covered(self, visibility: CodegenVisibility) -> bool {
        visibility.shows(self.is_private) && self.is_invokable
    }

    /// Whether client code is generated for the reducer.
    pub fn covered(&self, visibility: CodegenVisibility) -> (covered: bool)
        ensures
            covered == self.is_covered(visibility),
    {
        visibility.includes(self.is_private) && self.is_invokable
    }
}

impl ProcedureDef {
    /// Whether client code is generated for the procedure.
    pub open spec fn is_covered(self, visibility: CodegenVisibility) -> bool {
        visibility.shows(self.is_private)
    }

    /// Whether client code is generated for the procedure.
    pub fn covered(&self, visibility: CodegenVisibility) -> (covered: bool)
        ensures
            covered == self.is_covered(visibility),
    {
        visibility.includes(self.is_private)
    }
}

/// A module: the types that it defines, and its declarations in the order in which client code is
/// generated for them.
#[derive(Debug)]
pub struct ModuleDef {
    pub types: Vec<TypeDef>,
    pub relations: Vec<Relation>,
    pub reducers: Vec<ReducerDef>,
    pub procedures: Vec<ProcedureDef>,
}

/// The first definition in `types` that `r` refers to.
pub open spec fn find_type(types: Seq<TypeDef>, r: AlgebraicTypeRef) -> Option<TypeDef>
    decreases types.len(),
{
    if types.len() == 0 {
        None
    } else if types[0].type_ref == r {
        Some(types[0])
    } else {
        find_type(types.drop_first(), r)
    }
}

impl ModuleDef {
    /// The definition that `r` refers to, if there is one.
    pub open spec fn type_def(self, r: AlgebraicTypeRef) -> Option<TypeDef> {
        find_type(self.types@, r)
    }

    /// Whether the module defines every type of `refs`.
    pub open spec fn defines(self, refs: Set<AlgebraicTypeRef>) -> bool {
        forall|r: AlgebraicTypeRef| #[trigger] refs.contains(r) ==> self.type_def(r) is Some
    }

    /// Looks up the definition that `r` refers to.
    pub fn type_def_from_ref(&self, r: AlgebraicTypeRef) -> (found: Option<&TypeDef>)
        ensures
            found is Some <==> self.type_def(r) is Some,
            found is Some ==> *found->0 == self.type_def(r)->0,
    {
        assert(self.types@.skip(0) =~= self.types@);
        for i in 0..self.types.len()
            invariant
                find_type(self.types@.skip(i as int), r) == find_type(self.types@, r),
        {
            assert(self.types@.skip(i as int).drop_first() =~= self.types@.skip(i + 1));
            if self.types[i].type_ref == r {
                return Some(&self.types[i]);
            }
        }
        None
    }
}

} // verus!
