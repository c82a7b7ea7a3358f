//! Rendering a type as a Rust type expression, and the names of the types that a module defines.

use vstd::prelude::*;
use std::collections::{BTreeSet, HashMap};
use crate::casing::{case_collected, collect_case, Case};
use crate::refs::{insert_refs, sorted};
use crate::schema::{AlgebraicTypeRef, AlgebraicTypeUse, ModuleDef, PrimitiveType};
use crate::text::texts;

verus! {

/// The Rust name of the type that `r` refers to.
pub open spec fn type_ref_text(module: ModuleDef, r: AlgebraicTypeRef) -> Seq<char> {
    case_collected(Case::Pascal, texts(module.type_def(r)->0.name_segments@))
}

/// The module that the client bindings define the type in that `r` refers to.
pub open spec fn type_module_text(module: ModuleDef, r: AlgebraicTypeRef) -> Seq<char> {
    case_collected(Case::Snake, texts(module.type_def(r)->0.name_segments@)) + "_type"@
}

/// The Rust name of a primitive type.
pub open spec fn primitive_text(prim: PrimitiveType) -> Seq<char> {
    match prim {
        PrimitiveType::Bool => "bool"@,
        PrimitiveType::I8 => "i8"@,
        PrimitiveType::U8 => "u8"@,
        PrimitiveType::I16 => "i16"@,
        PrimitiveType::U16 => "u16"@,
        PrimitiveType::I32 => "i32"@,
        PrimitiveType::U32 => "u32"@,
        PrimitiveType::I64 => "i64"@,
        PrimitiveType::U64 => "u64"@,
        PrimitiveType::I128 => "i128"@,
        PrimitiveType::U128 => "u128"@,
        PrimitiveType::I256 => "__sats::i256"@,
        PrimitiveType::U256 => "__sats::u256"@,
        PrimitiveType::F32 => "f32"@,
        PrimitiveType::F64 => "f64"@,
    }
}

/// The texts of a map of aliases.
pub open spec fn alias_texts(aliases: Map<AlgebraicTypeRef, String>) -> Map<
    AlgebraicTypeRef,
    Seq<char>,
> {
    aliases.map_values(|alias: String| alias@)
}

/// `ty` as a Rust type expression, in which a type of the module goes by its alias where it has
/// one and by its own name otherwise.
pub open spec fn type_text(
    module: ModuleDef,
    ty: AlgebraicTypeUse,
    aliases: Map<AlgebraicTypeRef, Seq<char>>,
) -> Seq<char>
    decreases ty,
{
    match ty {
        AlgebraicTypeUse::Unit => "()"@,
        AlgebraicTypeUse::Never => "std::convert::Infallible"@,
        AlgebraicTypeUse::Identity => "__sdk::Identity"@,
        AlgebraicTypeUse::ConnectionId => "__sdk::ConnectionId"@,
        AlgebraicTypeUse::Timestamp => "__sdk::Timestamp"@,
        AlgebraicTypeUse::TimeDuration => "__sdk::TimeDuration"@,
        AlgebraicTypeUse::Uuid => "__sdk::Uuid"@,
        AlgebraicTypeUse::ScheduleAt => "__sdk::ScheduleAt"@,
        AlgebraicTypeUse::Option(inner) => "Option<"@ + type_text(module, *inner, aliases) + ">"@,
        AlgebraicTypeUse::Result { ok_ty, err_ty } => "Result<"@ + type_text(
            module,
            *ok_ty,
            aliases,
        ) + ", "@ + type_text(module, *err_ty, aliases) + ">"@,
        AlgebraicTypeUse::Primitive(prim) => primitive_text(prim),
        AlgebraicTypeUse::String => "String"@,
        AlgebraicTypeUse::Array(elem) => "Vec<"@ + type_text(module, *elem, aliases) + ">"@,
        AlgebraicTypeUse::Ref(r) => if aliases.contains_key(r) {
            aliases[r]
        } else {
            type_ref_text(module, r)
        },
    }
}

/// Whether every type of the module that `ty` mentions has an alias or a definition.
pub open spec fn renderable(
    module: ModuleDef,
    ty: AlgebraicTypeUse,
    aliases: Map<AlgebraicTypeRef, Seq<char>>,
) -> bool {
    forall|r: AlgebraicTypeRef| #[trigger]
        ty.refs().contains(r) ==> aliases.contains_key(r) || module.type_def(r) is Some
}

/// The Rust name of the type that `type_ref` refers to.
pub fn type_ref_name(module: &ModuleDef, type_ref: AlgebraicTypeRef) -> (name: String)
    requires
        module.type_def(type_ref) is Some,
    ensures
        name@ == type_ref_text(*module, type_ref),
{
    let def = module.type_def_from_ref(type_ref).unwrap();
    collect_case(Case::Pascal, &def.name_segments)
}

/// The module name for a type reference (e.g., "create_event_args_type").
pub fn get_type_module_name(module: &ModuleDef, type_ref: AlgebraicTypeRef) -> (name: String)
    requires
        module.type_def(type_ref) is Some,
    ensures
        name@ == type_module_text(*module, type_ref),
{
    let def = module.type_def_from_ref(type_ref).unwrap();
    let mut name = collect_case(Case::Snake, &def.name_segments);
    name.append("_type");
    name
}

fn primitive_name(prim: PrimitiveType) -> (name: &'static str)
    ensures
        name@ == primitive_text(prim),
{
    match prim {
        PrimitiveType::Bool => "bool",
        PrimitiveType::I8 => "i8",
        PrimitiveType::U8 => "u8",
        PrimitiveType::I16 => "i16",
        PrimitiveType::U16 => "u16",
        PrimitiveType::I32 => "i32",
        PrimitiveType::U32 => "u32",
        PrimitiveType::I64 => "i64",
        PrimitiveType::U64 => "u64",
        PrimitiveType::I128 => "i128",
        PrimitiveType::U128 => "u128",
        PrimitiveType::I256 => "__sats::i256",
        PrimitiveType::U256 => "__sats::u256",
        PrimitiveType::F32 => "f32",
        PrimitiveType::F64 => "f64",
    }
}

/// Appends `ty` as a Rust type expression, types with an alias going by it.
pub fn write_type_inline(
    module: &ModuleDef,
    out: &mut String,
    ty: &AlgebraicTypeUse,
    aliases: &HashMap<AlgebraicTypeRef, String>,
)
    requires
        renderable(*module, *ty, alias_texts(aliases@)),
    ensures
        final(out)@ == old(out)@ + type_text(*module, *ty, alias_texts(aliases@)),
    decreases ty,
{
    broadcast use vstd::std_specs::hash::group_hash_axioms;

    match ty {
        AlgebraicTypeUse::Unit => out.append("()"),
        AlgebraicTypeUse::Never => out.append("std::convert::Infallible"),
        AlgebraicTypeUse::Identity => out.append("__sdk::Identity"),
        AlgebraicTypeUse::ConnectionId => out.append("__sdk::ConnectionId"),
        AlgebraicTypeUse::Timestamp => out.append("__sdk::Timestamp"),
        AlgebraicTypeUse::TimeDuration => out.append("__sdk::TimeDuration"),
        AlgebraicTypeUse::Uuid => out.append("__sdk::Uuid"),
        AlgebraicTypeUse::ScheduleAt => out.append("__sdk::ScheduleAt"),
        AlgebraicTypeUse::Option(inner) => {
            assert(ty.refs() == inner.refs());
            out.append("Option<");
            write_type_inline(module, out, inner, aliases);
            out.append(">");
        },
        AlgebraicTypeUse::Result { ok_ty, err_ty } => {
            assert(ok_ty.refs().subset_of(ty.refs()));
            assert(err_ty.refs().subset_of(ty.refs()));
            out.append("Result<");
            write_type_inline(module, out, ok_ty, aliases);
            out.append(", ");
            write_type_inline(module, out, err_ty, aliases);
            out.append(">");
        },
        AlgebraicTypeUse::Primitive(prim) => out.append(primitive_name(*prim)),
        AlgebraicTypeUse::String => out.append("String"),
        AlgebraicTypeUse::Array(elem) => {
            assert(ty.refs() == elem.refs());
            out.append("Vec<");
            write_type_inline(module, out, elem, aliases);
            out.append(">");
        },
        AlgebraicTypeUse::Ref(r) => {
            assert(ty.refs().contains(*r));
            if let Some(alias) = aliases.get(r) {
                out.append(alias.as_str());
            } else {
                out.append(type_ref_name(module, *r).as_str());
            }
        },
    }
}

/// Appends `ty` as a Rust type expression, types with an alias going by it.
pub fn write_type_to_string(
    s: &mut String,
    module: &ModuleDef,
    ty: &AlgebraicTypeUse,
    aliases: &HashMap<AlgebraicTypeRef, String>,
)
    requires
        renderable(*module, *ty, alias_texts(aliases@)),
    ensures
        final(s)@ == old(s)@ + type_text(*module, *ty, alias_texts(aliases@)),
{
    write_type_inline(module, s, ty, aliases);
}

/// A type's name, qualified by the module that defines it.
pub open spec fn qualified_text(module_name: Seq<char>, name: Seq<char>) -> Seq<char> {
    module_name + "::"@ + name
}

/// How a type called `name` is spelled where that is also the name `taken`, if it is.
pub open spec fn qualification_text(
    name: Seq<char>,
    module_name: Seq<char>,
    taken: Seq<char>,
) -> Option<Seq<char>> {
    if name == taken {
        Some(qualified_text(module_name, name))
    } else {
        None
    }
}

/// Those types of `refs` that are called `wrapper`, qualified by their modules.
pub open spec fn qualified_names(
    module: ModuleDef,
    refs: Set<AlgebraicTypeRef>,
    wrapper: Seq<char>,
) -> Map<AlgebraicTypeRef, Seq<char>> {
    Map::new(
        |r: AlgebraicTypeRef| refs.contains(r) && type_ref_text(module, r) == wrapper,
        |r: AlgebraicTypeRef| qualified_text(type_module_text(module, r), type_ref_text(module, r)),
    )
}

/// Whether `ty` mentions, at any depth, a type of the module that is called `wrapper`.
pub open spec fn mentions_name(
    module: ModuleDef,
    ty: AlgebraicTypeUse,
    wrapper: Seq<char>,
) -> bool {
    exists|r: AlgebraicTypeRef| #[trigger]
        ty.refs().contains(r) && type_ref_text(module, r) == wrapper
}

/// How a hook spells a parameter's type next to a wrapper struct called `wrapper`: with the types
/// of that name qualified if it mentions one; else a type of the module by its name, and any other
/// as `rust_name` has it.
pub open spec fn hook_type_text(
    module: ModuleDef,
    ty: AlgebraicTypeUse,
    rust_name: Seq<char>,
    wrapper: Seq<char>,
) -> Seq<char> {
    if mentions_name(module, ty, wrapper) {
        type_text(module, ty, qualified_names(module, ty.refs(), wrapper))
    } else {
        match ty {
            AlgebraicTypeUse::Ref(r) => type_ref_text(module, r),
            _ => rust_name,
        }
    }
}

/// How a type called `name` is spelled where that is also the name `taken`, if it is.
pub fn qualification(name: String, module_name: &str, taken: &str) -> (qualified: Option<String>)
    ensures
        match qualified {
            Some(qualified) => qualification_text(name@, module_name@, taken@) == Some(
                qualified@,
            ),
            None => qualification_text(name@, module_name@, taken@) is None,
        },
{
    if name == taken.to_owned() {
        let mut qualified = module_name.to_owned();
        qualified.append("::");
        qualified.append(name.as_str());
        Some(qualified)
    } else {
        None
    }
}

/// Those types that `ty` mentions and that are called `wrapper`, qualified by their modules.
#[verifier::loop_isolation(false)]
fn qualify(module: &ModuleDef, ty: &AlgebraicTypeUse, wrapper: &str) -> (qualified: HashMap<
    AlgebraicTypeRef,
    String,
>)
    requires
        renderable(*module, *ty, Map::empty()),
    ensures
        alias_texts(qualified@) == qualified_names(*module, ty.refs(), wrapper@),
{
    broadcast use vstd::std_specs::hash::group_hash_axioms;

    let mut mentioned: BTreeSet<AlgebraicTypeRef> = BTreeSet::new();
    insert_refs(ty, &mut mentioned);
    assert(mentioned@ =~= ty.refs());
    let refs = sorted(&mentioned);
    let mut qualified: HashMap<AlgebraicTypeRef, String> = HashMap::new();
    for i in 0..refs.len()
        invariant
            forall|r: AlgebraicTypeRef| #[trigger]
                qualified@.contains_key(r) <==> (exists|j: int| 0 <= j < i && refs@[j] == r)
                    && type_ref_text(*module, r) == wrapper@,
            forall|r: AlgebraicTypeRef| #[trigger]
                qualified@.contains_key(r) ==> qualified@[r]@ == qualified_text(
                    type_module_text(*module, r),
                    type_ref_text(*module, r),
                ),
    {
        let r = refs[i];
        assert(refs@.to_set().contains(r));
        let module_name = get_type_module_name(module, r);
        if let Some(name) = qualification(type_ref_name(module, r), module_name.as_str(), wrapper) {
            qualified.insert(r, name);
        }
    }
    proof {
        assert forall|r: AlgebraicTypeRef|
            ty.refs().contains(r) == (exists|j: int| 0 <= j < refs@.len() && refs@[j] == r) by {
            assert(refs@.to_set().contains(r) == refs@.contains(r));
        }
        assert(alias_texts(qualified@) =~= qualified_names(*module, ty.refs(), wrapper@));
    }
    qualified
}

/// The name of a parameter's type for use in a hook, with module qualification, at any depth, of
/// the types whose names would conflict with the wrapper struct of the reducer or procedure.
///
/// `rust_name` is the type as the Rust client bindings spell it.
pub fn type_name_for_hook(
    module: &ModuleDef,
    ty: &AlgebraicTypeUse,
    rust_name: &str,
    reducer_wrapper_name: &str,
) -> (name: String)
    requires
        renderable(*module, *ty, Map::empty()),
    ensures
        name@ == hook_type_text(*module, *ty, rust_name@, reducer_wrapper_name@),
{
    broadcast use vstd::std_specs::hash::group_hash_axioms;

    let qualified = qualify(module, ty, reducer_wrapper_name);
    let ghost names = qualified_names(*module, ty.refs(), reducer_wrapper_name@);
    assert(alias_texts(qualified@).dom() =~= qualified@.dom());
    if qualified.len() == 0 {
        proof {
            assert(qualified@.dom() =~= Set::empty());
            assert forall|r: AlgebraicTypeRef| #[trigger] ty.refs().contains(r) implies type_ref_text(
                *module,
                r,
            ) != reducer_wrapper_name@ by {
                assert(!names.contains_key(r));
            }
        }
        match ty {
            AlgebraicTypeUse::Ref(r) => {
                assert(ty.refs().contains(*r));
                type_ref_name(module, *r)
            },
            _ => rust_name.to_owned(),
        }
    } else {
        proof {
            let r = qualified@.dom().choose();
            assert(qualified@.dom().contains(r));
            assert(names.contains_key(r));
            assert(ty.refs().contains(r));
        }
        let mut name = String::new();
        write_type_to_string(&mut name, module, ty, &qualified);
        assert(name@ =~= type_text(*module, *ty, names));
        name
    }
}

} // verus!
