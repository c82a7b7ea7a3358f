//! How types are rendered, by their parts.

use vstd::prelude::*;
use crate::casing::{case_collected, case_converted, pascal, snake, Case};
use crate::refs::param_refs;
use crate::schema::{
    find_type, AlgebraicTypeRef, AlgebraicTypeUse, ModuleDef, ParamDef, PrimitiveType, TypeDef,
};
use crate::text::{joined, texts};
use crate::types::{
    alias_texts, hook_type_text, qualification_text, qualified_names, type_module_text,
    type_ref_text, type_text,
};

verus! {

/// An array is rendered as a `Vec` of its element type, an optional type as an `Option` of it, and
/// a result as a `Result` of both its types, whatever these are.
pub proof fn law_types_are_rendered_from_their_parts(
    module: ModuleDef,
    aliases: Map<AlgebraicTypeRef, Seq<char>>,
    a: AlgebraicTypeUse,
    b: AlgebraicTypeUse,
)
    ensures
        type_text(module, AlgebraicTypeUse::Array(Box::new(a)), aliases) == "Vec<"@ + type_text(
            module,
            a,
            aliases,
        ) + ">"@,
        type_text(module, AlgebraicTypeUse::Option(Box::new(a)), aliases) == "Option<"@ + type_text(
            module,
            a,
            aliases,
        ) + ">"@,
        type_text(
            module,
            AlgebraicTypeUse::Result { ok_ty: Box::new(a), err_ty: Box::new(b) },
            aliases,
        ) == "Result<"@ + type_text(module, a, aliases) + ", "@ + type_text(module, b, aliases)
            + ">"@,
{
}

/// A type without parts has one spelling in every module, under all aliases.
pub proof fn law_other_types_have_one_spelling(
    module: ModuleDef,
    aliases: Map<AlgebraicTypeRef, Seq<char>>,
)
    ensures
        type_text(module, AlgebraicTypeUse::Unit, aliases) == "()"@,
        type_text(module, AlgebraicTypeUse::Never, aliases) == "std::convert::Infallible"@,
        type_text(module, AlgebraicTypeUse::Identity, aliases) == "__sdk::Identity"@,
        type_text(module, AlgebraicTypeUse::ConnectionId, aliases) == "__sdk::ConnectionId"@,
        type_text(module, AlgebraicTypeUse::Timestamp, aliases) == "__sdk::Timestamp"@,
        type_text(module, AlgebraicTypeUse::TimeDuration, aliases) == "__sdk::TimeDuration"@,
        type_text(module, AlgebraicTypeUse::Uuid, aliases) == "__sdk::Uuid"@,
        type_text(module, AlgebraicTypeUse::ScheduleAt, aliases) == "__sdk::ScheduleAt"@,
        type_text(module, AlgebraicTypeUse::String, aliases) == "String"@,
        forall|p: PrimitiveType| #[trigger]
            type_text(module, AlgebraicTypeUse::Primitive(p), aliases) == match p {
                PrimitiveType::Bool => "bool"@,
                PrimitiveType::I8 => "i8"@,
                PrimitiveType::U8 => "u8"@,
                PrimitiveType::I16 => "i16"@,
                PrimitiveType::U16 => "u16"@,
                PrimitiveType::I32 => "i32"@,
                PrimitiveType::U32 => "u32"@,
                PrimitiveType::I64 => "i64"@,
                PrimitiveType::U64 => "u64"@,
                PrimitiveType::I128 => "i128"@,
                PrimitiveType::U128 => "u128"@,
                PrimitiveType::I256 => "__sats::i256"@,
                PrimitiveType::U256 => "__sats::u256"@,
                PrimitiveType::F32 => "f32"@,
                PrimitiveType::F64 => "f64"@,
            },
{
}

/// A type of the module goes by its alias where it has one, and by its own name where it has none.
pub proof fn law_aliases_stand_for_their_types(
    module: ModuleDef,
    aliases: Map<AlgebraicTypeRef, Seq<char>>,
    r: AlgebraicTypeRef,
)
    ensures
        aliases.contains_key(r) ==> type_text(module, AlgebraicTypeUse::Ref(r), aliases)
            == aliases[r],
        !aliases.contains_key(r) ==> type_text(module, AlgebraicTypeUse::Ref(r), aliases)
            == type_ref_text(module, r),
{
}

/// A type mentions what its parts mention, and a reference mentions what it refers to.
pub proof fn law_types_mention_what_their_parts_mention(
    a: AlgebraicTypeUse,
    b: AlgebraicTypeUse,
    r: AlgebraicTypeRef,
    p: PrimitiveType,
)
    ensures
        AlgebraicTypeUse::Array(Box::new(a)).refs() == a.refs(),
        AlgebraicTypeUse::Option(Box::new(a)).refs() == a.refs(),
        (AlgebraicTypeUse::Result { ok_ty: Box::new(a), err_ty: Box::new(b) }).refs()
            == a.refs().union(b.refs()),
        AlgebraicTypeUse::Ref(r).refs() == set![r],
        AlgebraicTypeUse::Primitive(p).refs() == Set::<AlgebraicTypeRef>::empty(),
        AlgebraicTypeUse::String.refs() == Set::<AlgebraicTypeRef>::empty(),
{
}

/// A list of parameters mentions exactly what one of them mentions.
pub proof fn law_parameters_mention_what_one_of_them_mentions(
    params: Seq<ParamDef>,
    r: AlgebraicTypeRef,
)
    ensures
        param_refs(params).contains(r) <==> (exists|i: int|
            0 <= i < params.len() && (#[trigger] params[i]).ty.refs().contains(r)),
    decreases params.len(),
{
    if params.len() > 0 {
        let shorter = params.drop_last();
        law_parameters_mention_what_one_of_them_mentions(shorter, r);
        if exists|i: int| 0 <= i < shorter.len() && (#[trigger] shorter[i]).ty.refs().contains(r) {
            let i = choose|i: int|
                0 <= i < shorter.len() && (#[trigger] shorter[i]).ty.refs().contains(r);
            assert(params[i] == shorter[i]);
        }
        if exists|i: int| 0 <= i < params.len() && (#[trigger] params[i]).ty.refs().contains(r) {
            let i = choose|i: int|
                0 <= i < params.len() && (#[trigger] params[i]).ty.refs().contains(r);
            if i < shorter.len() {
                assert(shorter[i] == params[i]);
            }
        }
        assert(params.last() == params[params.len() - 1]);
    }
}

/// What a reference refers to is the first definition that carries it; there is none where no
/// definition carries it.
pub proof fn law_the_first_definition_counts(module: ModuleDef, r: AlgebraicTypeRef, i: int)
    requires
        0 <= i < module.types@.len(),
        forall|j: int| 0 <= j < i ==> (#[trigger] module.types@[j]).type_ref != r,
    ensures
        module.types@[i].type_ref == r ==> module.type_def(r) == Some(module.types@[i]),
        i == module.types@.len() - 1 && module.types@[i].type_ref != r ==> module.type_def(r)
            is None,
{
    lemma_find(module.types@, r, i);
}

proof fn lemma_find(types: Seq<TypeDef>, r: AlgebraicTypeRef, i: int)
    requires
        0 <= i < types.len(),
        forall|j: int| 0 <= j < i ==> (#[trigger] types[j]).type_ref != r,
    ensures
        types[i].type_ref == r ==> find_type(types, r) == Some(types[i]),
        i == types.len() - 1 && types[i].type_ref != r ==> find_type(types, r) is None,
    decreases types.len(),
{
    reveal_with_fuel(find_type, 2);
    if i > 0 {
        assert(types[0].type_ref != r);
        let rest = types.drop_first();
        assert forall|j: int| 0 <= j < i - 1 implies (#[trigger] rest[j]).type_ref != r by {
            assert(rest[j] == types[j + 1]);
        }
        lemma_find(rest, r, i - 1);
    } else if types[0].type_ref != r && types.len() == 1 {
        assert(types.drop_first().len() == 0);
    }
}

/// The segments of a scoped name are joined as words of the case are: by an underscore in snake case
/// and directly in Pascal case.
pub proof fn law_segments_are_joined_as_words(segments: Seq<Seq<char>>)
    ensures
        case_collected(Case::Snake, segments) == joined(
            Seq::new(segments.len(), |i: int| case_converted(segments[i], Case::Snake)),
            "_"@,
        ),
        case_collected(Case::Pascal, segments) == joined(
            Seq::new(segments.len(), |i: int| case_converted(segments[i], Case::Pascal)),
            ""@,
        ),
        Case::Snake.delimiter() == "_"@,
        Case::Pascal.delimiter() == ""@,
        forall|text: Seq<char>| #[trigger] snake(text) == case_converted(text, Case::Snake),
        forall|text: Seq<char>| #[trigger] pascal(text) == case_converted(text, Case::Pascal),
{
    assert(segments.map_values(|s: Seq<char>| case_converted(s, Case::Snake)) =~= Seq::new(
        segments.len(),
        |i: int| case_converted(segments[i], Case::Snake),
    ));
    assert(segments.map_values(|s: Seq<char>| case_converted(s, Case::Pascal)) =~= Seq::new(
        segments.len(),
        |i: int| case_converted(segments[i], Case::Pascal),
    ));
}

/// A module defines a set of types where each of them has a definition; the texts of aliases are
/// theirs, one for one.
pub proof fn law_definitions_and_aliases(
    module: ModuleDef,
    refs: Set<AlgebraicTypeRef>,
    aliases: Map<AlgebraicTypeRef, String>,
    r: AlgebraicTypeRef,
)
    ensures
        module.defines(refs) && refs.contains(r) ==> module.type_def(r) is Some,
        module.defines(refs.insert(r)) == (module.defines(refs) && module.type_def(r) is Some),
        module.defines(Set::empty()),
        alias_texts(aliases).contains_key(r) == aliases.contains_key(r),
        aliases.contains_key(r) ==> alias_texts(aliases)[r] == aliases[r]@,
{
    if module.defines(refs.insert(r)) {
        assert(refs.insert(r).contains(r));
        assert forall|q: AlgebraicTypeRef| #[trigger] refs.contains(q) implies module.type_def(q)
            is Some by {
            assert(refs.insert(r).contains(q));
        }
    }
}

/// A parameter's type is spelled in a hook, next to a struct called `wrapper`, with every mention
/// of a type of that name qualified by its module. Where there is no such mention a type of the
/// module goes by its name, and any other as the Rust bindings have it.
pub proof fn law_how_a_hook_spells_a_type(
    module: ModuleDef,
    ty: AlgebraicTypeUse,
    rust_name: Seq<char>,
    wrapper: Seq<char>,
)
    ensures
        ({
            let spelling = hook_type_text(module, ty, rust_name, wrapper);
            let conflicts = exists|r: AlgebraicTypeRef| #[trigger]
                ty.refs().contains(r) && type_ref_text(module, r) == wrapper;
            &&& !conflicts && !(ty is Ref) ==> spelling == rust_name
            &&& !conflicts && ty is Ref ==> spelling == type_ref_text(module, ty->Ref_0)
            &&& conflicts ==> spelling == type_text(
                module,
                ty,
                Map::new(
                    |r: AlgebraicTypeRef|
                        ty.refs().contains(r) && type_ref_text(module, r) == wrapper,
                    |r: AlgebraicTypeRef| type_module_text(module, r) + "::"@ + wrapper,
                ),
            )
        }),
{
    assert(qualified_names(module, ty.refs(), wrapper) =~= Map::new(
        |r: AlgebraicTypeRef| ty.refs().contains(r) && type_ref_text(module, r) == wrapper,
        |r: AlgebraicTypeRef| type_module_text(module, r) + "::"@ + wrapper,
    ));
}

/// A name is qualified exactly where it is taken, by the module that defines the type.
pub proof fn law_taken_names_are_qualified(
    name: Seq<char>,
    module_name: Seq<char>,
    taken: Seq<char>,
)
    ensures
        name == taken ==> qualification_text(name, module_name, taken) == Some(
            module_name + "::"@ + name,
        ),
        name != taken ==> qualification_text(name, module_name, taken) is None,
{
}

/// A type is called like the segments of its scoped name in Pascal case, one after the other; its
/// module like them in snake case, with an underscore between two of them, and `_type` at the end.
pub proof fn law_types_are_called_after_their_segments(
    module: ModuleDef,
    r: AlgebraicTypeRef,
    def: TypeDef,
)
    requires
        module.type_def(r) == Some(def),
    ensures
        type_ref_text(module, r) == joined(
            Seq::new(
                def.name_segments@.len(),
                |i: int| case_converted(def.name_segments@[i]@, Case::Pascal),
            ),
            ""@,
        ),
        type_module_text(module, r) == joined(
            Seq::new(
                def.name_segments@.len(),
                |i: int| case_converted(def.name_segments@[i]@, Case::Snake),
            ),
            "_"@,
        ) + "_type"@,
{
    let segments = def.name_segments@;
    assert(texts(segments).map_values(|s: Seq<char>| case_converted(s, Case::Pascal)) =~= Seq::new(
        segments.len(),
        |i: int| case_converted(def.name_segments@[i]@, Case::Pascal),
    ));
    assert(texts(segments).map_values(|s: Seq<char>| case_converted(s, Case::Snake)) =~= Seq::new(
        segments.len(),
        |i: int| case_converted(def.name_segments@[i]@, Case::Snake),
    ));
}

} // verus!
