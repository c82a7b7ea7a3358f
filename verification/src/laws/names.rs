//! No type of the module, however deep it stands in a parameter's type, is mistaken for the struct
//! that wraps the arguments.

use vstd::prelude::*;
use crate::args::{arg_names_text, args_type_text, ArgView};
use crate::casing::{pascal, snake};
use crate::collect::{hook_arg_views, reducer_info_view};
use crate::reducer_file::{
    alias_map, alias_text, import_view, lemma_fresh_name, reducer_file_view, reducer_filename,
    type_names,
};
use crate::refs::{ascending, in_order, lemma_in_order, lemma_param_refs_contain, param_refs};
use crate::schema::{AlgebraicTypeRef, AlgebraicTypeUse, ModuleDef, ParamDef, ReducerDef};
use crate::types::{
    mentions_name, qualified_names, qualified_text, type_module_text, type_ref_text, type_text,
};
use super::containing::{
    contains_text, lemma_contains_after, lemma_contains_before, lemma_contains_itself,
};

verus! {

/// The name that the file of `reducer` uses for the type that `r` refers to.
pub open spec fn name_in_file(
    module: ModuleDef,
    reducer: ReducerDef,
    r: AlgebraicTypeRef,
) -> Seq<char> {
    import_view(
        module,
        r,
        args_type_text(pascal(reducer.accessor_name@)),
        type_names(module, in_order(param_refs(reducer.params_for_generate@))),
    ).bound_name()
}

/// The file of a reducer imports exactly the types that the reducer's parameters mention, each
/// once, in ascending order.
pub proof fn law_imports_are_the_mentioned_types(module: ModuleDef, reducer: ReducerDef)
    ensures
        ({
            let refs = param_refs(reducer.params_for_generate@);
            let wrapper = args_type_text(pascal(reducer.accessor_name@));
            let imports = reducer_file_view(module, reducer).imports;
            &&& ascending(in_order(refs))
            &&& in_order(refs).to_set() == refs
            &&& imports.len() == in_order(refs).len()
            &&& forall|i: int|
                0 <= i < imports.len() ==> #[trigger] imports[i] == import_view(
                    module,
                    in_order(refs)[i],
                    wrapper,
                    type_names(module, in_order(refs)),
                )
        }),
{
    lemma_in_order(param_refs(reducer.params_for_generate@));
}

/// No import of a reducer's file binds the name of the struct that wraps the arguments.
pub proof fn law_no_import_shadows_the_wrapper(module: ModuleDef, reducer: ReducerDef, i: int)
    requires
        0 <= i < reducer_file_view(module, reducer).imports.len(),
    ensures
        reducer_file_view(module, reducer).imports[i].bound_name() != args_type_text(
            reducer_file_view(module, reducer).variant_name,
        ),
{
    reveal_strlit("Type");
    let wrapper = args_type_text(pascal(reducer.accessor_name@));
    let names = type_names(module, in_order(param_refs(reducer.params_for_generate@)));
    let import = reducer_file_view(module, reducer).imports[i];
    if import.name == wrapper {
        lemma_fresh_name(wrapper + "Type"@, names);
        assert(import.bound_name().len() >= wrapper.len() + 4);
    }
}

/// Two types of different names are imported under different names.
pub proof fn law_imports_bind_different_names(
    module: ModuleDef,
    reducer: ReducerDef,
    i: int,
    j: int,
)
    requires
        0 <= i < j < reducer_file_view(module, reducer).imports.len(),
        reducer_file_view(module, reducer).imports[i].name != reducer_file_view(
            module,
            reducer,
        ).imports[j].name,
    ensures
        reducer_file_view(module, reducer).imports[i].bound_name() != reducer_file_view(
            module,
            reducer,
        ).imports[j].bound_name(),
{
    let wrapper = args_type_text(pascal(reducer.accessor_name@));
    let names = type_names(module, in_order(param_refs(reducer.params_for_generate@)));
    let imports = reducer_file_view(module, reducer).imports;
    lemma_fresh_name(wrapper + "Type"@, names);
    assert(names[i] == imports[i].name);
    assert(names[j] == imports[j].name);
    assert(names.contains(imports[i].name));
    assert(names.contains(imports[j].name));
}

/// The alias is the type's name with "Type" appended, wherever no imported type has that name.
pub proof fn law_the_alias_is_plain_where_it_is_free(
    name: Seq<char>,
    taken: Seq<char>,
    names: Seq<Seq<char>>,
)
    requires
        name == taken,
        !names.contains(name + "Type"@),
    ensures
        alias_text(name, taken, names) == Some(name + "Type"@),
{
}

/// In the file of a reducer every type of the module goes by the name that its import binds.
pub proof fn law_arguments_use_the_imported_names(module: ModuleDef, reducer: ReducerDef, i: int)
    requires
        0 <= i < reducer.params_for_generate@.len(),
    ensures
        reducer_file_view(module, reducer).args[i].ty == type_text(
            module,
            reducer.params_for_generate@[i].ty,
            Map::new(
                |r: AlgebraicTypeRef| true,
                |r: AlgebraicTypeRef| name_in_file(module, reducer, r),
            ),
        ),
{
    let params = reducer.params_for_generate@;
    let wrapper = args_type_text(pascal(reducer.accessor_name@));
    let aliases = alias_map(
        module,
        param_refs(params),
        wrapper,
        type_names(module, in_order(param_refs(params))),
    );
    let names = Map::new(
        |r: AlgebraicTypeRef| true,
        |r: AlgebraicTypeRef| name_in_file(module, reducer, r),
    );
    lemma_param_refs_contain(params, i);
    assert forall|r: AlgebraicTypeRef| #[trigger] params[i].ty.refs().contains(r) implies spelled(
        module,
        r,
        aliases,
    ) == spelled(module, r, names) by {
        assert(param_refs(params).contains(r));
    }
    law_only_mentioned_aliases_matter(module, params[i].ty, aliases, names);
}

/// How a type of the module is spelled.
pub open spec fn spelled(
    module: ModuleDef,
    r: AlgebraicTypeRef,
    aliases: Map<AlgebraicTypeRef, Seq<char>>,
) -> Seq<char> {
    if aliases.contains_key(r) {
        aliases[r]
    } else {
        type_ref_text(module, r)
    }
}

/// Two maps of aliases render a type alike if they spell alike the types of the module that it
/// mentions.
pub proof fn law_only_mentioned_aliases_matter(
    module: ModuleDef,
    ty: AlgebraicTypeUse,
    aliases: Map<AlgebraicTypeRef, Seq<char>>,
    others: Map<AlgebraicTypeRef, Seq<char>>,
)
    ensures
        (forall|r: AlgebraicTypeRef| #[trigger]
            ty.refs().contains(r) ==> spelled(module, r, aliases) == spelled(module, r, others))
            ==> type_text(module, ty, aliases) == type_text(module, ty, others),
    decreases ty,
{
    if forall|r: AlgebraicTypeRef| #[trigger]
        ty.refs().contains(r) ==> spelled(module, r, aliases) == spelled(module, r, others) {
        match ty {
            AlgebraicTypeUse::Array(elem) => {
                assert(elem.refs() == ty.refs());
                law_only_mentioned_aliases_matter(module, *elem, aliases, others);
            },
            AlgebraicTypeUse::Option(inner) => {
                assert(inner.refs() == ty.refs());
                law_only_mentioned_aliases_matter(module, *inner, aliases, others);
            },
            AlgebraicTypeUse::Result { ok_ty, err_ty } => {
                assert(ok_ty.refs().subset_of(ty.refs()));
                assert(err_ty.refs().subset_of(ty.refs()));
                law_only_mentioned_aliases_matter(module, *ok_ty, aliases, others);
                law_only_mentioned_aliases_matter(module, *err_ty, aliases, others);
            },
            AlgebraicTypeUse::Ref(r) => {
                assert(ty.refs().contains(r));
            },
            _ => {},
        }
    }
}

/// A type's text holds the spelling of every type of the module that the type mentions.
pub proof fn law_mentioned_types_are_spelled(
    module: ModuleDef,
    ty: AlgebraicTypeUse,
    aliases: Map<AlgebraicTypeRef, Seq<char>>,
    r: AlgebraicTypeRef,
)
    requires
        ty.refs().contains(r),
    ensures
        contains_text(type_text(module, ty, aliases), spelled(module, r, aliases)),
    decreases ty,
{
    let name = spelled(module, r, aliases);
    match ty {
        AlgebraicTypeUse::Array(elem) => {
            law_mentioned_types_are_spelled(module, *elem, aliases, r);
            let inner = type_text(module, *elem, aliases);
            lemma_contains_after("Vec<"@, inner, name);
            lemma_contains_before("Vec<"@ + inner, ">"@, name);
        },
        AlgebraicTypeUse::Option(elem) => {
            law_mentioned_types_are_spelled(module, *elem, aliases, r);
            let inner = type_text(module, *elem, aliases);
            lemma_contains_after("Option<"@, inner, name);
            lemma_contains_before("Option<"@ + inner, ">"@, name);
        },
        AlgebraicTypeUse::Result { ok_ty, err_ty } => {
            let ok = type_text(module, *ok_ty, aliases);
            let err = type_text(module, *err_ty, aliases);
            if ok_ty.refs().contains(r) {
                law_mentioned_types_are_spelled(module, *ok_ty, aliases, r);
                lemma_contains_after("Result<"@, ok, name);
                lemma_contains_before("Result<"@ + ok, ", "@, name);
                lemma_contains_before("Result<"@ + ok + ", "@, err, name);
            } else {
                law_mentioned_types_are_spelled(module, *err_ty, aliases, r);
                lemma_contains_after("Result<"@ + ok + ", "@, err, name);
            }
            lemma_contains_before("Result<"@ + ok + ", "@ + err, ">"@, name);
        },
        AlgebraicTypeUse::Ref(_) => {
            lemma_contains_itself(name);
        },
        _ => {},
    }
}

/// No hook spells a type of the module by the name of the struct that wraps the arguments of the
/// reducer or procedure called `accessor`, however deep in a parameter's type it stands: it is
/// spelled with the module that defines it.
pub proof fn law_no_hook_names_the_wrapper(
    module: ModuleDef,
    params: Seq<ParamDef>,
    accessor: Seq<char>,
    i: int,
)
    requires
        0 <= i < params.len(),
    ensures
        ({
            let ty = params[i].ty;
            let wrapper = args_type_text(pascal(accessor));
            let names = qualified_names(module, ty.refs(), wrapper);
            let spelling = hook_arg_views(module, params, accessor)[i].ty;
            &&& forall|r: AlgebraicTypeRef| #[trigger]
                ty.refs().contains(r) ==> spelled(module, r, names) != wrapper
            &&& mentions_name(module, ty, wrapper) ==> spelling == type_text(module, ty, names)
            &&& forall|r: AlgebraicTypeRef| #[trigger]
                ty.refs().contains(r) && type_ref_text(module, r) == wrapper ==> contains_text(
                    spelling,
                    qualified_text(type_module_text(module, r), wrapper),
                )
            &&& ty is Ref ==> spelling == spelled(module, ty->Ref_0, names) && spelling != wrapper
        }),
{
    reveal_strlit("::");
    let ty = params[i].ty;
    let wrapper = args_type_text(pascal(accessor));
    let names = qualified_names(module, ty.refs(), wrapper);
    let spelling = hook_arg_views(module, params, accessor)[i].ty;
    assert forall|r: AlgebraicTypeRef| #[trigger] ty.refs().contains(r) implies spelled(
        module,
        r,
        names,
    ) != wrapper by {
        if type_ref_text(module, r) == wrapper {
            assert(spelled(module, r, names).len() >= wrapper.len() + 2);
        }
    }
    assert forall|r: AlgebraicTypeRef| #[trigger]
        ty.refs().contains(r) && type_ref_text(module, r) == wrapper implies contains_text(
        spelling,
        qualified_text(type_module_text(module, r), wrapper),
    ) by {
        law_mentioned_types_are_spelled(module, ty, names, r);
    }
    if ty is Ref {
        assert(ty.refs().contains(ty->Ref_0));
    }
}

/// A type of the module that is not called like the wrapper struct is spelled in the hooks as in
/// the reducer's file: by its own name.
pub proof fn law_other_types_keep_their_names(module: ModuleDef, reducer: ReducerDef, i: int)
    requires
        0 <= i < reducer.params_for_generate@.len(),
        reducer.params_for_generate@[i].ty is Ref,
    ensures
        ({
            let params = reducer.params_for_generate@;
            let name = type_ref_text(module, params[i].ty->Ref_0);
            name != args_type_text(pascal(reducer.accessor_name@)) ==> hook_arg_views(
                module,
                params,
                reducer.accessor_name@,
            )[i].ty == name && reducer_file_view(module, reducer).args[i].ty == name
        }),
{
}

/// The hooks for a reducer hand its arguments on under the names, and in the order, in which the
/// reducer's file takes them.
pub proof fn law_hooks_and_file_agree_on_arguments(module: ModuleDef, reducer: ReducerDef)
    ensures
        reducer_info_view(module, reducer).arg_names == arg_names_text(
            reducer_file_view(module, reducer).args,
        ),
{
    let in_hooks = hook_arg_views(
        module,
        reducer.params_for_generate@,
        reducer.accessor_name@,
    );
    let in_file = reducer_file_view(module, reducer).args;
    assert(in_hooks.map_values(|a: ArgView| a.name) =~= in_file.map_values(|a: ArgView| a.name));
}

/// The hooks for a reducer call the method that the reducer's file declares, if the reducer's name
/// and its accessor are the same in snake case.
pub proof fn law_hooks_and_file_agree_on_the_method(module: ModuleDef, reducer: ReducerDef)
    ensures
        snake(reducer.name@) == snake(reducer.accessor_name@) ==> reducer_info_view(
            module,
            reducer,
        ).name_snake == reducer_file_view(module, reducer).func_name,
{
}

/// Two reducers whose accessors differ in snake case get two files.
pub proof fn law_reducers_get_their_own_files(a: ReducerDef, b: ReducerDef)
    ensures
        snake(a.accessor_name@) != snake(b.accessor_name@) ==> reducer_filename(a)
            != reducer_filename(b),
{
    let x = snake(a.accessor_name@);
    let y = snake(b.accessor_name@);
    if reducer_filename(a) == reducer_filename(b) {
        let all = reducer_filename(a);
        let n = all.len() - "_reducer.rs"@.len();
        assert(x =~= all.take(n));
        assert(y =~= all.take(n));
    }
}

} // verus!
