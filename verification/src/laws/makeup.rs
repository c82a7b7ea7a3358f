//! What a reducer's file is made of.

use vstd::prelude::*;
use crate::casing::{case_converted, Case};
use crate::reducer_file::{
    alias_map, alias_text, fresh_name, lemma_fresh_name, lemma_room, reducer_file_view, reducer_filename, room,
    type_names, Import, ReducerFile,
};
use crate::refs::{ascending, in_order, lemma_in_order, lemma_param_refs_contain, param_refs};
use crate::schema::{AlgebraicTypeRef, ModuleDef, ReducerDef};
use crate::text::views;
use crate::types::{type_module_text, type_ref_text, type_text};
use super::names::{law_only_mentioned_aliases_matter, spelled};
use super::rendering::law_parameters_mention_what_one_of_them_mentions;

verus! {

/// The file of a reducer is called after the accessor in snake case, and so are the extension trait
/// and its method; the variant is called after it in Pascal case. The reducer is documented under
/// its own name. There is one argument per parameter, in their order and under their names in
/// snake case.
pub proof fn law_what_a_reducer_file_is_called(module: ModuleDef, reducer: ReducerDef)
    ensures
        ({
            let file = reducer_file_view(module, reducer);
            let params = reducer.params_for_generate@;
            &&& reducer_filename(reducer) == case_converted(reducer.accessor_name@, Case::Snake)
                + "_reducer.rs"@
            &&& file.reducer_name == reducer.name@
            &&& file.func_name == case_converted(reducer.accessor_name@, Case::Snake)
            &&& file.variant_name == case_converted(reducer.accessor_name@, Case::Pascal)
            &&& file.args.len() == params.len()
            &&& forall|i: int|
                0 <= i < params.len() ==> (#[trigger] file.args[i]).name == case_converted(
                    params[i].name@,
                    Case::Snake,
                )
        }),
{
}

/// A reducer's file imports the types that the parameters mention, in ascending order: each by its
/// name, from the module that defines it. Those that are called like the wrapper struct, and no
/// others, go by an alias.
pub proof fn law_what_a_reducer_file_imports(module: ModuleDef, reducer: ReducerDef)
    ensures
        ({
            let params = reducer.params_for_generate@;
            let wrapper = case_converted(reducer.accessor_name@, Case::Pascal) + "Args"@;
            let imports = reducer_file_view(module, reducer).imports;
            exists|refs: Seq<AlgebraicTypeRef>|
                {
                    &&& #[trigger] ascending(refs)
                    &&& refs.len() == imports.len()
                    &&& forall|r: AlgebraicTypeRef| #[trigger]
                        refs.contains(r) <==> (exists|i: int|
                            0 <= i < params.len() && (#[trigger] params[i]).ty.refs().contains(r))
                    &&& forall|k: int|
                        0 <= k < refs.len() ==> {
                            &&& (#[trigger] imports[k]).name == type_ref_text(module, refs[k])
                            &&& imports[k].module_name == type_module_text(module, refs[k])
                            &&& imports[k].alias is Some <==> imports[k].name == wrapper
                        }
                }
        }),
{
    let params = reducer.params_for_generate@;
    let all = param_refs(params);
    let refs = in_order(all);
    lemma_in_order(all);
    assert forall|r: AlgebraicTypeRef| #[trigger] refs.contains(r) <==> (exists|i: int|
        0 <= i < params.len() && (#[trigger] params[i]).ty.refs().contains(r)) by {
        law_parameters_mention_what_one_of_them_mentions(params, r);
        assert(refs.to_set().contains(r) == refs.contains(r));
    }
    assert(ascending(refs));
}

/// In a reducer's file, every type that the parameters mention is spelled, at any depth, by the
/// name that its import binds: the alias where there is one, its own name where there is none.
pub proof fn law_how_a_reducer_file_spells_its_types(module: ModuleDef, reducer: ReducerDef, i: int)
    requires
        0 <= i < reducer.params_for_generate@.len(),
    ensures
        ({
            let params = reducer.params_for_generate@;
            let file = reducer_file_view(module, reducer);
            exists|names: Map<AlgebraicTypeRef, Seq<char>>|
                {
                    &&& file.args[i].ty == #[trigger] type_text(module, params[i].ty, names)
                    &&& forall|r: AlgebraicTypeRef| #[trigger]
                        params[i].ty.refs().contains(r) ==> names.contains_key(r) && exists|k: int|
                            {
                                &&& 0 <= k < file.imports.len()
                                &&& (#[trigger] file.imports[k]).name == type_ref_text(module, r)
                                &&& names[r] == match file.imports[k].alias {
                                    Some(alias) => alias,
                                    None => file.imports[k].name,
                                }
                            }
                }
        }),
{
    let params = reducer.params_for_generate@;
    let file = reducer_file_view(module, reducer);
    let all = param_refs(params);
    let refs = in_order(all);
    let wrapper = case_converted(reducer.accessor_name@, Case::Pascal) + "Args"@;
    let aliases = alias_map(module, all, wrapper, type_names(module, refs));
    let names = Map::new(
        |r: AlgebraicTypeRef| all.contains(r),
        |r: AlgebraicTypeRef| spelled(module, r, aliases),
    );
    lemma_in_order(all);
    lemma_param_refs_contain(params, i);
    assert forall|r: AlgebraicTypeRef| #[trigger] params[i].ty.refs().contains(r) implies spelled(
        module,
        r,
        aliases,
    ) == spelled(module, r, names) by {
        assert(all.contains(r));
    }
    law_only_mentioned_aliases_matter(module, params[i].ty, aliases, names);
    assert(file.args[i].ty == type_text(module, params[i].ty, names));
    assert forall|r: AlgebraicTypeRef| #[trigger]
        params[i].ty.refs().contains(r) implies names.contains_key(r) && exists|k: int|
        {
            &&& 0 <= k < file.imports.len()
            &&& (#[trigger] file.imports[k]).name == type_ref_text(module, r)
            &&& names[r] == match file.imports[k].alias {
                Some(alias) => alias,
                None => file.imports[k].name,
            }
        } by {
        assert(all.contains(r));
        assert(refs.to_set().contains(r));
        let k = choose|k: int| 0 <= k < refs.len() && refs[k] == r;
        assert(file.imports[k].name == type_ref_text(module, r));
    }
}

/// `times` copies of `text`.
pub open spec fn repeated(text: Seq<char>, times: nat) -> Seq<char>
    decreases times,
{
    if times == 0 {
        Seq::empty()
    } else {
        repeated(text, (times - 1) as nat) + text
    }
}

/// An alias is the type's name with "Type" appended as often as it takes for no imported type to
/// have that name, and no oftener.
pub proof fn law_how_an_alias_is_made(
    module: ModuleDef,
    reducer: ReducerDef,
    k: int,
)
    requires
        0 <= k < reducer_file_view(module, reducer).imports.len(),
        reducer_file_view(module, reducer).imports[k].alias is Some,
    ensures
        ({
            let imports = reducer_file_view(module, reducer).imports;
            let name = imports[k].name;
            let alias = imports[k].alias->0;
            exists|times: nat|
                {
                    &&& times > 0
                    &&& alias == name + #[trigger] repeated("Type"@, times)
                    &&& forall|j: int| 0 <= j < imports.len() ==> (#[trigger] imports[j]).name != alias
                    &&& forall|fewer: nat|
                        0 < fewer < times ==> exists|j: int|
                            0 <= j < imports.len() && (#[trigger] imports[j]).name == name
                                + #[trigger] repeated("Type"@, fewer)
                }
        }),
{
    let imports = reducer_file_view(module, reducer).imports;
    let names = type_names(module, in_order(param_refs(reducer.params_for_generate@)));
    let name = imports[k].name;
    let alias = imports[k].alias->0;
    assert(repeated("Type"@, 1) =~= "Type"@) by {
        reveal_with_fuel(repeated, 2);
    }
    lemma_fresh_name(name + "Type"@, names);
    let times = lemma_repetitions(name, 1, names);
    assert forall|j: int| 0 <= j < imports.len() implies (#[trigger] imports[j]).name != alias by {
        assert(names[j] == imports[j].name);
    }
    assert forall|fewer: nat| 0 < fewer < times implies exists|j: int|
        0 <= j < imports.len() && (#[trigger] imports[j]).name == name + #[trigger] repeated(
            "Type"@,
            fewer,
        ) by {
        assert(names.contains(name + repeated("Type"@, fewer)));
        let j = choose|j: int| 0 <= j < names.len() && names[j] == name + repeated("Type"@, fewer);
        assert(imports[j].name == names[j]);
    }
    assert(alias == name + repeated("Type"@, times));
}

/// A fresh name is the candidate with "Type" appended as often as it takes for it to be none of
/// `names`, and no oftener.
pub proof fn law_how_a_name_is_freshened(candidate: Seq<char>, names: Seq<Seq<char>>)
    ensures
        !names.contains(fresh_name(candidate, names)),
        exists|times: nat|
            {
                &&& fresh_name(candidate, names) == candidate + #[trigger] repeated("Type"@, times)
                &&& forall|fewer: nat|
                    fewer < times ==> names.contains(
                        candidate + #[trigger] repeated("Type"@, fewer),
                    )
            },
{
    lemma_fresh_name(candidate, names);
    assert(candidate + repeated("Type"@, 0) =~= candidate);
    let times = lemma_repetitions(candidate, 0, names);
    assert(fresh_name(candidate, names) == candidate + repeated("Type"@, times));
}

/// A type goes by an alias exactly where its name is taken, and the alias is made of its name with
/// "Type" appended.
pub proof fn law_taken_names_get_an_alias(
    name: Seq<char>,
    taken: Seq<char>,
    names: Seq<Seq<char>>,
)
    ensures
        name != taken ==> alias_text(name, taken, names) is None,
        name == taken ==> alias_text(name, taken, names) == Some(
            fresh_name(name + "Type"@, names),
        ),
{
}

/// How often "Type" is appended.
proof fn lemma_repetitions(name: Seq<char>, from: nat, names: Seq<Seq<char>>) -> (times: nat)
    ensures
        times >= from,
        fresh_name(name + repeated("Type"@, from), names) == name + repeated("Type"@, times),
        forall|fewer: nat|
            from <= fewer < times ==> names.contains(name + #[trigger] repeated("Type"@, fewer)),
    decreases room(name + repeated("Type"@, from), names),
{
    let candidate = name + repeated("Type"@, from);
    if names.contains(candidate) {
        lemma_room(candidate, names);
        assert(candidate + "Type"@ =~= name + repeated("Type"@, from + 1));
        let times = lemma_repetitions(name, from + 1, names);
        assert forall|fewer: nat| from <= fewer < times implies names.contains(
            name + #[trigger] repeated("Type"@, fewer),
        ) by {
            if fewer == from {
                assert(names.contains(candidate));
            }
        }
        times
    } else {
        from
    }
}

/// What a file is made of is all there in the text that it stands for.
pub proof fn law_files_are_seen_whole(f: ReducerFile, i: Import)
    ensures
        f@.reducer_name == f.reducer_name@,
        f@.func_name == f.func_name@,
        f@.variant_name == f.variant_name@,
        f@.imports == views(f.imports@),
        f@.args == views(f.args@),
        i@.module_name == i.module_name@,
        i@.name == i.name@,
        i@.alias is Some <==> i.alias is Some,
        i.alias is Some ==> i@.alias->0 == i.alias->0@,
{
}

} // verus!
