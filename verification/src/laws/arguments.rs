//! Argument lists are empty where there are no arguments.

use vstd::prelude::*;
use crate::args::{arg_names_text, arg_text, arglist_text, ArgView};
use crate::collect::{hook_arg_views, reducer_info_view};
use crate::schema::{ModuleDef, ReducerDef};
use crate::text::joined;

verus! {

/// Joined parts are at least as long as the first of them, and two parts or more bring a separator.
proof fn lemma_joined_len(parts: Seq<Seq<char>>, separator: Seq<char>)
    requires
        parts.len() > 0,
    ensures
        joined(parts, separator).len() >= parts[0].len(),
        parts.len() > 1 ==> joined(parts, separator).len() >= separator.len(),
    decreases parts.len(),
{
    if parts.len() > 1 {
        lemma_joined_len(parts.drop_last(), separator);
    }
}

/// A parameter list is empty exactly where there are no parameters.
pub proof fn law_arglist_is_empty_without_arguments(args: Seq<ArgView>)
    ensures
        arglist_text(args).len() == 0 <==> args.len() == 0,
{
    reveal_strlit(": ");
    if args.len() > 0 {
        let parts = args.map_values(|a: ArgView| arg_text(a));
        lemma_joined_len(parts, ", "@);
        assert(parts[0] == arg_text(args[0]));
    }
}

/// A list of argument names is empty exactly where there are no arguments, or where the only one
/// has no name.
pub proof fn law_arg_names_are_empty_without_arguments(args: Seq<ArgView>)
    ensures
        arg_names_text(args).len() == 0 <==> args.len() == 0 || (args.len() == 1
            && args[0].name.len() == 0),
{
    reveal_strlit(", ");
    if args.len() > 0 {
        let parts = args.map_values(|a: ArgView| a.name);
        lemma_joined_len(parts, ", "@);
        assert(parts[0] == args[0].name);
    }
}

/// The hooks for a reducer take no arguments exactly where the reducer has no parameters.
pub proof fn law_hooks_take_the_reducers_parameters(module: ModuleDef, reducer: ReducerDef)
    ensures
        reducer_info_view(module, reducer).arglist.len() == 0
            <==> reducer.params_for_generate@.len() == 0,
{
    law_arglist_is_empty_without_arguments(
        hook_arg_views(module, reducer.params_for_generate@, reducer.accessor_name@),
    );
}

} // verus!
