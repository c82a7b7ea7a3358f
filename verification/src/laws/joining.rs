//! Lists that are joined with separators.

use vstd::prelude::*;
use crate::args::{arg_names_text, arg_types_text, arglist_text, leading_args_text, ArgView};
use crate::text::{joined, views};

verus! {

/// No parts make no text, one part is the text, and a further part follows a separator.
pub proof fn law_joined(parts: Seq<Seq<char>>, part: Seq<char>, separator: Seq<char>)
    ensures
        joined(Seq::empty(), separator) == Seq::<char>::empty(),
        joined(seq![part], separator) == part,
        parts.len() > 0 ==> joined(parts.push(part), separator) == joined(parts, separator)
            + separator + part,
{
    assert(parts.push(part).drop_last() =~= parts);
}

/// Every argument is listed, after those before it, with its name and its type.
pub proof fn law_every_argument_is_listed(args: Seq<ArgView>, a: ArgView)
    ensures
        arglist_text(seq![a]) == a.name + ": "@ + a.ty,
        arg_names_text(seq![a]) == a.name,
        arg_types_text(seq![a]) == a.ty,
        args.len() > 0 ==> {
            &&& arglist_text(args.push(a)) == arglist_text(args) + ", "@ + (a.name + ": "@ + a.ty)
            &&& arg_names_text(args.push(a)) == arg_names_text(args) + ", "@ + a.name
            &&& arg_types_text(args.push(a)) == arg_types_text(args) + ", "@ + a.ty
        },
        arglist_text(Seq::empty()) == Seq::<char>::empty(),
        arg_names_text(Seq::empty()) == Seq::<char>::empty(),
        arg_types_text(Seq::empty()) == Seq::<char>::empty(),
{
    let lists = args.map_values(|a: ArgView| crate::args::arg_text(a));
    let names = args.map_values(|a: ArgView| a.name);
    let types = args.map_values(|a: ArgView| a.ty);
    law_joined(lists, a.name + ": "@ + a.ty, ", "@);
    law_joined(names, a.name, ", "@);
    law_joined(types, a.ty, ", "@);
    assert(seq![a].map_values(|a: ArgView| crate::args::arg_text(a)) =~= seq![
        a.name + ": "@ + a.ty,
    ]);
    assert(seq![a].map_values(|a: ArgView| a.name) =~= seq![a.name]);
    assert(seq![a].map_values(|a: ArgView| a.ty) =~= seq![a.ty]);
    assert(args.push(a).map_values(|a: ArgView| crate::args::arg_text(a)) =~= lists.push(
        a.name + ": "@ + a.ty,
    ));
    assert(args.push(a).map_values(|a: ArgView| a.name) =~= names.push(a.name));
    assert(args.push(a).map_values(|a: ArgView| a.ty) =~= types.push(a.ty));
    let none = Seq::<ArgView>::empty();
    assert(none.map_values(|a: ArgView| crate::args::arg_text(a)) =~= Seq::empty());
    assert(none.map_values(|a: ArgView| a.name) =~= Seq::empty());
    assert(none.map_values(|a: ArgView| a.ty) =~= Seq::empty());
}

/// Names that stand in front of a further argument are followed by a comma.
pub proof fn law_leading_arguments(names: Seq<char>)
    ensures
        names.len() > 0 ==> leading_args_text(names) == names + ", "@,
        names.len() == 0 ==> leading_args_text(names) == Seq::<char>::empty(),
{
}

/// The views of a list are the views of its values, one for one.
pub proof fn law_views_are_one_for_one<T: View>(values: Seq<T>)
    ensures
        views(values).len() == values.len(),
        forall|i: int| 0 <= i < values.len() ==> #[trigger] views(values)[i] == values[i]@,
{
}

} // verus!
