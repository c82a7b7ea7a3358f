//! The callback for updated rows is there for the tables and views with a primary key.

use vstd::prelude::*;
use crate::collect::{has_primary_key, is_keyed, table_info_view};
use crate::hooks::context::{
    on_delete_text, on_insert_text, on_update_text, populate_text, refresh_text,
    table_callbacks_text,
};
use crate::info::TableInfoView;
use crate::schema::{CodegenVisibility, ModuleDef, Relation};

verus! {

/// A table with a primary key has a callback for updated rows, between the one for inserted and
/// the one for deleted rows; a table without one has those two alone.
pub proof fn law_only_keyed_tables_follow_updates(t: TableInfoView)
    ensures
        table_callbacks_text(t) == if t.has_primary_key {
            populate_text(t) + on_insert_text(t) + refresh_text(
                t,
                "on_update(move |ctx, _old, _new|"@,
            ) + on_delete_text(t)
        } else {
            populate_text(t) + on_insert_text(t) + on_delete_text(t)
        },
{
    let start = populate_text(t) + on_insert_text(t);
    if !t.has_primary_key {
        assert(start + on_update_text(t) =~= start);
    }
}

/// A table or view that is covered and has a primary key follows updates.
pub proof fn law_keyed_relations_follow_updates(
    module: ModuleDef,
    visibility: CodegenVisibility,
    relation: Relation,
)
    requires
        module.relations@.contains(relation),
        relation.is_covered(visibility),
        relation.key() is Some,
    ensures
        table_info_view(module, visibility, relation).has_primary_key,
{
    let i = choose|i: int| 0 <= i < module.relations@.len() && module.relations@[i] == relation;
    assert(is_keyed(module.relations@[i], visibility, relation.accessor()));
}

/// Where no two covered tables and views share an accessor, exactly those with a primary key
/// follow updates.
pub proof fn law_only_keyed_relations_follow_updates(
    module: ModuleDef,
    visibility: CodegenVisibility,
    at: int,
)
    requires
        0 <= at < module.relations@.len(),
        module.relations@[at].is_covered(visibility),
        forall|i: int|
            0 <= i < module.relations@.len() && i != at && (
            #[trigger] module.relations@[i]).is_covered(visibility)
                ==> module.relations@[i].accessor() != module.relations@[at].accessor(),
    ensures
        table_info_view(module, visibility, module.relations@[at]).has_primary_key
            == module.relations@[at].key() is Some,
{
    let relation = module.relations@[at];
    if relation.key() is Some {
        assert(is_keyed(module.relations@[at], visibility, relation.accessor()));
    }
    if has_primary_key(module, visibility, relation.accessor()) {
        let i = choose|i: int|
            0 <= i < module.relations@.len() && is_keyed(
                module.relations@[i],
                visibility,
                relation.accessor(),
            );
        assert(i == at);
    }
}

} // verus!
