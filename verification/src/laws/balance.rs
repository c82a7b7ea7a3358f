//! The braces of the reconnect helpers and of the provider.

use vstd::prelude::*;
use crate::hooks::context::{
    context_provider_text, on_delete_text, on_insert_text, on_update_text, populate_text,
    refresh_text, signal_init_text, table_callbacks_text,
};
use crate::hooks::reconnect::RECONNECT_HELPERS;
use crate::info::TableInfoView;
use crate::text::{concat_map, lemma_concat_map_step};
use super::braces::{
    balanced, braceless, group_braces, lemma_neat, lemma_occurrences_listed, neat,
};
use super::containing::contains_text;
use super::literals::{
    lemma_provider_connect, lemma_provider_head, lemma_provider_tail, lemma_reconnect_helpers,
};

verus! {

/// Whether no name of the table holds a brace.
pub open spec fn braceless_table(t: TableInfoView) -> bool {
    braceless(t.accessor_snake) && braceless(t.row_type)
}

/// The braces of the initialiser of a table's signal.
proof fn lemma_signal_init_braces(t: TableInfoView)
    requires
        braceless_table(t),
    ensures
        neat(signal_init_text(t)),
        balanced(signal_init_text(t)),
{
    broadcast use group_braces;

    reveal_strlit("        ");
    reveal_strlit(": use_signal_sync(Vec::new),\n");
    assert(braceless("        "@));
    assert(braceless(": use_signal_sync(Vec::new),\n"@));
}

/// The braces of what fills a table's signal.
proof fn lemma_populate_braces(t: TableInfoView)
    requires
        braceless_table(t),
    ensures
        neat(populate_text(t)),
        balanced(populate_text(t)),
{
    broadcast use group_braces;

    reveal_strlit("                    // Populate initial rows for ");
    reveal_strlit("\n");
    reveal_strlit("                    let current: Vec<");
    reveal_strlit("> = conn.db.");
    reveal_strlit("().iter().collect();\n");
    reveal_strlit("                    table_signals_on_connect.");
    reveal_strlit(".set(current);\n");
    reveal_strlit("                    // Keep signal in sync on changes\n");
    assert(braceless("                    // Populate initial rows for "@));
    assert(braceless("\n"@));
    assert(braceless("                    let current: Vec<"@));
    assert(braceless("> = conn.db."@));
    assert(braceless("().iter().collect();\n"@));
    assert(braceless("                    table_signals_on_connect."@));
    assert(braceless(".set(current);\n"@));
    assert(braceless("                    // Keep signal in sync on changes\n"@));
}

/// The braces of a callback of a table.
proof fn lemma_refresh_braces(t: TableInfoView, callback: Seq<char>)
    requires
        braceless_table(t),
        braceless(callback),
    ensures
        neat(refresh_text(t, callback)),
        balanced(refresh_text(t, callback)),
{
    broadcast use group_braces;

    reveal_strlit("                    conn.db.");
    reveal_strlit("().");
    reveal_strlit(" {\n");
    reveal_strlit("                        let updated: Vec<");
    reveal_strlit("> = ctx.db.");
    reveal_strlit("().iter().collect();\n");
    reveal_strlit("                        table_signals_on_connect.");
    reveal_strlit(".set(updated);\n");
    reveal_strlit("                    });\n");
    assert(braceless("                    conn.db."@));
    assert(braceless("()."@));
    lemma_occurrences_listed(" {\n"@, '{', set![1int]);
    lemma_occurrences_listed(" {\n"@, '}', Set::empty());
    assert(neat(" {\n"@)) by {
        reveal(neat);
    }
    assert(braceless("                        let updated: Vec<"@));
    assert(braceless("> = ctx.db."@));
    assert(braceless("().iter().collect();\n"@));
    assert(braceless("                        table_signals_on_connect."@));
    assert(braceless(".set(updated);\n"@));
    lemma_occurrences_listed("                    });\n"@, '{', Set::empty());
    lemma_occurrences_listed("                    });\n"@, '}', set![20int]);
    assert(neat("                    });\n"@)) by {
        reveal(neat);
    }
}

/// The braces of what the `on_connect` callback does for a table.
proof fn lemma_table_callbacks_braces(t: TableInfoView)
    requires
        braceless_table(t),
    ensures
        neat(table_callbacks_text(t)),
        balanced(table_callbacks_text(t)),
{
    reveal_strlit("on_insert(move |ctx, _row|");
    reveal_strlit("on_update(move |ctx, _old, _new|");
    reveal_strlit("on_delete(move |ctx, _row|");
    lemma_populate_braces(t);
    lemma_refresh_braces(t, "on_insert(move |ctx, _row|"@);
    lemma_refresh_braces(t, "on_update(move |ctx, _old, _new|"@);
    lemma_refresh_braces(t, "on_delete(move |ctx, _row|"@);
    lemma_nothing();
    lemma_four(populate_text(t), on_insert_text(t), on_update_text(t), on_delete_text(t));
}

/// No text is balanced and neat.
proof fn lemma_nothing()
    ensures
        neat(Seq::empty()),
        balanced(Seq::empty()),
{
    broadcast use group_braces;

    assert(braceless(Seq::<char>::empty()));
}

/// Four balanced and neat texts one after the other are a fifth.
proof fn lemma_four(a: Seq<char>, b: Seq<char>, c: Seq<char>, d: Seq<char>)
    requires
        neat(a) && balanced(a),
        neat(b) && balanced(b),
        neat(c) && balanced(c),
        neat(d) && balanced(d),
    ensures
        neat(a + b + c + d),
        balanced(a + b + c + d),
{
    broadcast use group_braces;

}

/// Items with balanced and neat texts have such a text together.
proof fn lemma_concat_braces<T>(items: Seq<T>, text: spec_fn(T) -> Seq<char>)
    requires
        forall|i: int|
            0 <= i < items.len() ==> neat(text(#[trigger] items[i])) && balanced(text(items[i])),
    ensures
        neat(concat_map(items, text)),
        balanced(concat_map(items, text)),
    decreases items.len(),
{
    broadcast use group_braces;

    if items.len() == 0 {
        assert(concat_map(items, text) =~= Seq::empty());
        assert(braceless(concat_map(items, text)));
    } else {
        let last = items.len() - 1;
        let shorter = items.take(last);
        assert forall|i: int| 0 <= i < shorter.len() implies neat(text(#[trigger] shorter[i]))
            && balanced(text(shorter[i])) by {
            assert(shorter[i] == items[i]);
        }
        lemma_concat_braces(shorter, text);
        lemma_concat_map_step(items, last, text);
        assert(items.take(items.len() as int) =~= items);
        assert(neat(text(items[last])));
    }
}

/// The reconnect helpers hold as many opening as closing braces, and no doubled one.
pub proof fn law_reconnect_helpers_have_matching_braces()
    ensures
        balanced(RECONNECT_HELPERS@),
        !contains_text(RECONNECT_HELPERS@, "{{"@),
        !contains_text(RECONNECT_HELPERS@, "}}"@),
{
    lemma_reconnect_helpers();
    lemma_neat(RECONNECT_HELPERS@);
}

/// The provider holds as many opening as closing braces, and no doubled one, where no name of a
/// table holds a brace.
pub proof fn law_provider_has_matching_braces(tables: Seq<TableInfoView>)
    requires
        forall|i: int| 0 <= i < tables.len() ==> braceless_table(#[trigger] tables[i]),
    ensures
        balanced(context_provider_text(tables)),
        !contains_text(context_provider_text(tables), "{{"@),
        !contains_text(context_provider_text(tables), "}}"@),
{
    broadcast use group_braces;

    let init = |t: TableInfoView| signal_init_text(t);
    let callbacks = |t: TableInfoView| table_callbacks_text(t);
    assert forall|i: int| 0 <= i < tables.len() implies neat(init(#[trigger] tables[i]))
        && balanced(init(tables[i])) && neat(callbacks(tables[i])) && balanced(
        callbacks(tables[i]),
    ) by {
        lemma_signal_init_braces(tables[i]);
        lemma_table_callbacks_braces(tables[i]);
    }
    lemma_concat_braces(tables, init);
    lemma_concat_braces(tables, callbacks);
    lemma_provider_head();
    lemma_provider_connect();
    lemma_provider_tail();
    lemma_neat(context_provider_text(tables));
}

} // verus!
