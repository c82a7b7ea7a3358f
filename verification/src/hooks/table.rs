//! The field and the hook for one table.

use vstd::prelude::*;
use crate::info::{TableInfo, TableInfoView};
use crate::text::{concat_map, lemma_concat_map_none, lemma_concat_map_step, views, Indenter};

verus! {

/// The field of `TableSignals` that holds a table's signal.
pub open spec fn table_field_text(t: TableInfoView) -> Seq<char> {
    "    pub "@ + t.accessor_snake + ": SyncSignal<Vec<"@ + t.row_type + ">>,\n"@
}

/// The hook that returns a table's signal.
pub open spec fn table_hook_text(t: TableInfoView) -> Seq<char> {
    "/// Get a reactive signal containing all rows of the `"@ + t.accessor_snake + "` table.\n"@
        + "#[must_use]\n"@
        + "pub fn use_table_"@ + t.accessor_snake + "() -> SyncSignal<Vec<"@ + t.row_type
        + ">> {\n"@
        + "    let ctx = use_spacetimedb_context();\n"@
        + "    ctx.tables."@ + t.accessor_snake + "\n"@
        + "}\n"@
        + "\n"@
}

fn table_field(table: &TableInfo) -> (text: String)
    ensures
        text@ == table_field_text(table@),
{
    let mut text = String::from_str("    pub ");
    text.append(table.accessor_snake.as_str());
    text.append(": SyncSignal<Vec<");
    text.append(table.row_type.as_str());
    text.append(">>,\n");
    text
}

fn table_hook(table: &TableInfo) -> (text: String)
    ensures
        text@ == table_hook_text(table@),
{
    let snake = table.accessor_snake.as_str();
    let mut text = String::from_str("/// Get a reactive signal containing all rows of the `");
    text.append(snake);
    text.append("` table.\n");
    text.append("#[must_use]\n");
    text.append("pub fn use_table_");
    text.append(snake);
    text.append("() -> SyncSignal<Vec<");
    text.append(table.row_type.as_str());
    text.append(">> {\n");
    text.append("    let ctx = use_spacetimedb_context();\n");
    text.append("    ctx.tables.");
    text.append(snake);
    text.append("\n");
    text.append("}\n");
    text.append("\n");
    text
}

/// Writes the fields that hold the signals of `tables`.
#[verifier::loop_isolation(false)]
pub fn write_table_fields(out: &mut Indenter, tables: &[TableInfo])
    ensures
        final(out)@ == old(out)@ + concat_map(
            views(tables@),
            |t: TableInfoView| table_field_text(t),
        ),
{
    let ghost before = out@;
    let ghost infos = views(tables@);
    let ghost one = |t: TableInfoView| table_field_text(t);
    proof {
        lemma_concat_map_none(infos, one);
        assert(out@ =~= before + Seq::<char>::empty());
    }
    for i in 0..tables.len()
        invariant
            out@ == before + concat_map(infos.take(i as int), one),
    {
        out.write(table_field(&tables[i]).as_str());
        proof {
            lemma_concat_map_step(infos, i as int, one);
            assert(out@ =~= before + concat_map(infos.take(i + 1), one));
        }
    }
    assert(infos.take(tables@.len() as int) =~= infos);
}

/// Writes the hooks that return the signals of `tables`.
#[verifier::loop_isolation(false)]
pub fn write_table_hooks(out: &mut Indenter, tables: &[TableInfo])
    ensures
        final(out)@ == old(out)@ + concat_map(
            views(tables@),
            |t: TableInfoView| table_hook_text(t),
        ),
{
    let ghost before = out@;
    let ghost infos = views(tables@);
    let ghost one = |t: TableInfoView| table_hook_text(t);
    proof {
        lemma_concat_map_none(infos, one);
        assert(out@ =~= before + Seq::<char>::empty());
    }
    for i in 0..tables.len()
        invariant
            out@ == before + concat_map(infos.take(i as int), one),
    {
        out.write(table_hook(&tables[i]).as_str());
        proof {
            lemma_concat_map_step(infos, i as int, one);
            assert(out@ =~= before + concat_map(infos.take(i + 1), one));
        }
    }
    assert(infos.take(tables@.len() as int) =~= infos);
}

} // verus!
