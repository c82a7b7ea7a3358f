//! Declaring the module of the hooks adds one declaration, and changes nothing else.

use vstd::prelude::*;
use crate::dioxus::{
    first_named, hooks_file_view, registered_files, registered_text, HOOKS_DECLARATION,
    MODULE_DECLARATION, MODULE_FILENAME,
};
use crate::collect::{procedure_infos, reducer_infos, table_infos};
use crate::hooks_file::{hooks_file_text, HOOKS_FILENAME};
use crate::output::OutputFileView;
use crate::schema::{CodegenVisibility, ModuleDef};
use crate::search::{first_occurrence, lemma_first_exists, lemma_first_occurrence, occurs_at};

verus! {

/// Where code declares a public module, the module of the hooks is declared before all of them,
/// and taking that declaration out again gives the code back.
pub proof fn law_registration_inserts_one_declaration(code: Seq<char>, i: int)
    requires
        first_occurrence(code, MODULE_DECLARATION@) == Some(i),
    ensures
        ({
            let registered = registered_text(code);
            &&& occurs_at(registered, HOOKS_DECLARATION@, i)
            &&& first_occurrence(registered, MODULE_DECLARATION@) == Some(i)
            &&& registered.take(i) + registered.skip((i + HOOKS_DECLARATION@.len()) as int) == code
        }),
{
    reveal_strlit("\npub mod ");
    reveal_strlit("\npub mod dioxus;\n");
    let decl = HOOKS_DECLARATION@;
    let pattern = MODULE_DECLARATION@;
    let registered = registered_text(code);
    let k = choose|k: int| occurs_at(code, pattern, k);
    lemma_first_exists(code, pattern, k);
    assert(code.subrange(i, i + pattern.len()) == pattern);
    assert(registered == code.take(i) + decl + code.skip(i));
    assert(registered.subrange(i, (i + decl.len()) as int) =~= decl);
    assert(registered.take(i) + registered.skip((i + decl.len()) as int) =~= code);
    assert(decl.take(pattern.len() as int) =~= pattern);
    assert(registered.subrange(i, (i + pattern.len()) as int) =~= decl.take(pattern.len() as int));
    assert(registered.take((i + pattern.len()) as int) =~= code.take((i + pattern.len()) as int))
        by {
        assert(code.subrange(i, i + pattern.len()) =~= registered.subrange(i, i + pattern.len()));
        assert forall|n: int| 0 <= n < i + pattern.len() implies registered[n] == code[n] by {
            if n >= i {
                assert(code.subrange(i, i + pattern.len())[n - i] == code[n]);
                assert(registered.subrange(i, i + pattern.len())[n - i] == registered[n]);
            }
        }
    }
    assert forall|j: int| 0 <= j < i implies !#[trigger] occurs_at(registered, pattern, j) by {
        let upto = (i + pattern.len()) as int;
        assert(registered.subrange(j, j + pattern.len()) =~= registered.take(upto).subrange(
            j,
            j + pattern.len(),
        ));
        assert(code.subrange(j, j + pattern.len()) =~= code.take(upto).subrange(
            j,
            j + pattern.len(),
        ));
        assert(!occurs_at(code, pattern, j));
    }
    lemma_first_occurrence(registered, pattern, i);
}

/// The declaration of the hooks stands right before the first line break that `pub mod` follows;
/// code without one stays as it is.
pub proof fn law_where_the_hooks_are_declared(code: Seq<char>, i: int)
    requires
        0 <= i <= code.len(),
        forall|j: int| 0 <= j < i ==> !#[trigger] "\npub mod "@.is_prefix_of(code.skip(j)),
    ensures
        "\npub mod "@.is_prefix_of(code.skip(i)) ==> registered_text(code) == code.take(i)
            + "\npub mod dioxus;\n"@ + code.skip(i),
        i == code.len() && !"\npub mod "@.is_prefix_of(code.skip(i)) ==> registered_text(code)
            == code,
{
    let pattern = "\npub mod "@;
    assert forall|j: int| 0 <= j <= code.len() implies #[trigger] pattern.is_prefix_of(code.skip(j))
        == occurs_at(code, pattern, j) by {
        if j + pattern.len() <= code.len() {
            assert(code.skip(j).subrange(0, pattern.len() as int) =~= code.subrange(
                j,
                j + pattern.len(),
            ));
        }
    }
    assert forall|j: int| 0 <= j < i implies !#[trigger] occurs_at(code, pattern, j) by {
        assert(!pattern.is_prefix_of(code.skip(j)));
    }
    if pattern.is_prefix_of(code.skip(i)) {
        lemma_first_occurrence(code, pattern, i);
    } else if i == code.len() {
        assert forall|j: int| !occurs_at(code, pattern, j) by {
            if j == i {
                assert(!pattern.is_prefix_of(code.skip(j)));
            }
        }
    }
}

/// What is found is the first position at which the pattern stands, if it stands anywhere.
pub proof fn law_the_first_position_is_found(text: Seq<char>, pattern: Seq<char>, i: int)
    requires
        0 <= i <= text.len(),
        forall|j: int| 0 <= j < i ==> !#[trigger] pattern.is_prefix_of(text.skip(j)),
    ensures
        pattern.is_prefix_of(text.skip(i)) ==> first_occurrence(text, pattern) == Some(i),
        i == text.len() && !pattern.is_prefix_of(text.skip(i)) ==> first_occurrence(text, pattern)
            is None,
{
    assert forall|j: int| 0 <= j <= text.len() implies #[trigger] pattern.is_prefix_of(text.skip(j))
        == occurs_at(text, pattern, j) by {
        if j + pattern.len() <= text.len() {
            assert(text.skip(j).subrange(0, pattern.len() as int) =~= text.subrange(
                j,
                j + pattern.len(),
            ));
        }
    }
    assert forall|j: int| 0 <= j < i implies !#[trigger] occurs_at(text, pattern, j) by {
        assert(!pattern.is_prefix_of(text.skip(j)));
    }
    if pattern.is_prefix_of(text.skip(i)) {
        lemma_first_occurrence(text, pattern, i);
    } else if i == text.len() {
        assert forall|j: int| !occurs_at(text, pattern, j) by {
            if j == i {
                assert(!pattern.is_prefix_of(text.skip(j)));
            }
        }
    }
}

/// Code that declares no public module stays as it is.
pub proof fn law_registration_needs_a_public_module(code: Seq<char>)
    requires
        forall|i: int| !occurs_at(code, MODULE_DECLARATION@, i),
    ensures
        registered_text(code) == code,
{
}

/// The files of the whole module are those that the hooks are added to, in their order and under
/// their names, and then the file with the hooks. Only the first file called `mod.rs` changes, and
/// only by the declaration of the hooks.
pub proof fn law_global_files_keep_the_others(
    header: Seq<char>,
    module: ModuleDef,
    visibility: CodegenVisibility,
    files: Seq<OutputFileView>,
)
    ensures
        ({
            let hooks = hooks_file_view(header, module, visibility);
            let all = registered_files(files.push(hooks));
            &&& all.len() == files.len() + 1
            &&& all.last().filename == "dioxus.rs"@
            &&& all.last().code == hooks_file_text(
                header,
                table_infos(module, visibility),
                reducer_infos(module, visibility),
                procedure_infos(module, visibility),
            )
            &&& forall|i: int|
                0 <= i < files.len() ==> {
                    let first = files[i].filename == "mod.rs"@ && forall|j: int|
                        0 <= j < i ==> files[j].filename != "mod.rs"@;
                    &&& (#[trigger] all[i]).filename == files[i].filename
                    &&& all[i].code == if first {
                        registered_text(files[i].code)
                    } else {
                        files[i].code
                    }
                }
        }),
{
    reveal_strlit("mod.rs");
    reveal_strlit("dioxus.rs");
    let hooks = hooks_file_view(header, module, visibility);
    let before = files.push(hooks);
    let names = before.map_values(|f: OutputFileView| f.filename);
    names.index_of_first_ensures(MODULE_FILENAME@);
    assert(HOOKS_FILENAME@.len() != MODULE_FILENAME@.len());
    let all = registered_files(before);
    assert forall|i: int| 0 <= i < files.len() implies ({
        let first = files[i].filename == MODULE_FILENAME@ && forall|j: int|
            0 <= j < i ==> files[j].filename != MODULE_FILENAME@;
        &&& (#[trigger] all[i]).filename == files[i].filename
        &&& all[i].code == if first {
            registered_text(files[i].code)
        } else {
            files[i].code
        }
    }) by {
        assert(names[i] == files[i].filename);
        assert forall|j: int| 0 <= j < files.len() implies names[j] == #[trigger] files[j].filename by {
        }
        match first_named(before, MODULE_FILENAME@) {
            Some(at) => {
                assert(names[at] == before[at].filename);
                if at < i {
                    assert(files[at].filename == MODULE_FILENAME@);
                }
            },
            None => {
                if files[i].filename == MODULE_FILENAME@ {
                    assert(names.contains(MODULE_FILENAME@));
                }
            },
        }
    }
}

} // verus!
