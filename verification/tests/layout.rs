use dioxus_codegen::args::Arg;
use dioxus_codegen::collect::{procedure_info, reducer_info};
use dioxus_codegen::hooks::context::write_context_provider;
use dioxus_codegen::hooks::procedure::write_procedure_hook;
use dioxus_codegen::hooks::reconnect::write_reconnect_helpers;
use dioxus_codegen::hooks::reducer::write_reducer_hook;
use dioxus_codegen::hooks_file::render_hooks_file;
use dioxus_codegen::info::{ProcedureInfo, ReducerInfo, TableInfo};
use dioxus_codegen::text::Indenter;

fn table(accessor_snake: &str, has_primary_key: bool) -> TableInfo {
    TableInfo { accessor_snake: accessor_snake.to_string(), row_type: "Row".to_string(), has_primary_key }
}

fn args(count: usize) -> Vec<Arg> {
    (0..count).map(|i| Arg { name: format!("a{i}"), ty: "u8".to_string() }).collect()
}

fn reducer(name_orig: &str, count: usize) -> ReducerInfo {
    reducer_info("go".to_string(), name_orig.to_string(), &args(count))
}

fn procedure(name_orig: &str, count: usize) -> ProcedureInfo {
    procedure_info("ask".to_string(), name_orig.to_string(), &args(count), "u8".to_string())
}

fn hook_lines(text: &str) -> usize {
    text.lines().filter(|l| l.starts_with("pub fn use_")).count()
}

fn assert_braces_match(text: &str) {
    assert_eq!(text.matches('{').count(), text.matches('}').count());
    assert!(!text.contains("{{"));
    assert!(!text.contains("}}"));
}

fn differing_lines(a: &str, b: &str) -> Vec<(String, String)> {
    assert_eq!(a.lines().count(), b.lines().count());
    a.lines().zip(b.lines()).filter(|(x, y)| x != y).map(|(x, y)| (x.to_string(), y.to_string())).collect()
}

#[test]
fn the_file_holds_all_hooks() {
    let none = render_hooks_file("// Header line.\n", &[], &[], &[]);
    assert_eq!(hook_lines(&none), 6);
    let tables = [table("a", true), table("b", false)];
    let reducers = [reducer("Go", 0), reducer("Go", 2), reducer("Go", 1)];
    let procedures = [procedure("Ask", 0), procedure("Ask", 3)];
    let some = render_hooks_file("", &tables, &reducers, &procedures);
    assert_eq!(hook_lines(&some), 6 + 2 + 3 * 3 + 2 * 2);
}

#[test]
fn the_header_counts_too() {
    let text = render_hooks_file("pub fn use_header() {}\n", &[], &[], &[]);
    assert_eq!(hook_lines(&text), 7);
}

#[test]
fn the_provider_has_matching_braces() {
    for tables in [vec![], vec![table("a", true)], vec![table("a", false), table("", true)]] {
        let mut out = Indenter::new();
        write_context_provider(&mut out, &tables);
        assert_braces_match(&out.into_inner());
    }
}

#[test]
fn the_reconnect_helpers_have_matching_braces() {
    let mut out = Indenter::new();
    write_reconnect_helpers(&mut out);
    let once = out.into_inner();
    assert_braces_match(&once);
    let mut out = Indenter::new();
    out.write("x\n");
    write_reconnect_helpers(&mut out);
    write_reconnect_helpers(&mut out);
    assert_eq!(out.into_inner(), format!("x\n{once}{once}"));
}

#[test]
fn a_reducers_name_is_documentation() {
    for count in 0..3 {
        let text = |name: &str| {
            let mut out = Indenter::new();
            write_reducer_hook(&mut out, &reducer(name, count));
            out.into_inner()
        };
        let lines = differing_lines(&text("One"), &text("Other"));
        assert_eq!(lines.len(), 3);
        for (a, b) in lines {
            assert!(a.starts_with("///"));
            assert_eq!(a.replace("`One`", "`Other`"), b);
        }
    }
}

#[test]
fn a_procedures_name_is_documentation() {
    for count in 0..3 {
        let text = |name: &str| {
            let mut out = Indenter::new();
            write_procedure_hook(&mut out, &procedure(name, count));
            out.into_inner()
        };
        let lines = differing_lines(&text("One"), &text("Other"));
        assert_eq!(lines.len(), 2);
        for (a, b) in lines {
            assert!(a.starts_with("///"));
            assert_eq!(a.replace("`One`", "`Other`"), b);
        }
    }
}
