use dioxus_codegen::dioxus::{register_hooks, CodegenOptions, Dioxus};
use dioxus_codegen::hooks_file::generate_dioxus_hooks;
use dioxus_codegen::output::OutputFile;
use dioxus_codegen::schema::{CodegenVisibility, ModuleDef};
use dioxus_codegen::search::find;

fn module() -> ModuleDef {
    ModuleDef { types: vec![], relations: vec![], reducers: vec![], procedures: vec![] }
}

fn file(filename: &str, code: &str) -> OutputFile {
    OutputFile { filename: filename.to_string(), code: code.to_string() }
}

fn global_files(files: Vec<OutputFile>) -> Vec<(String, String)> {
    let options = CodegenOptions { visibility: CodegenVisibility::OnlyPublic };
    let all = Dioxus.generate_global_files(&module(), &options, "// Header line.\n", files);
    all.into_iter().map(|f| (f.filename, f.code)).collect()
}

fn hooks() -> (String, String) {
    let file = generate_dioxus_hooks(&module(), CodegenVisibility::OnlyPublic, "// Header line.\n");
    (file.filename, file.code)
}

fn pair(filename: &str, code: &str) -> (String, String) {
    (filename.to_string(), code.to_string())
}

#[test]
fn the_first_position_is_found() {
    assert_eq!(find("abcabc", "bc"), Some(1));
    assert_eq!(find("abcabc", "x"), None);
    assert_eq!(find("aab", "ab"), Some(1));
    assert_eq!(find("ab", "abc"), None);
    assert_eq!(find("ab", ""), Some(0));
    assert_eq!(find("", ""), Some(0));
    assert_eq!(find("", "a"), None);
    assert_eq!(find("abc", "abc"), Some(0));
    assert_eq!(find("é€b", "b"), Some(2));
}

#[test]
fn the_hooks_are_declared_before_the_first_public_module() {
    let code = "// Ünïcode\nuse x;\n\npub mod a;\npub mod b;\n";
    assert_eq!(register_hooks(code), "// Ünïcode\nuse x;\n\npub mod dioxus;\n\npub mod a;\npub mod b;\n");
}

#[test]
fn taking_the_declaration_out_gives_the_code_back() {
    let code = "x\npub mod a;\npub mod b;\n";
    assert_eq!(register_hooks(code).replacen("\npub mod dioxus;\n", "", 1), code);
}

#[test]
fn a_module_on_the_first_line_does_not_count() {
    assert_eq!(register_hooks("pub mod a;\n"), "pub mod a;\n");
    assert_eq!(register_hooks("pub mod a;\npub mod b;\n"), "pub mod a;\npub mod dioxus;\n\npub mod b;\n");
}

#[test]
fn code_without_public_modules_stays() {
    assert_eq!(register_hooks("mod a;\npub(crate) mod b;\n"), "mod a;\npub(crate) mod b;\n");
    assert_eq!(register_hooks(""), "");
}

#[test]
fn the_hooks_are_added_and_declared() {
    let files = vec![file("a.rs", "\npub mod x;\n"), file("mod.rs", "\npub mod a;\n"), file("z.rs", "z")];
    let expected = vec![
        pair("a.rs", "\npub mod x;\n"),
        pair("mod.rs", "\npub mod dioxus;\n\npub mod a;\n"),
        pair("z.rs", "z"),
        hooks(),
    ];
    assert_eq!(global_files(files), expected);
}

#[test]
fn only_the_first_module_file_changes() {
    let files = vec![file("mod.rs", "none"), file("mod.rs", "\npub mod a;\n")];
    assert_eq!(global_files(files), vec![pair("mod.rs", "none"), pair("mod.rs", "\npub mod a;\n"), hooks()]);
}

#[test]
fn without_a_module_file_the_hooks_are_only_added() {
    assert_eq!(global_files(vec![]), vec![hooks()]);
    assert_eq!(global_files(vec![file("sub/mod.rs", "\npub mod a;\n")]), vec![pair("sub/mod.rs", "\npub mod a;\n"), hooks()]);
}
