# dioxus_codegen

Generates Dioxus v0.7 signals and hooks for clients of a SpacetimeDB module, as a library whose
behaviour is stated in contracts and proved with Verus.

- `schema`: the part of a module's schema that the generator reads.
- `types`, `refs`, `casing`, `args`: types, their names, and argument lists as Rust code.
- `reducer_file`: the file for one reducer.
- `collect`, `info`, `hooks`, `hooks_file`: the file `dioxus.rs` with the hooks for a module.
- `search`, `dioxus`: declaring that file as a module, and the generator itself.
- `defined`: whether a module defines the types that its code has to name.
- `laws`: what holds of the generated code as a whole.

Identifiers are re-cased by the `convert_case` crate; that its result depends on the text and the
case alone is the one thing that is taken on trust.

`app/` plugs the generator into a tool that generates code for several languages. The files that a
Dioxus client shares with a plain Rust client come from the generator for the latter.
