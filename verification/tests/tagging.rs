use codedoc::tags::get_language_tag;

#[test]
fn known_extensions_map_to_their_tags() {
    assert_eq!(get_language_tag("a.rs"), "rust");
    assert_eq!(get_language_tag("script.py"), "python");
    assert_eq!(get_language_tag("script.pyw"), "python");
    assert_eq!(get_language_tag("m.mjs"), "javascript");
    assert_eq!(get_language_tag("m.cjs"), "javascript");
    assert_eq!(get_language_tag("t.mts"), "typescript");
    assert_eq!(get_language_tag("h.hh"), "cpp");
    assert_eq!(get_language_tag("p.ps1"), "powershell");
    assert_eq!(get_language_tag("x.yml"), "yaml");
    assert_eq!(get_language_tag("x.markdown"), "markdown");
    assert_eq!(get_language_tag("x.containerfile"), "dockerfile");
    assert_eq!(get_language_tag("x.edn"), "clojure");
    assert_eq!(get_language_tag("x.gradle"), "groovy");
    assert_eq!(get_language_tag("x.tex"), "latex");
    assert_eq!(get_language_tag("x.zig"), "zig");
}

#[test]
fn extension_lookup_is_case_insensitive() {
    assert_eq!(get_language_tag("A.RS"), "rust");
    assert_eq!(get_language_tag("x.PyW"), "python");
    assert_eq!(get_language_tag("x.Toml"), "toml");
}

#[test]
fn extension_comes_from_the_final_component() {
    assert_eq!(get_language_tag("dir/file.ts"), "typescript");
    assert_eq!(get_language_tag("dir.d/file.go"), "go");
    assert_eq!(get_language_tag("dir.rs/file"), "");
    assert_eq!(get_language_tag("a/b/c.tar.gz"), "");
    assert_eq!(get_language_tag("a/b/c.tar.rb"), "ruby");
}

#[test]
fn unknown_or_absent_extensions_yield_the_empty_tag() {
    assert_eq!(get_language_tag("README"), "");
    assert_eq!(get_language_tag("a.unknownext"), "");
    assert_eq!(get_language_tag(".gitignore"), "");
    assert_eq!(get_language_tag("dir/.hidden"), "");
    assert_eq!(get_language_tag("trailing."), "");
    assert_eq!(get_language_tag(""), "");
}
