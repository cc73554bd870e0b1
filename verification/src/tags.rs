//! Language tagger: maps a file's extension (case-insensitive, taken from the
//! final path component) to the short identifier used as a fenced-block
//! language hint. Unknown or absent extensions yield the empty tag.

use vstd::prelude::*;
use crate::text::{lower_char, lower_chars, lower_char_exec, str_chars};
use vstd::slice::slice_subrange;

verus! {

/// The final component of a '/'-separated path.
pub open spec fn spec_file_name(p: Seq<char>) -> Seq<char>
    decreases p.len(),
{
    if p.len() == 0 {
        p
    } else if p.last() == '/' {
        Seq::empty()
    } else {
        spec_file_name(p.drop_last()).push(p.last())
    }
}

/// The extension of a file name: what follows the last '.', provided that dot
/// is not the name's first character. A name without such a dot has none.
pub open spec fn spec_extension(name: Seq<char>) -> Option<Seq<char>>
    decreases name.len(),
{
    if name.len() <= 1 {
        None
    } else if name.last() == '.' {
        Some(Seq::empty())
    } else {
        match spec_extension(name.drop_last()) {
            Some(e) => Some(e.push(name.last())),
            None => None,
        }
    }
}

/// The fixed extension table. The argument is already case-folded.
pub open spec fn spec_tag_of_ext(e: Seq<char>) -> Seq<char> {
    if e == "rs"@ {
        "rust"@
    } else if e == "py"@ || e == "pyw"@ {
        "python"@
    } else if e == "js"@ || e == "mjs"@ || e == "cjs"@ {
        "javascript"@
    } else if e == "ts"@ || e == "mts"@ || e == "cts"@ {
        "typescript"@
    } else if e == "java"@ {
        "java"@
    } else if e == "c"@ || e == "h"@ {
        "c"@
    } else if e == "cpp"@ || e == "hpp"@ || e == "cxx"@ || e == "hxx"@ || e == "cc"@ || e == "hh"@ {
        "cpp"@
    } else if e == "cs"@ {
        "csharp"@
    } else if e == "go"@ {
        "go"@
    } else if e == "php"@ {
        "php"@
    } else if e == "rb"@ {
        "ruby"@
    } else if e == "swift"@ {
        "swift"@
    } else if e == "kt"@ || e == "kts"@ {
        "kotlin"@
    } else if e == "scala"@ {
        "scala"@
    } else if e == "pl"@ {
        "perl"@
    } else if e == "sh"@ || e == "bash"@ || e == "zsh"@ {
        "bash"@
    } else if e == "ps1"@ {
        "powershell"@
    } else if e == "html"@ || e == "htm"@ {
        "html"@
    } else if e == "css"@ {
        "css"@
    } else if e == "scss"@ || e == "sass"@ {
        "scss"@
    } else if e == "less"@ {
        "less"@
    } else if e == "json"@ {
        "json"@
    } else if e == "yaml"@ || e == "yml"@ {
        "yaml"@
    } else if e == "toml"@ {
        "toml"@
    } else if e == "md"@ || e == "markdown"@ {
        "markdown"@
    } else if e == "sql"@ {
        "sql"@
    } else if e == "xml"@ {
        "xml"@
    } else if e == "dockerfile"@ || e == "containerfile"@ {
        "dockerfile"@
    } else if e == "nix"@ {
        "nix"@
    } else if e == "lua"@ {
        "lua"@
    } else if e == "r"@ {
        "r"@
    } else if e == "dart"@ {
        "dart"@
    } else if e == "ex"@ || e == "exs"@ {
        "elixir"@
    } else if e == "erl"@ || e == "hrl"@ {
        "erlang"@
    } else if e == "hs"@ {
        "haskell"@
    } else if e == "clj"@ || e == "cljs"@ || e == "cljc"@ || e == "edn"@ {
        "clojure"@
    } else if e == "groovy"@ || e == "gradle"@ {
        "groovy"@
    } else if e == "tf"@ {
        "terraform"@
    } else if e == "vue"@ {
        "vue"@
    } else if e == "svelte"@ {
        "svelte"@
    } else if e == "tex"@ {
        "latex"@
    } else if e == "zig"@ {
        "zig"@
    } else {
        ""@
    }
}

/// The language tag of a path: the table entry for its case-folded extension,
/// or the empty tag when the path has no extension.
pub open spec fn spec_language_tag(p: Seq<char>) -> Seq<char> {
    match spec_extension(spec_file_name(p)) {
        Some(e) => spec_tag_of_ext(lower_chars(e)),
        None => ""@,
    }
}

/// The file name of a path is the suffix after its last '/'.
proof fn lemma_file_name_after_slash(p: Seq<char>, i: int)
    requires
        0 <= i < p.len(),
        p[i] == '/',
        forall|j: int| i < j < p.len() ==> p[j] != '/',
    ensures
        spec_file_name(p) == p.subrange(i + 1, p.len() as int),
    decreases p.len(),
{
    if i == p.len() - 1 {
        assert(spec_file_name(p) =~= p.subrange(i + 1, p.len() as int));
    } else {
        lemma_file_name_after_slash(p.drop_last(), i);
        assert(spec_file_name(p) =~= p.subrange(i + 1, p.len() as int));
    }
}

/// A path without '/' is its own file name.
proof fn lemma_file_name_no_slash(p: Seq<char>)
    requires
        forall|j: int| 0 <= j < p.len() ==> p[j] != '/',
    ensures
        spec_file_name(p) == p,
    decreases p.len(),
{
    if p.len() > 0 {
        lemma_file_name_no_slash(p.drop_last());
        assert(spec_file_name(p) =~= p);
    }
}

/// The extension is the suffix after the last dot, when that dot is not the
/// name's first character.
proof fn lemma_extension_at(name: Seq<char>, i: int)
    requires
        0 < i < name.len(),
        name[i] == '.',
        forall|j: int| i < j < name.len() ==> name[j] != '.',
    ensures
        spec_extension(name) == Some(name.subrange(i + 1, name.len() as int)),
    decreases name.len(),
{
    if i == name.len() - 1 {
        assert(spec_extension(name) =~= Some(
            name.subrange(i + 1, name.len() as int),
        )) by {
            assert(name.subrange(i + 1, name.len() as int) =~= Seq::<char>::empty());
        }
    } else {
        lemma_extension_at(name.drop_last(), i);
        assert(name.subrange(i + 1, name.len() as int) =~= name.drop_last().subrange(
            i + 1,
            name.len() - 1,
        ).push(name.last()));
    }
}

/// A name whose only possible dot is its first character has no extension.
proof fn lemma_no_extension(name: Seq<char>)
    requires
        forall|j: int| 1 <= j < name.len() ==> name[j] != '.',
    ensures
        spec_extension(name) is None,
    decreases name.len(),
{
    if name.len() > 1 {
        lemma_no_extension(name.drop_last());
    }
}

/// The largest index at which `c` occurs in `v`, if any.
fn last_index_of(v: &[char], c: char) -> (r: Option<usize>)
    ensures
        r matches Some(i) ==> i < v@.len() && v@[i as int] == c && forall|j: int|
            i < j < v@.len() ==> v@[j] != c,
        r is None ==> forall|j: int| 0 <= j < v@.len() ==> v@[j] != c,
{
    let mut k: usize = v.len();
    while k > 0
        invariant
            k <= v@.len(),
            forall|j: int| k <= j < v@.len() ==> v@[j] != c,
        decreases k,
    {
        k = k - 1;
        if v[k] == c {
            return Some(k);
        }
    }
    None
}

/// Case-folds every character of a slice.
fn lower_vec(v: &[char]) -> (r: Vec<char>)
    ensures
        r@ == lower_chars(v@),
{
    let n = v.len();
    let mut r: Vec<char> = Vec::new();
    let mut i: usize = 0;
    while i < n
        invariant
            n == v@.len(),
            i <= n,
            r@ == lower_chars(v@.take(i as int)),
        decreases n - i,
    {
        r.push(lower_char_exec(v[i]));
        proof {
            assert(lower_chars(v@.take(i + 1 as int)) =~= lower_chars(v@.take(i as int)).push(
                lower_char(v@[i as int]),
            ));
        }
        i += 1;
    }
    proof {
        assert(v@.take(n as int) =~= v@);
    }
    r
}

/// Character-for-character comparison of a slice with a string literal.
fn chars_eq(a: &[char], lit: &str) -> (r: bool)
    ensures
        r == (a@ == lit@),
{
    let bv = str_chars(lit);
    if a.len() != bv.len() {
        return false;
    }
    let n = a.len();
    let mut i: usize = 0;
    while i < n
        invariant
            n == a@.len() == bv@.len(),
            bv@ == lit@,
            i <= n,
            forall|j: int| 0 <= j < i ==> a@[j] == bv@[j],
        decreases n - i,
    {
        if a[i] != bv[i] {
            return false;
        }
        i += 1;
    }
    proof {
        assert(a@ =~= lit@);
    }
    true
}

/// Looks the case-folded extension up in the fixed table.
fn tag_of_ext(e: &[char]) -> (t: &'static str)
    ensures
        t@ == spec_tag_of_ext(e@),
{
    if chars_eq(e, "rs") {
        "rust"
    } else if chars_eq(e, "py") || chars_eq(e, "pyw") {
        "python"
    } else if chars_eq(e, "js") || chars_eq(e, "mjs") || chars_eq(e, "cjs") {
        "javascript"
    } else if chars_eq(e, "ts") || chars_eq(e, "mts") || chars_eq(e, "cts") {
        "typescript"
    } else if chars_eq(e, "java") {
        "java"
    } else if chars_eq(e, "c") || chars_eq(e, "h") {
        "c"
    } else if chars_eq(e, "cpp") || chars_eq(e, "hpp") || chars_eq(e, "cxx") || chars_eq(e, "hxx")
        || chars_eq(e, "cc") || chars_eq(e, "hh") {
        "cpp"
    } else if chars_eq(e, "cs") {
        "csharp"
    } else if chars_eq(e, "go") {
        "go"
    } else if chars_eq(e, "php") {
        "php"
    } else if chars_eq(e, "rb") {
        "ruby"
    } else if chars_eq(e, "swift") {
        "swift"
    } else if chars_eq(e, "kt") || chars_eq(e, "kts") {
        "kotlin"
    } else if chars_eq(e, "scala") {
        "scala"
    } else if chars_eq(e, "pl") {
        "perl"
    } else if chars_eq(e, "sh") || chars_eq(e, "bash") || chars_eq(e, "zsh") {
        "bash"
    } else if chars_eq(e, "ps1") {
        "powershell"
    } else if chars_eq(e, "html") || chars_eq(e, "htm") {
        "html"
    } else if chars_eq(e, "css") {
        "css"
    } else if chars_eq(e, "scss") || chars_eq(e, "sass") {
        "scss"
    } else if chars_eq(e, "less") {
        "less"
    } else if chars_eq(e, "json") {
        "json"
    } else if chars_eq(e, "yaml") || chars_eq(e, "yml") {
        "yaml"
    } else if chars_eq(e, "toml") {
        "toml"
    } else if chars_eq(e, "md") || chars_eq(e, "markdown") {
        "markdown"
    } else if chars_eq(e, "sql") {
        "sql"
    } else if chars_eq(e, "xml") {
        "xml"
    } else if chars_eq(e, "dockerfile") || chars_eq(e, "containerfile") {
        "dockerfile"
    } else if chars_eq(e, "nix") {
        "nix"
    } else if chars_eq(e, "lua") {
        "lua"
    } else if chars_eq(e, "r") {
        "r"
    } else if chars_eq(e, "dart") {
        "dart"
    } else if chars_eq(e, "ex") || chars_eq(e, "exs") {
        "elixir"
    } else if chars_eq(e, "erl") || chars_eq(e, "hrl") {
        "erlang"
    } else if chars_eq(e, "hs") {
        "haskell"
    } else if chars_eq(e, "clj") || chars_eq(e, "cljs") || chars_eq(e, "cljc") || chars_eq(
        e,
        "edn",
    ) {
        "clojure"
    } else if chars_eq(e, "groovy") || chars_eq(e, "gradle") {
        "groovy"
    } else if chars_eq(e, "tf") {
        "terraform"
    } else if chars_eq(e, "vue") {
        "vue"
    } else if chars_eq(e, "svelte") {
        "svelte"
    } else if chars_eq(e, "tex") {
        "latex"
    } else if chars_eq(e, "zig") {
        "zig"
    } else {
        ""
    }
}

/// Returns the fenced-block language hint for a relative path, or the empty
/// tag when the path's extension is unknown or absent.
pub fn get_language_tag(rel_path: &str) -> (t: &'static str)
    ensures
        t@ == spec_language_tag(rel_path@),
{
    let v = str_chars(rel_path);
    let vs = v.as_slice();
    let name: &[char] = match last_index_of(vs, '/') {
        Some(i) => {
            let n = vs.len();
            let r = slice_subrange(vs, i + 1, n);
            proof {
                lemma_file_name_after_slash(rel_path@, i as int);
            }
            r
        },
        None => {
            proof {
                lemma_file_name_no_slash(rel_path@);
            }
            vs
        },
    };
    assert(name@ == spec_file_name(rel_path@));
    match last_index_of(name, '.') {
        Some(i) => {
            if i == 0 {
                proof {
                    lemma_no_extension(name@);
                }
                ""
            } else {
                let n = name.len();
                let ext = slice_subrange(name, i + 1, n);
                proof {
                    lemma_extension_at(name@, i as int);
                }
                let low = lower_vec(ext);
                tag_of_ext(low.as_slice())
            }
        },
        None => {
            proof {
                lemma_no_extension(name@);
            }
            ""
        },
    }
}

} // verus!
