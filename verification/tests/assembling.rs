use codedoc::assemble::{assemble_document, relative_path, FileEntry};
use codedoc::filter::ExclusionSet;
use codedoc::render::{render_section, ReadOutcome};

#[test]
fn relative_paths_are_derived_under_the_root() {
    assert_eq!(relative_path("/root", "/root/a/b.rs"), Some(String::from("a/b.rs")));
    assert_eq!(relative_path("/", "/a"), Some(String::from("a")));
    assert_eq!(relative_path("/root/", "/root/x"), Some(String::from("x")));
}

#[test]
fn the_root_itself_and_outsiders_have_no_relative_path() {
    assert_eq!(relative_path("/root", "/root"), None);
    assert_eq!(relative_path("/root", "/root/"), None);
    assert_eq!(relative_path("/root", "/other/x"), None);
    assert_eq!(relative_path("/root", "/roots/x"), None);
}

#[test]
fn the_document_is_the_sections_in_entry_order() {
    let entries = vec![
        FileEntry {
            rel_path: String::from("a.rs"),
            outcome: ReadOutcome::Content(b"fn main() {}".to_vec()),
        },
        FileEntry {
            rel_path: String::from("b.png"),
            outcome: ReadOutcome::Content(vec![0u8, 1u8, 2u8]),
        },
    ];
    let doc = assemble_document(&entries);
    let expected = render_section("a.rs", &ReadOutcome::Content(b"fn main() {}".to_vec()))
        + &render_section("b.png", &ReadOutcome::Content(vec![0u8, 1u8, 2u8]));
    assert_eq!(doc, expected);
}

#[test]
fn assembly_is_stable_across_repeated_runs() {
    let make = || {
        vec![
            FileEntry {
                rel_path: String::from("x.py"),
                outcome: ReadOutcome::Content(b"print(1)\n".to_vec()),
            },
            FileEntry {
                rel_path: String::from("notes"),
                outcome: ReadOutcome::Failure(String::from("vanished")),
            },
        ]
    };
    assert_eq!(assemble_document(&make()), assemble_document(&make()));
}

#[test]
fn a_filtered_tree_renders_every_kept_file_once_and_no_lockfile() {
    // The round trip over a small tree: a.rs, b.png and Cargo.lock under the
    // root, no ignore rules; the lockfile is excluded before assembly.
    let excl = ExclusionSet::new(None);
    let candidates: Vec<(&str, ReadOutcome)> = vec![
        ("/r/a.rs", ReadOutcome::Content(b"fn main() {}".to_vec())),
        ("/r/b.png", ReadOutcome::Content(vec![0u8, 1u8, 2u8])),
        ("/r/Cargo.lock", ReadOutcome::Content(b"x".to_vec())),
    ];
    let mut entries: Vec<FileEntry> = Vec::new();
    for (path, outcome) in candidates {
        let name = path.rsplit('/').next().unwrap();
        if !excl.should_include(true, name, None) {
            continue;
        }
        if let Some(rel) = relative_path("/r", path) {
            entries.push(FileEntry { rel_path: rel, outcome });
        }
    }
    let doc = assemble_document(&entries);
    assert!(doc.contains("\n## `a.rs`\n\n```rust\nfn main() {}\n```\n"));
    assert!(doc.contains("\n## `b.png`\n\n```\n(Binary file, content omitted)\n```\n"));
    assert!(!doc.contains("Cargo.lock"));
    assert_eq!(doc.matches("\n## `a.rs`\n").count(), 1);
    assert_eq!(doc.matches("\n## `b.png`\n").count(), 1);
}
