use codedoc::render::{render_section, ReadOutcome};

#[test]
fn text_content_renders_with_its_tag_and_body() {
    let outcome = ReadOutcome::Content(b"fn main() {}".to_vec());
    let s = render_section("a.rs", &outcome);
    assert_eq!(s, "\n## `a.rs`\n\n```rust\nfn main() {}\n```\n");
}

#[test]
fn binary_content_renders_as_the_fixed_placeholder() {
    let outcome = ReadOutcome::Content(vec![0u8, 1u8, 2u8]);
    let s = render_section("b.png", &outcome);
    assert_eq!(s, "\n## `b.png`\n\n```\n(Binary file, content omitted)\n```\n");
}

#[test]
fn a_null_byte_beyond_the_scanned_prefix_is_not_seen() {
    let mut bytes = vec![b'x'; 1024];
    bytes.push(0u8);
    let s = render_section("big.txt", &ReadOutcome::Content(bytes));
    assert!(s.contains("```\nx"));
    assert!(!s.contains("omitted"));
}

#[test]
fn a_byte_order_mark_makes_null_bytes_text() {
    let bytes = vec![0xFFu8, 0xFEu8, b'A', 0u8];
    let s = render_section("w.txt", &ReadOutcome::Content(bytes));
    assert!(!s.contains("omitted"));
    assert_eq!(s, "\n## `w.txt`\n\n```\n\u{FFFD}\u{FFFD}A\u{0000}\n```\n");
}

#[test]
fn a_read_failure_renders_as_an_error_placeholder() {
    let outcome = ReadOutcome::Failure(String::from("permission denied"));
    let s = render_section("locked.rs", &outcome);
    assert_eq!(s, "\n## `locked.rs`\n\n```\n(Error reading file: permission denied)\n```\n");
}

#[test]
fn an_empty_file_renders_as_text_with_an_empty_body() {
    let s = render_section("empty.py", &ReadOutcome::Content(Vec::new()));
    assert_eq!(s, "\n## `empty.py`\n\n```python\n```\n");
}

#[test]
fn line_endings_are_normalized() {
    let s = render_section("m.txt", &ReadOutcome::Content(b"a\r\nb".to_vec()));
    assert_eq!(s, "\n## `m.txt`\n\n```\na\nb\n```\n");
    let t = render_section("m.txt", &ReadOutcome::Content(b"a\n".to_vec()));
    assert_eq!(t, "\n## `m.txt`\n\n```\na\n```\n");
    let u = render_section("m.txt", &ReadOutcome::Content(b"a\n\n".to_vec()));
    assert_eq!(u, "\n## `m.txt`\n\n```\na\n\n```\n");
    let v = render_section("m.txt", &ReadOutcome::Content(b"a\rb".to_vec()));
    assert_eq!(v, "\n## `m.txt`\n\n```\na\rb\n```\n");
}

#[test]
fn invalid_utf8_text_is_decoded_lossily_not_verbatim() {
    let s = render_section("odd.txt", &ReadOutcome::Content(vec![b'a', 0xFFu8, b'b']));
    assert_eq!(s, "\n## `odd.txt`\n\n```\na\u{FFFD}b\n```\n");
}

#[test]
fn classification_is_deterministic_across_runs() {
    let bytes = vec![0u8, 1u8, 2u8];
    let one = render_section("b.bin", &ReadOutcome::Content(bytes.clone()));
    let two = render_section("b.bin", &ReadOutcome::Content(bytes));
    assert_eq!(one, two);
}
