//! File renderer: one self-contained section per file, a header naming the
//! relative path followed by a fenced block that carries the file's text,
//! a binary placeholder, or a read-error placeholder.

use vstd::prelude::*;
use vstd::utf8::{decode_utf8, valid_utf8};
use crate::classify::{decode_lossy, is_binary, lossy_utf8, spec_is_binary};
use crate::tags::{get_language_tag, spec_language_tag};
use crate::text::{append_chars, str_chars};
use vstd::string::StringExecFns;

verus! {

/// What reading a file produced: its bytes, or the reason the read failed.
/// A failed read is recovered, not fatal: it renders as a placeholder.
pub enum ReadOutcome {
    Content(Vec<u8>),
    Failure(String),
}

/// The mathematical value of a `ReadOutcome`.
pub enum ReadOutcomeView {
    Content(Seq<u8>),
    Failure(Seq<char>),
}

impl View for ReadOutcome {
    type V = ReadOutcomeView;

    open spec fn view(&self) -> ReadOutcomeView {
        match self {
            ReadOutcome::Content(b) => ReadOutcomeView::Content(b@),
            ReadOutcome::Failure(m) => ReadOutcomeView::Failure(m@),
        }
    }
}

/// Every "\r\n" pair becomes a single '\n'; all other characters, a lone '\r'
/// included, pass through unchanged.
pub open spec fn crlf_to_lf(s: Seq<char>) -> Seq<char>
    decreases s.len(),
{
    if s.len() == 0 {
        s
    } else if s.len() >= 2 && s[0] == '\r' && s[1] == '\n' {
        seq!['\n'] + crlf_to_lf(s.skip(2))
    } else {
        seq![s[0]] + crlf_to_lf(s.skip(1))
    }
}

/// A rendered body: line endings normalized, and a final newline added when
/// nonempty text does not already end with one, so that the block holds one
/// line per output line. Empty text stays empty.
pub open spec fn spec_normalized(s: Seq<char>) -> Seq<char> {
    let t = crlf_to_lf(s);
    if t.len() == 0 {
        t
    } else if t.last() == '\n' {
        t
    } else {
        t.push('\n')
    }
}

/// The header line naming the relative path.
pub open spec fn spec_header(rel: Seq<char>) -> Seq<char> {
    "\n## `"@ + rel + "`\n\n"@
}

/// The fenced block for a file that could not be read.
pub open spec fn spec_error_block(msg: Seq<char>) -> Seq<char> {
    "```\n(Error reading file: "@ + msg + ")\n```\n"@
}

/// The fenced block for binary content: a fixed placeholder, never decoded
/// bytes.
pub open spec fn spec_binary_block() -> Seq<char> {
    "```\n(Binary file, content omitted)\n```\n"@
}

/// The fenced block for text content, opened with the language tag.
pub open spec fn spec_text_block(tag: Seq<char>, body: Seq<char>) -> Seq<char> {
    "```"@ + tag + "\n"@ + body + "```\n"@
}

/// The complete section for one file.
pub open spec fn spec_section(rel: Seq<char>, outcome: ReadOutcomeView) -> Seq<char> {
    spec_header(rel) + match outcome {
        ReadOutcomeView::Failure(msg) => spec_error_block(msg),
        ReadOutcomeView::Content(bytes) => if spec_is_binary(bytes) {
            spec_binary_block()
        } else {
            spec_text_block(spec_language_tag(rel), spec_normalized(lossy_utf8(bytes)))
        },
    }
}

/// Binary content always renders as the fixed placeholder block, never as
/// decoded bytes; in particular any buffer that opens with no byte order mark
/// and holds a zero byte among its scanned leading bytes.
pub proof fn lemma_binary_renders_placeholder(rel: Seq<char>, bytes: Seq<u8>)
    requires
        spec_is_binary(bytes),
    ensures
        spec_section(rel, ReadOutcomeView::Content(bytes)) == spec_header(rel)
            + spec_binary_block(),
{
}

/// Normalizes line endings: "\r\n" becomes '\n', and nonempty text gains a
/// final newline when it lacks one.
fn normalize(v: &[char]) -> (r: Vec<char>)
    ensures
        r@ == spec_normalized(v@),
{
    let n = v.len();
    let mut out: Vec<char> = Vec::new();
    let mut i: usize = 0;
    proof {
        assert(v@.skip(0) =~= v@);
        assert(out@ + crlf_to_lf(v@) =~= crlf_to_lf(v@));
    }
    while i < n
        invariant
            n == v@.len(),
            i <= n,
            crlf_to_lf(v@) == out@ + crlf_to_lf(v@.skip(i as int)),
        decreases n - i,
    {
        if v[i] == '\r' && i + 1 < n && v[i + 1] == '\n' {
            proof {
                let rest = v@.skip(i as int);
                assert(rest[0] == '\r' && rest[1] == '\n');
                assert(rest.skip(2) =~= v@.skip(i + 2));
                assert(out@ + (seq!['\n'] + crlf_to_lf(v@.skip(i + 2))) =~= out@.push('\n')
                    + crlf_to_lf(v@.skip(i + 2)));
            }
            out.push('\n');
            i += 2;
        } else {
            proof {
                let rest = v@.skip(i as int);
                assert(rest[0] == v@[i as int]);
                assert(rest.len() >= 2 ==> rest[1] == v@[i + 1]);
                assert(rest.skip(1) =~= v@.skip(i + 1));
                assert(out@ + (seq![rest[0]] + crlf_to_lf(v@.skip(i + 1))) =~= out@.push(rest[0])
                    + crlf_to_lf(v@.skip(i + 1)));
            }
            let c = v[i];
            out.push(c);
            i += 1;
        }
    }
    proof {
        assert(v@.skip(n as int) =~= Seq::<char>::empty());
        assert(out@ + crlf_to_lf(v@.skip(n as int)) =~= out@);
    }
    if out.len() > 0 {
        let last = out[out.len() - 1];
        if last != '\n' {
            out.push('\n');
        }
    }
    out
}

/// Renders the section for one file: the header, then the fenced block for
/// its text, for its binary placeholder, or for the read failure. Text bodies
/// come from the lossy decoding; valid UTF-8 content renders as exactly its
/// own characters, line endings normalized.
pub fn render_section(rel_path: &str, outcome: &ReadOutcome) -> (s: String)
    ensures
        s@ == spec_section(rel_path@, outcome@),
        (match outcome@ {
            ReadOutcomeView::Content(b) => valid_utf8(b) && !spec_is_binary(b) ==> s@
                == spec_header(rel_path@) + spec_text_block(
                spec_language_tag(rel_path@),
                spec_normalized(decode_utf8(b)),
            ),
            ReadOutcomeView::Failure(_) => true,
        }),
{
    let mut out = String::new();
    out.append("\n## `");
    out.append(rel_path);
    out.append("`\n\n");
    proof {
        assert(out@ =~= spec_header(rel_path@));
    }
    match outcome {
        ReadOutcome::Failure(msg) => {
            out.append("```\n(Error reading file: ");
            out.append(msg.as_str());
            out.append(")\n```\n");
            proof {
                assert(out@ =~= spec_header(rel_path@) + spec_error_block(msg@));
            }
        },
        ReadOutcome::Content(bytes) => {
            if is_binary(bytes.as_slice()) {
                out.append("```\n(Binary file, content omitted)\n```\n");
                proof {
                    assert(out@ =~= spec_header(rel_path@) + spec_binary_block());
                }
            } else {
                let text = decode_lossy(bytes.as_slice());
                let tag = get_language_tag(rel_path);
                out.append("```");
                out.append(tag);
                out.append("\n");
                let tv = str_chars(text.as_str());
                let body = normalize(tv.as_slice());
                append_chars(&mut out, &body);
                out.append("```\n");
                proof {
                    assert(out@ =~= spec_header(rel_path@) + spec_text_block(
                        spec_language_tag(rel_path@),
                        spec_normalized(lossy_utf8(bytes@)),
                    ));
                }
            }
        },
    }
    out
}

} // verus!
