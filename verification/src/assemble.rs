//! Document assembler: derives each file's path relative to the root, renders
//! one section per accepted file, and concatenates the sections in traversal
//! order into the complete document.

use vstd::prelude::*;
use crate::render::{render_section, spec_section};
use crate::text::{append_chars, str_chars};
use vstd::slice::{slice_subrange, slice_to_vec};

verus! {

/// The root as a directory prefix: itself when it already ends with the
/// separator, otherwise with one appended.
pub open spec fn spec_root_prefix(root: Seq<char>) -> Seq<char> {
    if root.len() > 0 && root.last() == '/' {
        root
    } else {
        root.push('/')
    }
}

/// The path relative to the root: what follows the root's directory prefix,
/// when the path lies strictly under it. The root itself, and any path
/// outside it, has none.
pub open spec fn spec_relative_path(root: Seq<char>, path: Seq<char>) -> Option<Seq<char>> {
    let prefix = spec_root_prefix(root);
    if path.len() > prefix.len() && path.subrange(0, prefix.len() as int) == prefix {
        Some(path.subrange(prefix.len() as int, path.len() as int))
    } else {
        None
    }
}

/// Derives a traversal entry's path relative to the root, or nothing when the
/// entry is the root itself or does not lie under it.
pub fn relative_path(root: &str, path: &str) -> (r: Option<String>)
    ensures
        match r {
            Some(s) => spec_relative_path(root@, path@) == Some(s@),
            None => spec_relative_path(root@, path@) is None,
        },
{
    let mut prefix = str_chars(root);
    if prefix.len() == 0 || prefix[prefix.len() - 1] != '/' {
        prefix.push('/');
        proof {
            assert(prefix@ =~= spec_root_prefix(root@));
        }
    }
    assert(prefix@ == spec_root_prefix(root@));
    let pv = str_chars(path);
    let plen = prefix.len();
    if pv.len() <= plen {
        return None;
    }
    let mut i: usize = 0;
    while i < plen
        invariant
            plen == prefix@.len() < pv@.len(),
            prefix@ == spec_root_prefix(root@),
            pv@ == path@,
            i <= plen,
            forall|j: int| 0 <= j < i ==> pv@[j] == prefix@[j],
        decreases plen - i,
    {
        if pv[i] != prefix[i] {
            proof {
                assert(pv@.subrange(0, plen as int)[i as int] != prefix@[i as int]);
            }
            return None;
        }
        i += 1;
    }
    proof {
        assert(pv@.subrange(0, plen as int) =~= prefix@);
    }
    let rest_slice = slice_subrange(pv.as_slice(), plen, pv.len());
    let rest_chars = slice_to_vec(rest_slice);
    let mut rest = String::new();
    append_chars(&mut rest, &rest_chars);
    Some(rest)
}

/// One accepted file, ready to render: its path relative to the root, and
/// what reading it produced.
pub struct FileEntry {
    pub rel_path: String,
    pub outcome: crate::render::ReadOutcome,
}

/// The mathematical value of a `FileEntry`.
pub struct FileEntryView {
    pub rel_path: Seq<char>,
    pub outcome: crate::render::ReadOutcomeView,
}

impl View for FileEntry {
    type V = FileEntryView;

    open spec fn view(&self) -> FileEntryView {
        FileEntryView { rel_path: self.rel_path@, outcome: self.outcome@ }
    }
}

/// The values of a sequence of entries.
pub open spec fn spec_entry_views(entries: Seq<FileEntry>) -> Seq<FileEntryView> {
    entries.map_values(|e: FileEntry| e@)
}

/// The complete document: the sections of the entries, concatenated in order
/// with no separator beyond each section's own leading blank line.
pub open spec fn spec_document(entries: Seq<FileEntryView>) -> Seq<char>
    decreases entries.len(),
{
    if entries.len() == 0 {
        Seq::empty()
    } else {
        spec_section(entries[0].rel_path, entries[0].outcome) + spec_document(entries.drop_first())
    }
}

/// The offset at which entry `i`'s section starts: the summed length of the
/// sections before it.
pub open spec fn spec_doc_offset(entries: Seq<FileEntryView>, i: int) -> int
    decreases i,
{
    if i <= 0 {
        0
    } else {
        spec_doc_offset(entries, i - 1) + spec_section(
            entries[i - 1].rel_path,
            entries[i - 1].outcome,
        ).len()
    }
}

/// Dropping the first entry shifts every later section's offset down by the
/// first section's length.
proof fn lemma_offset_shift(entries: Seq<FileEntryView>, i: int)
    requires
        entries.len() > 0,
        1 <= i <= entries.len(),
    ensures
        spec_doc_offset(entries, i) == spec_section(entries[0].rel_path, entries[0].outcome).len()
            + spec_doc_offset(entries.drop_first(), i - 1),
    decreases i,
{
    let df = entries.drop_first();
    if i == 1 {
        assert(spec_doc_offset(entries, 1) == spec_doc_offset(entries, 0) + spec_section(
            entries[0].rel_path,
            entries[0].outcome,
        ).len());
        assert(spec_doc_offset(df, 0) == 0);
    } else {
        lemma_offset_shift(entries, i - 1);
        assert(entries[i - 1] == df[i - 2]);
        assert(spec_doc_offset(entries, i) == spec_doc_offset(entries, i - 1) + spec_section(
            entries[i - 1].rel_path,
            entries[i - 1].outcome,
        ).len());
        assert(spec_doc_offset(df, i - 1) == spec_doc_offset(df, i - 2) + spec_section(
            df[i - 2].rel_path,
            df[i - 2].outcome,
        ).len());
    }
}

/// The document's length is the summed length of all its sections.
pub proof fn lemma_document_len(entries: Seq<FileEntryView>)
    ensures
        spec_document(entries).len() == spec_doc_offset(entries, entries.len() as int),
    decreases entries.len(),
{
    if entries.len() > 0 {
        lemma_document_len(entries.drop_first());
        lemma_offset_shift(entries, entries.len() as int);
    }
}

/// Every entry's section stands in the document, whole, at the offset given
/// by the sections before it, in entry order; together with
/// `lemma_document_len` this accounts for every character of the document,
/// so each accepted file appears exactly once.
pub proof fn lemma_document_places_each_section(entries: Seq<FileEntryView>, i: int)
    requires
        0 <= i < entries.len(),
    ensures
        spec_doc_offset(entries, i) >= 0,
        spec_doc_offset(entries, i) + spec_section(entries[i].rel_path, entries[i].outcome).len()
            <= spec_document(entries).len(),
        spec_document(entries).subrange(
            spec_doc_offset(entries, i),
            spec_doc_offset(entries, i) + spec_section(
                entries[i].rel_path,
                entries[i].outcome,
            ).len() as int,
        ) == spec_section(entries[i].rel_path, entries[i].outcome),
    decreases i,
{
    let doc = spec_document(entries);
    let first = spec_section(entries[0].rel_path, entries[0].outcome);
    let rest = spec_document(entries.drop_first());
    assert(doc == first + rest);
    if i == 0 {
        assert(doc.subrange(0, first.len() as int) =~= first);
    } else {
        lemma_document_places_each_section(entries.drop_first(), i - 1);
        lemma_offset_shift(entries, i);
        let section = spec_section(entries[i].rel_path, entries[i].outcome);
        let off = spec_doc_offset(entries.drop_first(), i - 1);
        assert(entries[i] == entries.drop_first()[i - 1]);
        assert(doc.subrange(first.len() + off, first.len() + off + section.len() as int)
            =~= rest.subrange(off, off + section.len() as int));
    }
}

/// Assembles the complete document from the accepted entries, in order.
pub fn assemble_document(entries: &Vec<FileEntry>) -> (doc: String)
    ensures
        doc@ == spec_document(spec_entry_views(entries@)),
{
    let mut doc = String::new();
    let n = entries.len();
    let mut i: usize = 0;
    proof {
        let views = spec_entry_views(entries@);
        assert(views.skip(0) =~= views);
        assert(doc@ + spec_document(views) =~= spec_document(views));
    }
    while i < n
        invariant
            n == entries@.len(),
            i <= n,
            spec_document(spec_entry_views(entries@)) == doc@ + spec_document(
                spec_entry_views(entries@).skip(i as int),
            ),
        decreases n - i,
    {
        let section = render_section(entries[i].rel_path.as_str(), &entries[i].outcome);
        let sv = str_chars(section.as_str());
        proof {
            let views = spec_entry_views(entries@);
            let tail = views.skip(i as int);
            assert(tail[0] == views[i as int]);
            assert(tail.drop_first() =~= views.skip(i + 1));
            assert(views[i as int].rel_path == entries@[i as int].rel_path@);
            assert(views[i as int].outcome == entries@[i as int].outcome@);
            assert(doc@ + (sv@ + spec_document(views.skip(i + 1))) =~= (doc@ + sv@)
                + spec_document(views.skip(i + 1)));
        }
        append_chars(&mut doc, &sv);
        i += 1;
    }
    proof {
        let views = spec_entry_views(entries@);
        assert(views.skip(n as int) =~= Seq::<FileEntryView>::empty());
        assert(doc@ + spec_document(views.skip(n as int)) =~= doc@);
    }
    doc
}

} // verus!
