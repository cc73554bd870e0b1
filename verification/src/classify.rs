//! Content classifier: decides whether a byte sequence is binary or text, and
//! decodes text lossily. The decision is a pure function of the bytes, so one
//! input always classifies the same way.

use vstd::prelude::*;
use vstd::utf8::{decode_utf8, valid_utf8};

verus! {

/// `b` opens with the byte sequence `prefix`.
pub open spec fn spec_starts_with(b: Seq<u8>, prefix: Seq<u8>) -> bool {
    b.len() >= prefix.len() && b.subrange(0, prefix.len() as int) == prefix
}

/// `b` opens with a byte order mark of UTF-8, UTF-16 or UTF-32.
pub open spec fn spec_has_bom(b: Seq<u8>) -> bool {
    ||| spec_starts_with(b, seq![0xEFu8, 0xBBu8, 0xBFu8])
    ||| spec_starts_with(b, seq![0x00u8, 0x00u8, 0xFEu8, 0xFFu8])
    ||| spec_starts_with(b, seq![0xFFu8, 0xFEu8, 0x00u8, 0x00u8])
    ||| spec_starts_with(b, seq![0xFEu8, 0xFFu8])
    ||| spec_starts_with(b, seq![0xFFu8, 0xFEu8])
}

/// How many leading bytes the classifier scans for a zero byte.
pub open spec fn spec_scan_len(b: Seq<u8>) -> int {
    if b.len() < 1024 {
        b.len() as int
    } else {
        1024
    }
}

/// A zero byte occurs among the scanned leading bytes.
pub open spec fn spec_has_zero_prefix(b: Seq<u8>) -> bool {
    exists|i: int| 0 <= i < spec_scan_len(b) && b[i] == 0u8
}

/// `b` opens with the magic number of a PDF or PNG file.
pub open spec fn spec_has_magic(b: Seq<u8>) -> bool {
    ||| spec_starts_with(b, seq![0x25u8, 0x50u8, 0x44u8, 0x46u8])
    ||| spec_starts_with(b, seq![0x89u8, 0x50u8, 0x4Eu8, 0x47u8])
}

/// Binary content: no byte order mark opens the buffer, and either a zero
/// byte occurs among the scanned leading bytes or a known binary magic number
/// opens it. Everything else counts as text.
pub open spec fn spec_is_binary(b: Seq<u8>) -> bool {
    !spec_has_bom(b) && (spec_has_zero_prefix(b) || spec_has_magic(b))
}

/// Relies on content_inspector::inspect: the type it reports is BINARY exactly when
/// no byte order mark opens the buffer and either a zero byte occurs among
/// the first 1024 bytes or the buffer opens with a PDF or PNG magic number.
#[verifier::external_body]
pub(crate) fn is_binary(b: &[u8]) -> (r: bool)
    ensures
        r == spec_is_binary(b@),
{
    content_inspector::inspect(b).is_binary()
}

/// A buffer that holds a zero byte among its scanned leading bytes and opens
/// with no byte order mark is always classified as binary.
pub proof fn lemma_zero_byte_is_binary(b: Seq<u8>)
    requires
        !spec_has_bom(b),
        spec_has_zero_prefix(b),
    ensures
        spec_is_binary(b),
{
}

/// What `String::from_utf8_lossy` returns: invalid sequences come back with
/// replacement markers, a result this crate names without specifying it.
pub uninterp spec fn lossy_utf8(b: Seq<u8>) -> Seq<char>;

/// Relies on String::from_utf8_lossy: valid UTF-8 decodes to its own
/// character sequence, unchanged; anything else decodes lossily.
#[verifier::external_body]
pub(crate) fn decode_lossy(b: &[u8]) -> (r: String)
    ensures
        r@ == lossy_utf8(b@),
        valid_utf8(b@) ==> r@ == decode_utf8(b@),
{
    String::from_utf8_lossy(b).into_owned()
}

} // verus!
