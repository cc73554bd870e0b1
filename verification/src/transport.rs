//! Destination transport support: a clipboard-style transport accepts only a
//! single valid UTF-8 string, so a generated document is checked, and
//! rejected whole, before any transfer is attempted.

use vstd::prelude::*;
use vstd::utf8::{decode_utf8, valid_utf8};

verus! {

/// Why a transport rejected the generated document.
#[derive(Clone, Copy, Debug, PartialEq, Eq, Structural)]
pub enum TransportError {
    /// The generated bytes are not valid UTF-8 text.
    NotText,
}

impl TransportError {
    /// A fixed description of the failure, for reporting to the caller.
    pub fn message(&self) -> (m: &'static str)
        ensures
            m@ == "Generated content is not valid UTF-8"@,
    {
        "Generated content is not valid UTF-8"
    }
}

/// Relies on String::from_utf8: succeeds exactly on valid UTF-8 and decodes
/// it to its own character sequence, unchanged.
#[verifier::external_body]
fn decode_strict(bytes: Vec<u8>) -> (r: Option<String>)
    ensures
        r is Some <==> valid_utf8(bytes@),
        r matches Some(s) ==> s@ == decode_utf8(bytes@),
{
    String::from_utf8(bytes).ok()
}

/// Turns a generated document into the single string a clipboard-style
/// transport takes. Valid UTF-8 comes back as exactly its own text; anything
/// else is rejected whole, before any transfer: never a partial transport.
pub fn clipboard_text(bytes: Vec<u8>) -> (r: Result<String, TransportError>)
    ensures
        r is Ok <==> valid_utf8(bytes@),
        r matches Ok(s) ==> s@ == decode_utf8(bytes@),
        r matches Err(e) ==> e == TransportError::NotText,
{
    match decode_strict(bytes) {
        Some(s) => Ok(s),
        None => Err(TransportError::NotText),
    }
}

} // verus!
