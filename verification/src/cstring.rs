//! Byte strings as the C interface of SQLite takes them.

use vstd::prelude::*;
#[allow(unused_imports)]
use vstd::utf8::{decode_utf8, encode_utf8, valid_utf8};

verus! {

/// The text that `String::from_utf8_lossy` makes of bytes that need not be UTF-8.
pub uninterp spec fn lossy_text(bytes: Seq<u8>) -> Seq<char>;

/// Calls [`String::from_utf8_lossy`].
///
/// The result is a function of the bytes alone. Bytes that are UTF-8 are kept: the result is the
/// text they encode. How other bytes are replaced is not stated.
#[verifier::external_body]
pub(crate) fn from_utf8_lossy(bytes: &[u8]) -> (text: String)
    ensures
        text@ == lossy_text(bytes@),
        valid_utf8(bytes@) ==> text@ == decode_utf8(bytes@),
{
    String::from_utf8_lossy(bytes).into_owned()
}

/// The text that shows `bytes` in a message: what they encode where they are UTF-8.
pub open spec fn displayed_text(bytes: Seq<u8>) -> Seq<char> {
    if valid_utf8(bytes) {
        decode_utf8(bytes)
    } else {
        lossy_text(bytes)
    }
}

/// A string of bytes that a NUL can end: none of them is NUL.
#[derive(Debug)]
pub struct CString {
    bytes: Vec<u8>,
}

impl View for CString {
    type V = Seq<u8>;

    closed spec fn view(&self) -> Seq<u8> {
        self.bytes@
    }
}

impl CString {
    #[verifier::type_invariant]
    spec fn has_no_nul(self) -> bool {
        !self.bytes@.contains(0u8)
    }

    /// The string of these bytes, unless one of them is NUL.
    pub fn new(bytes: Vec<u8>) -> (string: Option<CString>)
        ensures
            string is Some <==> !bytes@.contains(0u8),
            string matches Some(string) ==> string@ == bytes@,
    {
        let mut i: usize = 0;
        while i < bytes.len()
            invariant
                i <= bytes@.len(),
                forall|j: int| 0 <= j < i ==> bytes@[j] != 0u8,
            decreases bytes@.len() - i,
        {
            if bytes[i] == 0 {
                return None;
            }
            i += 1;
        }
        Some(CString { bytes })
    }

    /// The bytes without the NUL that ends them.
    pub fn to_bytes(&self) -> (bytes: &[u8])
        ensures
            bytes@ == self@,
            !bytes@.contains(0u8),
    {
        proof {
            use_type_invariant(self);
        }
        self.bytes.as_slice()
    }

    /// The bytes and the NUL that ends them.
    pub fn to_bytes_with_nul(&self) -> (bytes: Vec<u8>)
        ensures
            bytes@ == self@.push(0u8),
            !self@.contains(0u8),
    {
        proof {
            use_type_invariant(self);
        }
        let mut bytes: Vec<u8> = self.bytes.clone();
        bytes.push(0);
        bytes
    }
}

/// The bytes of a text are shown as that text, and bytes that encode none as `from_utf8_lossy` makes
/// of them.
pub proof fn texts_are_shown_as_they_are(text: Seq<char>, bytes: Seq<u8>)
    ensures
        displayed_text(encode_utf8(text)) == text,
        valid_utf8(bytes) ==> encode_utf8(displayed_text(bytes)) == bytes,
        !valid_utf8(bytes) ==> displayed_text(bytes) == lossy_text(bytes),
{
    vstd::utf8::encode_utf8_valid_utf8(text);
    vstd::utf8::encode_utf8_decode_utf8(text);
    if valid_utf8(bytes) {
        vstd::utf8::decode_utf8_encode_utf8(bytes);
    }
}

} // verus!
