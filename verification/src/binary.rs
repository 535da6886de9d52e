//! Heuristic text/binary discriminator, the classifier cascade's fallback of
//! last resort: it always produces a content type.

use crate::text::{as_string_option, opt_content_type_view, opt_str_pair_view};
use vstd::prelude::*;

verus! {

/// True when the byte is one of the C0 control codes that mark a buffer as
/// binary rather than plain text (tab, LF, FF, CR and ESC stay textual).
pub open spec fn spec_is_binary_byte(b: u8) -> bool {
    b <= 0x08 || b == 0x0B || (0x0E <= b && b <= 0x1A) || (0x1C <= b && b <= 0x1F)
}

pub fn is_binary_byte(b: u8) -> (r: bool)
    ensures
        r == spec_is_binary_byte(b),
{
    b <= 0x08 || b == 0x0B || (0x0E <= b && b <= 0x1A) || (0x1C <= b && b <= 0x1F)
}

/// The buffer opens with a UTF-16 (either endianness) or UTF-8 byte-order
/// mark.
pub open spec fn starts_with_bom(data: Seq<u8>) -> bool {
    ||| data.len() >= 2 && ((data[0] == 0xFFu8 && data[1] == 0xFEu8) || (data[0] == 0xFEu8
        && data[1] == 0xFFu8))
    ||| data.len() >= 3 && data[0] == 0xEFu8 && data[1] == 0xBBu8 && data[2] == 0xBFu8
}

/// Some byte of the buffer is a binary-marking control code.
pub open spec fn has_binary_byte(data: Seq<u8>) -> bool {
    exists|i: int| 0 <= i < data.len() && spec_is_binary_byte(data[i])
}

/// What the heuristic reports: text/plain when the buffer opens with a
/// byte-order mark, else application/octet-stream exactly when a
/// binary-marking byte occurs; every buffer, the empty one included, gets
/// one of the two answers.
pub open spec fn binary_or_plaintext_classification(data: Seq<u8>) -> (Seq<char>, Seq<char>) {
    if starts_with_bom(data) {
        ("text"@, "plain"@)
    } else if has_binary_byte(data) {
        ("application"@, "octet-stream"@)
    } else {
        ("text"@, "plain"@)
    }
}

/// The heuristic never fails: whatever the buffer, its verdict is either
/// ("text","plain") or ("application","octet-stream").
pub proof fn lemma_binary_or_plaintext_total(data: Seq<u8>)
    ensures
        binary_or_plaintext_classification(data) == ("text"@, "plain"@)
            || binary_or_plaintext_classification(data) == ("application"@, "octet-stream"@),
{
}

/// The text-or-binary fallback classifier.
pub struct BinaryOrPlaintextClassifier;

impl BinaryOrPlaintextClassifier {
    /// The heuristic on borrowed content types.
    pub fn classify_impl(&self, data: &Vec<u8>) -> (r: Option<(&'static str, &'static str)>)
        ensures
            opt_str_pair_view(r) == Some(binary_or_plaintext_classification(data@)),
    {
        if (data.len() >= 2 && ((data[0] == 0xFFu8 && data[1] == 0xFEu8) || (data[0] == 0xFEu8
            && data[1] == 0xFFu8))) || (data.len() >= 3 && data[0] == 0xEFu8 && data[1] == 0xBBu8
            && data[2] == 0xBFu8) {
            return Some(("text", "plain"));
        }
        let mut i: usize = 0;
        while i < data.len()
            invariant
                !starts_with_bom(data@),
                0 <= i <= data@.len(),
                forall|t: int| 0 <= t < i ==> !spec_is_binary_byte(data@[t]),
            decreases data@.len() - i,
        {
            if is_binary_byte(data[i]) {
                assert(spec_is_binary_byte(data@[i as int]));
                return Some(("application", "octet-stream"));
            }
            i += 1;
        }
        Some(("text", "plain"))
    }

    /// The heuristic's verdict as an owned content type; always produces one.
    pub fn classify(&self, data: &Vec<u8>) -> (r: Option<(String, String)>)
        ensures
            opt_content_type_view(r) == Some(binary_or_plaintext_classification(data@)),
    {
        as_string_option(self.classify_impl(data))
    }
}

} // verus!
