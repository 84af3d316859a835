//! Best-effort rendering of bytes as text.

use vstd::prelude::*;
use vstd::utf8::*;

verus! {

/// The text that lossy decoding gives for bytes that are not valid UTF-8.
///
/// This stands for what `String::from_utf8_lossy` returns on such bytes:
/// the valid stretches decoded, each malformed one replaced by U+FFFD.
pub uninterp spec fn lossy_replacement(bytes: Seq<u8>) -> Seq<char>;

/// The text that `bytes` are shown as: their decoding where they are valid
/// UTF-8, and the lossy replacement text where they are not.
pub open spec fn rendered(bytes: Seq<u8>) -> Seq<char> {
    if valid_utf8(bytes) {
        decode_utf8(bytes)
    } else {
        lossy_replacement(bytes)
    }
}

/// Decodes `bytes` as UTF-8, replacing what is malformed.
///
/// Calls `String::from_utf8_lossy` and takes the result as an owned string.
/// Nothing of this is proved. It is assumed that valid UTF-8 comes back as
/// the text it encodes, as the documentation of that function says, and
/// that on other bytes its result depends on the bytes alone.
#[verifier::external_body]
pub(crate) fn decode_lossy(bytes: &[u8]) -> (text: String)
    ensures
        valid_utf8(bytes@) ==> text@ == decode_utf8(bytes@),
        !valid_utf8(bytes@) ==> text@ == lossy_replacement(bytes@),
{
    String::from_utf8_lossy(bytes).into_owned()
}

/// Text that was encoded as UTF-8 is rendered as itself.
pub proof fn lemma_rendered_encoding(text: Seq<char>)
    ensures
        rendered(encode_utf8(text)) == text,
{
    encode_utf8_valid_utf8(text);
    encode_utf8_decode_utf8(text);
}

} // verus!
