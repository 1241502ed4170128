//! Comparing and assembling text.

use vstd::prelude::*;
use vstd::string::*;
use vstd::utf8::*;

verus! {

/// Whether two string slices hold the same characters.
pub fn same_text(a: &str, b: &str) -> (same: bool)
    ensures
        same == (a@ == b@),
{
    let x = a.as_bytes();
    let y = b.as_bytes();
    proof {
        encode_utf8_decode_utf8(a@);
        encode_utf8_decode_utf8(b@);
    }
    if x.len() != y.len() {
        return false;
    }
    let mut i: usize = 0;
    while i < x.len()
        invariant
            i <= x.len(),
            x@.len() == y@.len(),
            x@ == encode_utf8(a@),
            y@ == encode_utf8(b@),
            forall|j: int| 0 <= j < i ==> x@[j] == y@[j],
        decreases x.len() - i,
    {
        if x[i] != y[i] {
            return false;
        }
        i += 1;
    }
    assert(x@ =~= y@);
    true
}

/// The text that `String::from_utf8_lossy` makes of bytes that are not valid
/// UTF-8, with U+FFFD in place of what it cannot decode.
pub uninterp spec fn lossy_utf8(bytes: Seq<u8>) -> Seq<char>;

/// The text that `bytes` stand for: their characters where they are valid
/// UTF-8, else what lossy decoding makes of them.
pub open spec fn decoded_text(bytes: Seq<u8>) -> Seq<char> {
    if valid_utf8(bytes) {
        decode_utf8(bytes)
    } else {
        lossy_utf8(bytes)
    }
}

/// Decodes `bytes` with `String::from_utf8_lossy` of std, which keeps valid
/// UTF-8 as it is.
#[verifier::external_body]
pub(crate) fn utf8_lossy(bytes: &[u8]) -> (text: String)
    ensures
        text@ == (if valid_utf8(bytes@) {
            decode_utf8(bytes@)
        } else {
            lossy_utf8(bytes@)
        }),
{
    String::from_utf8_lossy(bytes).into_owned()
}

/// Text survives the way through its bytes.
pub proof fn lemma_decoded_text_of_encoding(text: Seq<char>)
    ensures
        decoded_text(encode_utf8(text)) == text,
{
    encode_utf8_valid_utf8(text);
    encode_utf8_decode_utf8(text);
}

/// The lower-case form that `str::to_lowercase` gives to a text.
pub uninterp spec fn lowercase(text: Seq<char>) -> Seq<char>;

/// Lowers the case of `text` with `str::to_lowercase` of std.
#[verifier::external_body]
pub(crate) fn to_lowercase(text: &str) -> (lowered: String)
    ensures
        lowered@ == lowercase(text@),
{
    text.to_lowercase()
}

/// The characters of a freshly drawn identifier: 36 of them, all ASCII.
pub open spec fn is_fresh_identifier(text: Seq<char>) -> bool {
    text.len() == 36 && is_ascii_chars(text)
}

/// Draws a random identifier with `Uuid::new_v4` of crate uuid and writes it
/// in the hyphenated form, which is 36 ASCII characters long. Nothing more is
/// claimed of it.
#[verifier::external_body]
pub(crate) fn fresh_identifier() -> (text: String)
    ensures
        is_fresh_identifier(text@),
{
    uuid::Uuid::new_v4().to_string()
}

/// `head` followed by `tail`.
pub fn join(head: &str, tail: &str) -> (text: String)
    ensures
        text@ == head@ + tail@,
{
    head.to_string().concat(tail)
}

} // verus!
