//! What a foreign call came back with, and how the text in it is read.

use vstd::prelude::*;
use vstd::utf8::{decode_utf8, decode_utf8_encode_utf8, valid_utf8};
use crate::cstring::{
    c_string_at, has_nul, has_nul_char, lemma_c_string_at_is_c_string,
    lemma_nul_byte_iff_nul_char, read_c_string,
};

verus! {

/// The answer of one of the two hashing primitives.
///
/// Both answer with a pointer: to a NUL-terminated string inside the buffer
/// that they were given, or null. Here the pointer is a position in that buffer.
#[derive(Clone, Copy, Debug)]
pub enum Reply {
    /// A string that starts `offset` bytes into the buffer.
    Text { offset: usize },
    /// The null pointer, with the raw platform code sampled right after it.
    Null { code: i32 },
}

/// The characters that lossy decoding makes of bytes that are not valid UTF-8.
pub uninterp spec fn lossy_utf8(bytes: Seq<u8>) -> Seq<char>;

/// The text that `bytes` stand for: their UTF-8 decoding where they have one,
/// and their lossy decoding otherwise.
pub open spec fn text_of(bytes: Seq<u8>) -> Seq<char> {
    if valid_utf8(bytes) {
        decode_utf8(bytes)
    } else {
        lossy_utf8(bytes)
    }
}

/// The text of the string that starts at `offset` in `buf`, if one does.
pub open spec fn text_at(buf: Seq<u8>, offset: int) -> Option<Seq<char>> {
    match c_string_at(buf, offset) {
        Some(bytes) => Some(text_of(bytes)),
        None => None,
    }
}

/// Calls `String::from_utf8_lossy` and takes the result as an owned string.
///
/// Trusted, not proved: valid UTF-8 comes back as the string it encodes. For
/// other input the result is given a name, `lossy_utf8`, and two things are
/// claimed of it: that equal bytes decode to equal text, and that the text
/// holds the NUL character only if the bytes hold a zero byte. The second
/// rests on how the function is documented to work: each invalid sequence
/// becomes U+FFFD, everything else is decoded as it stands, and no character
/// but NUL is encoded with a zero byte.
#[verifier::external_body]
fn decode_lossy(bytes: &[u8]) -> (text: String)
    ensures
        valid_utf8(bytes@) ==> text@ == decode_utf8(bytes@),
        !valid_utf8(bytes@) ==> text@ == lossy_utf8(bytes@),
        !valid_utf8(bytes@) && !has_nul(bytes@) ==> !has_nul_char(text@),
{
    String::from_utf8_lossy(bytes).into_owned()
}

/// Copies out, as text, the string that starts at `offset` in `buf`. `None`
/// when no NUL follows `offset` in `buf`, so that no string starts there.
///
/// The text never holds the NUL character: the string ends at the first NUL
/// of the buffer, and decoding adds none.
pub fn read_text(buf: &[u8], offset: usize) -> (text: Option<String>)
    ensures
        match text {
            Some(t) => text_at(buf@, offset as int) == Some(t@),
            None => text_at(buf@, offset as int) is None,
        },
        text matches Some(t) ==> !has_nul_char(t@),
{
    match read_c_string(buf, offset) {
        Some(bytes) => {
            let text = decode_lossy(bytes.as_slice());
            proof {
                lemma_c_string_at_is_c_string(buf@, offset as int);
                if valid_utf8(bytes@) {
                    decode_utf8_encode_utf8(bytes@);
                    lemma_nul_byte_iff_nul_char(text@);
                }
            }
            Some(text)
        },
        None => None,
    }
}

} // verus!
