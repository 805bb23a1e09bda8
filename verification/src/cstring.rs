//! Byte strings as the C side sees them: no NUL inside, one NUL at the end.

use vstd::prelude::*;
use vstd::utf8::{encode_scalar, encode_utf8, is_scalar};

verus! {

/// True when `bytes` holds a NUL byte somewhere.
pub open spec fn has_nul(bytes: Seq<u8>) -> bool {
    exists|i: int| 0 <= i < bytes.len() && #[trigger] bytes[i] == 0
}

/// True when `chars` holds the NUL character somewhere.
pub open spec fn has_nul_char(chars: Seq<char>) -> bool {
    exists|i: int| 0 <= i < chars.len() && #[trigger] chars[i] == '\0'
}

/// `bytes` followed by the terminating NUL.
pub open spec fn terminated(bytes: Seq<u8>) -> Seq<u8> {
    bytes.push(0u8)
}

/// True when `at` is the position of the first NUL of `buf` at or after `offset`.
pub open spec fn is_first_nul(buf: Seq<u8>, offset: int, at: int) -> bool {
    &&& 0 <= offset <= at < buf.len()
    &&& buf[at] == 0
    &&& forall|j: int| offset <= j < at ==> #[trigger] buf[j] != 0
}

/// The string that starts at `offset` in `buf`: the bytes up to the first NUL,
/// without it. `None` when `buf` holds no NUL at or after `offset`.
pub open spec fn c_string_at(buf: Seq<u8>, offset: int) -> Option<Seq<u8>> {
    if exists|at: int| is_first_nul(buf, offset, at) {
        Some(buf.subrange(offset, choose|at: int| is_first_nul(buf, offset, at)))
    } else {
        None
    }
}

/// A buffer has at most one first NUL after a given offset.
pub proof fn lemma_first_nul_unique(buf: Seq<u8>, offset: int, a: int, b: int)
    requires
        is_first_nul(buf, offset, a),
        is_first_nul(buf, offset, b),
    ensures
        a == b,
{
    if a < b {
        assert(buf[a] != 0);
    } else if b < a {
        assert(buf[b] != 0);
    }
}

/// Once the first NUL is known, so is the string in front of it.
pub proof fn lemma_c_string_at_first_nul(buf: Seq<u8>, offset: int, at: int)
    requires
        is_first_nul(buf, offset, at),
    ensures
        c_string_at(buf, offset) == Some(buf.subrange(offset, at)),
{
    let chosen = choose|n: int| is_first_nul(buf, offset, n);
    lemma_first_nul_unique(buf, offset, at, chosen);
}

/// A string read out of a buffer holds no NUL, and is followed by one there.
pub proof fn lemma_c_string_at_is_c_string(buf: Seq<u8>, offset: int)
    requires
        c_string_at(buf, offset) is Some,
    ensures
        !has_nul(c_string_at(buf, offset)->0),
        0 <= offset,
        offset + c_string_at(buf, offset)->0.len() < buf.len(),
        buf[offset + c_string_at(buf, offset)->0.len()] == 0,
{
    let at = choose|n: int| is_first_nul(buf, offset, n);
    let text = buf.subrange(offset, at);
    assert forall|i: int| 0 <= i < text.len() implies #[trigger] text[i] != 0 by {
        assert(text[i] == buf[offset + i]);
    }
}

/// Reading back a terminated string gives the string: what `to_c_string`
/// writes, `read_c_string` reads.
pub proof fn lemma_read_back_terminated(bytes: Seq<u8>)
    requires
        !has_nul(bytes),
    ensures
        c_string_at(terminated(bytes), 0) == Some(bytes),
{
    let buf = terminated(bytes);
    assert forall|j: int| 0 <= j < bytes.len() implies #[trigger] buf[j] != 0 by {
        assert(buf[j] == bytes[j]);
    }
    assert(is_first_nul(buf, 0, bytes.len() as int));
    lemma_c_string_at_first_nul(buf, 0, bytes.len() as int);
    assert(buf.subrange(0, bytes.len() as int) =~= bytes);
}

/// A NUL in one of two parts is a NUL in the whole, and the other way round.
pub proof fn lemma_has_nul_concat(a: Seq<u8>, b: Seq<u8>)
    ensures
        has_nul(a + b) <==> has_nul(a) || has_nul(b),
{
    let whole = a + b;
    if has_nul(a) {
        let i = choose|i: int| 0 <= i < a.len() && #[trigger] a[i] == 0;
        assert(whole[i] == 0);
    }
    if has_nul(b) {
        let i = choose|i: int| 0 <= i < b.len() && #[trigger] b[i] == 0;
        assert(whole[a.len() + i] == 0);
    }
    if has_nul(whole) {
        let i = choose|i: int| 0 <= i < whole.len() && #[trigger] whole[i] == 0;
        if i < a.len() {
            assert(a[i] == 0);
        } else {
            assert(b[i - a.len()] == 0);
        }
    }
}

/// The UTF-8 encoding of a scalar holds a NUL byte only for the scalar 0.
pub proof fn lemma_encode_scalar_nul(scalar: u32)
    requires
        is_scalar(scalar),
    ensures
        has_nul(encode_scalar(scalar)) <==> scalar == 0,
{
    let bytes = encode_scalar(scalar);
    assert(scalar <= 0x7F ==> ((scalar & 0x7F) as u8 == 0 <==> scalar == 0)) by (bit_vector);
    assert((0xC0u8 | ((scalar >> 6) & 0x1F) as u8) != 0) by (bit_vector);
    assert((0xE0u8 | ((scalar >> 12) & 0x0F) as u8) != 0) by (bit_vector);
    assert((0xF0u8 | ((scalar >> 18) & 0x7) as u8) != 0) by (bit_vector);
    assert((0x80u8 | (scalar & 0x3F) as u8) != 0) by (bit_vector);
    assert((0x80u8 | ((scalar >> 6) & 0x3F) as u8) != 0) by (bit_vector);
    assert((0x80u8 | ((scalar >> 12) & 0x3F) as u8) != 0) by (bit_vector);
    if scalar == 0 {
        assert(bytes[0] == 0);
    }
    if has_nul(bytes) {
        let i = choose|i: int| 0 <= i < bytes.len() && #[trigger] bytes[i] == 0;
        assert(bytes[i] == 0);
    }
}

/// A string holds the NUL character exactly when its UTF-8 bytes hold a NUL:
/// no other character has a zero byte in its encoding.
pub proof fn lemma_nul_byte_iff_nul_char(chars: Seq<char>)
    ensures
        has_nul(encode_utf8(chars)) <==> has_nul_char(chars),
    decreases chars.len(),
{
    if chars.len() > 0 {
        let rest = chars.drop_first();
        lemma_nul_byte_iff_nul_char(rest);
        vstd::utf8::char_is_scalar(chars[0]);
        lemma_encode_scalar_nul(chars[0] as u32);
        lemma_has_nul_concat(encode_scalar(chars[0] as u32), encode_utf8(rest));
        assert((chars[0] as u32 == 0) <==> chars[0] == '\0') by {
            vstd::utf8::char_u32_cast(chars[0], chars[0] as u32);
            vstd::utf8::char_u32_cast('\0', 0u32);
        }
        if has_nul_char(rest) {
            let i = choose|i: int| 0 <= i < rest.len() && #[trigger] rest[i] == '\0';
            assert(chars[i + 1] == '\0');
        }
        if has_nul_char(chars) {
            let i = choose|i: int| 0 <= i < chars.len() && #[trigger] chars[i] == '\0';
            if i > 0 {
                assert(rest[i - 1] == '\0');
            }
        }
    }
}

/// The position of the first NUL of `bytes` at or after `from`.
pub fn find_nul(bytes: &[u8], from: usize) -> (found: Option<usize>)
    ensures
        match found {
            Some(at) => is_first_nul(bytes@, from as int, at as int),
            None => forall|j: int| from <= j < bytes@.len() ==> #[trigger] bytes@[j] != 0,
        },
{
    let mut i: usize = from;
    while i < bytes.len()
        invariant
            from <= i,
            forall|j: int| from <= j < i && j < bytes@.len() ==> #[trigger] bytes@[j] != 0,
        decreases bytes.len() - i,
    {
        if bytes[i] == 0 {
            return Some(i);
        }
        i += 1;
    }
    None
}

/// Tells whether `bytes` holds a NUL byte.
pub fn contains_nul(bytes: &[u8]) -> (found: bool)
    ensures
        found == has_nul(bytes@),
{
    find_nul(bytes, 0).is_some()
}

/// The C form of `bytes`: a copy with the terminating NUL, or `None` when
/// `bytes` holds a NUL itself and so cannot cross the boundary whole.
pub fn to_c_string(bytes: &[u8]) -> (c_string: Option<Vec<u8>>)
    ensures
        has_nul(bytes@) <==> c_string is None,
        c_string matches Some(c) ==> c@ == terminated(bytes@),
{
    if contains_nul(bytes) {
        return None;
    }
    let mut c: Vec<u8> = Vec::new();
    let mut i: usize = 0;
    while i < bytes.len()
        invariant
            i <= bytes@.len(),
            c@ == bytes@.subrange(0, i as int),
        decreases bytes.len() - i,
    {
        c.push(bytes[i]);
        i += 1;
        assert(c@ =~= bytes@.subrange(0, i as int));
    }
    assert(bytes@.subrange(0, i as int) =~= bytes@);
    c.push(0);
    Some(c)
}

/// Copies out the string that starts at `offset` in `buf`.
pub fn read_c_string(buf: &[u8], offset: usize) -> (text: Option<Vec<u8>>)
    ensures
        match text {
            Some(t) => c_string_at(buf@, offset as int) == Some(t@),
            None => c_string_at(buf@, offset as int) is None,
        },
{
    match find_nul(buf, offset) {
        Some(at) => {
            proof {
                lemma_c_string_at_first_nul(buf@, offset as int, at as int);
            }
            let mut t: Vec<u8> = Vec::new();
            let mut i: usize = offset;
            while i < at
                invariant
                    offset <= i <= at < buf@.len(),
                    t@ == buf@.subrange(offset as int, i as int),
                decreases at - i,
            {
                t.push(buf[i]);
                i += 1;
                assert(t@ =~= buf@.subrange(offset as int, i as int));
            }
            Some(t)
        },
        None => {
            assert forall|at: int| !is_first_nul(buf@, offset as int, at) by {
                if 0 <= offset <= at < buf@.len() {
                    assert(buf@[at] != 0);
                }
            }
            None
        },
    }
}

} // verus!
