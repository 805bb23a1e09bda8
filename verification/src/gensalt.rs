//! Setting generation: compiling a string for use as the setting of a hash.
//!
//! [`gensalt_call`] checks the caller's values and lays out what the reentrant
//! generator is to be given; [`gensalt_result`] reads what it answered.

use vstd::prelude::*;
use vstd::slice::slice_to_vec;
use vstd::utf8::encode_utf8;
use crate::cstring::{
    has_nul, has_nul_char, terminated, to_c_string, lemma_nul_byte_iff_nul_char,
};
use crate::error::{Error, ErrorView, gensalt_failure};
use crate::reply::{Reply, text_at, read_text};
use crate::scratch::{ScratchBuffer, zeroed};

verus! {

/// The arguments of one call of the reentrant setting generator.
pub struct GensaltCall {
    /// The scheme prefix with its terminating NUL; `None` stands for the null
    /// pointer, which asks for the best scheme available.
    pub prefix: Option<Vec<u8>>,
    /// The cost of the hash; 0 asks for the scheme's default.
    pub count: u64,
    /// The random material to derive the salt from; `None` stands for the null
    /// pointer, which asks the generator to draw from the platform.
    pub random_bytes: Option<Vec<u8>>,
    /// The number of random bytes, as the generator takes it.
    pub nrbytes: i32,
    /// The buffer that the generator writes the setting to, all zero.
    pub output: Vec<u8>,
    /// The length of `output`, as the generator takes it.
    pub output_size: i32,
}

/// The mathematical value of a [`GensaltCall`].
pub ghost struct GensaltCallView {
    pub prefix: Option<Seq<u8>>,
    pub count: u64,
    pub random_bytes: Option<Seq<u8>>,
    pub nrbytes: i32,
    pub output: Seq<u8>,
    pub output_size: i32,
}

impl View for GensaltCall {
    type V = GensaltCallView;

    open spec fn view(&self) -> GensaltCallView {
        GensaltCallView {
            prefix: match self.prefix {
                Some(p) => Some(p@),
                None => None,
            },
            count: self.count,
            random_bytes: match self.random_bytes {
                Some(r) => Some(r@),
                None => None,
            },
            nrbytes: self.nrbytes,
            output: self.output@,
            output_size: self.output_size,
        }
    }
}

impl GensaltCallView {
    /// Every pointer that the call will pass comes with its true length: the
    /// prefix ends at its only NUL, and the two lengths are those of the random
    /// material and of the output buffer.
    pub open spec fn well_formed(self) -> bool {
        &&& self.prefix matches Some(p) ==> p.len() > 0 && p.last() == 0 && !has_nul(p.drop_last())
        &&& self.nrbytes == match self.random_bytes {
            Some(r) => r.len(),
            None => 0,
        }
        &&& self.output_size == self.output.len()
        &&& self.output == zeroed(self.output.len())
    }
}

/// The number of random bytes that a caller supplied.
pub open spec fn random_len(random_bytes: Option<Seq<u8>>) -> nat {
    match random_bytes {
        Some(r) => r.len(),
        None => 0,
    }
}

/// What [`gensalt_call`] makes of its arguments: the first complaint that
/// applies, or else the call.
pub open spec fn gensalt_call_of(
    prefix: Option<Seq<u8>>,
    count: u64,
    random_bytes: Option<Seq<u8>>,
    output_size: nat,
) -> Result<GensaltCallView, ErrorView> {
    if prefix matches Some(p) && has_nul(p) {
        Err(ErrorView::InvalidArgument("Prefix contains NULL byte"@))
    } else if random_len(random_bytes) > i32::MAX {
        Err(ErrorView::InvalidArgument("too many random bytes"@))
    } else if output_size > i32::MAX {
        Err(
            ErrorView::InvalidArgument(
                "Output buffer is too big. This is an internal error and should never occur"@,
            ),
        )
    } else {
        Ok(
            GensaltCallView {
                prefix: match prefix {
                    Some(p) => Some(terminated(p)),
                    None => None,
                },
                count,
                random_bytes,
                nrbytes: random_len(random_bytes) as i32,
                output: zeroed(output_size),
                output_size: output_size as i32,
            },
        )
    }
}

/// What [`gensalt_result`] makes of a reply: the translated failure, the text
/// that the reply points to, or a failure without a code where it points to no
/// string at all.
pub open spec fn gensalt_outcome(output: Seq<u8>, reply: Reply) -> Result<Seq<char>, ErrorView> {
    match reply {
        Reply::Null { code } => Err(gensalt_failure(code)),
        Reply::Text { offset } => match text_at(output, offset as int) {
            Some(text) => Ok(text),
            None => Err(ErrorView::IoError(0)),
        },
    }
}

/// The characters of an optional string.
pub open spec fn prefix_chars(prefix: Option<&str>) -> Option<Seq<char>> {
    match prefix {
        Some(s) => Some(s@),
        None => None,
    }
}

/// The bytes of an optional slice.
pub open spec fn random_seq(random_bytes: Option<&[u8]>) -> Option<Seq<u8>> {
    match random_bytes {
        Some(r) => Some(r@),
        None => None,
    }
}

/// Whatever the arguments, a call that is laid out is well formed.
pub proof fn lemma_gensalt_call_well_formed(
    prefix: Option<Seq<u8>>,
    count: u64,
    random_bytes: Option<Seq<u8>>,
    output_size: nat,
)
    ensures
        gensalt_call_of(prefix, count, random_bytes, output_size) matches Ok(call)
            ==> call.well_formed(),
{
    if let Ok(call) = gensalt_call_of(prefix, count, random_bytes, output_size) {
        if let Some(p) = prefix {
            assert(terminated(p).drop_last() =~= p);
        }
    }
}

/// The UTF-8 bytes of an optional sequence of characters.
pub open spec fn encoded(prefix: Option<Seq<char>>) -> Option<Seq<u8>> {
    match prefix {
        Some(p) => Some(encode_utf8(p)),
        None => None,
    }
}

/// True when a prefix is given and holds the NUL character.
pub open spec fn prefix_has_nul(prefix: Option<Seq<char>>) -> bool {
    match prefix {
        Some(p) => has_nul_char(p),
        None => false,
    }
}

/// A prefix that holds the NUL character is refused as an invalid argument
/// before anything is laid out for the generator. A call is laid out exactly
/// when the prefix holds none and both lengths fit the generator's `int`.
pub proof fn lemma_gensalt_refuses_nul(
    prefix: Option<Seq<char>>,
    count: u64,
    random_bytes: Option<Seq<u8>>,
    output_size: nat,
)
    ensures
        prefix_has_nul(prefix) ==> gensalt_call_of(
            encoded(prefix),
            count,
            random_bytes,
            output_size,
        ) == Err::<GensaltCallView, ErrorView>(
            ErrorView::InvalidArgument("Prefix contains NULL byte"@),
        ),
        gensalt_call_of(encoded(prefix), count, random_bytes, output_size) is Ok <==> (
        !prefix_has_nul(prefix) && random_len(random_bytes) <= i32::MAX && output_size
            <= i32::MAX),
        gensalt_call_of(encoded(prefix), count, random_bytes, output_size) matches Err(e)
            ==> e is InvalidArgument,
{
    if let Some(p) = prefix {
        lemma_nul_byte_iff_nul_char(p);
    }
}

/// Lays out the call that generates a setting for the scheme `prefix` at cost
/// `count`, with the salt derived from `random_bytes` where they are given.
/// `output_size` is the size of the buffer that the generator is to write to.
///
/// A prefix that holds a NUL, and random material or an output buffer whose
/// length the generator cannot take, are refused here, in this order; nothing
/// is handed to the generator then.
pub fn gensalt_call(
    prefix: Option<&str>,
    count: u64,
    random_bytes: Option<&[u8]>,
    output_size: usize,
) -> (call: Result<GensaltCall, Error>)
    ensures
        match call {
            Ok(c) => Ok::<GensaltCallView, ErrorView>(c@),
            Err(e) => Err(e@),
        } == gensalt_call_of(
            encoded(prefix_chars(prefix)),
            count,
            random_seq(random_bytes),
            output_size as nat,
        ),
        call matches Ok(c) ==> c@.well_formed(),
{
    proof {
        lemma_gensalt_call_well_formed(
            encoded(prefix_chars(prefix)),
            count,
            random_seq(random_bytes),
            output_size as nat,
        );
    }
    let c_prefix: Option<Vec<u8>> = match prefix {
        Some(s) => match to_c_string(s.as_bytes()) {
            Some(c) => Some(c),
            None => {
                return Err(Error::invalid_argument("Prefix contains NULL byte"));
            },
        },
        None => None,
    };
    let random_len: usize = match random_bytes {
        Some(r) => r.len(),
        None => 0,
    };
    if random_len > i32::MAX as usize {
        return Err(Error::invalid_argument("too many random bytes"));
    }
    if output_size > i32::MAX as usize {
        return Err(
            Error::invalid_argument(
                "Output buffer is too big. This is an internal error and should never occur",
            ),
        );
    }
    let random: Option<Vec<u8>> = match random_bytes {
        Some(r) => Some(slice_to_vec(r)),
        None => None,
    };
    let output: Vec<u8> = ScratchBuffer::acquire(output_size).into_bytes();
    Ok(
        GensaltCall {
            prefix: c_prefix,
            count,
            random_bytes: random,
            nrbytes: random_len as i32,
            output,
            output_size: output_size as i32,
        },
    )
}

/// Reads the generator's answer. `output` is the buffer that the call was
/// given, as the generator left it.
///
/// A null reply is the failure that its raw code stands for. Any other reply
/// is the setting, copied out of `output`; one that points to no terminated
/// string there is a failure without a code, never a piece of a setting. A
/// setting that comes back holds no NUL character, so it can be handed on to
/// hashing as it is.
pub fn gensalt_result(output: &[u8], reply: Reply) -> (setting: Result<String, Error>)
    ensures
        match setting {
            Ok(s) => Ok::<Seq<char>, ErrorView>(s@),
            Err(e) => Err(e@),
        } == gensalt_outcome(output@, reply),
        setting matches Ok(s) ==> !has_nul_char(s@),
{
    match reply {
        Reply::Null { code } => Err(Error::from_gensalt_code(code)),
        Reply::Text { offset } => match read_text(output, offset) {
            Some(text) => Ok(text),
            None => Err(Error::IoError(0)),
        },
    }
}

} // verus!
