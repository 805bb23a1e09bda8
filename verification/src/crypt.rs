//! Hashing a phrase under a setting.
//!
//! [`crypt_call`] checks the caller's values and lays out what the reentrant
//! hashing primitive is to be given, with a scratch buffer of its own;
//! [`crypt_result`] reads what the primitive answered.

use vstd::prelude::*;
use vstd::utf8::encode_utf8;
use crate::cstring::{
    has_nul, has_nul_char, terminated, to_c_string, lemma_nul_byte_iff_nul_char,
};
use crate::error::{Error, ErrorView, crypt_failure};
use crate::reply::{Reply, text_at, read_text};
use crate::scratch::{ScratchBuffer, zeroed};

verus! {

/// The arguments of one call of the reentrant hashing primitive.
pub struct CryptCall {
    /// The phrase with its terminating NUL.
    pub phrase: Vec<u8>,
    /// The setting with its terminating NUL.
    pub setting: Vec<u8>,
    /// The workspace of this call and of no other, all zero.
    pub scratch: ScratchBuffer,
}

/// The mathematical value of a [`CryptCall`].
pub ghost struct CryptCallView {
    pub phrase: Seq<u8>,
    pub setting: Seq<u8>,
    pub scratch: Seq<u8>,
}

impl View for CryptCall {
    type V = CryptCallView;

    open spec fn view(&self) -> CryptCallView {
        CryptCallView {
            phrase: self.phrase@,
            setting: self.setting@,
            scratch: self.scratch@,
        }
    }
}

impl CryptCallView {
    /// Both strings end at their only NUL, and the workspace is all zero.
    pub open spec fn well_formed(self) -> bool {
        &&& self.phrase.len() > 0
        &&& self.phrase.last() == 0
        &&& !has_nul(self.phrase.drop_last())
        &&& self.setting.len() > 0
        &&& self.setting.last() == 0
        &&& !has_nul(self.setting.drop_last())
        &&& self.scratch == zeroed(self.scratch.len())
    }
}

/// What [`crypt_call`] makes of its arguments: the first complaint that
/// applies, or else the call.
pub open spec fn crypt_call_of(phrase: Seq<u8>, setting: Seq<u8>, scratch_size: nat) -> Result<
    CryptCallView,
    ErrorView,
> {
    if has_nul(phrase) {
        Err(ErrorView::InvalidArgument("Phrase contains NULL byte"@))
    } else if has_nul(setting) {
        Err(ErrorView::InvalidArgument("Setting contains NULL byte"@))
    } else {
        Ok(
            CryptCallView {
                phrase: terminated(phrase),
                setting: terminated(setting),
                scratch: zeroed(scratch_size),
            },
        )
    }
}

/// What [`crypt_result`] makes of a reply: the translated failure, the text
/// that the reply points to, or a failure without a code where it points to no
/// string at all.
pub open spec fn crypt_outcome(scratch: Seq<u8>, reply: Reply) -> Result<Seq<char>, ErrorView> {
    match reply {
        Reply::Null { code } => Err(crypt_failure(code)),
        Reply::Text { offset } => match text_at(scratch, offset as int) {
            Some(text) => Ok(text),
            None => Err(ErrorView::IoError(0)),
        },
    }
}

/// Whatever the arguments, a call that is laid out is well formed.
pub proof fn lemma_crypt_call_well_formed(phrase: Seq<u8>, setting: Seq<u8>, scratch_size: nat)
    ensures
        crypt_call_of(phrase, setting, scratch_size) matches Ok(call) ==> call.well_formed(),
{
    assert(terminated(phrase).drop_last() =~= phrase);
    assert(terminated(setting).drop_last() =~= setting);
}

/// A phrase or a setting that holds the NUL character is refused as an invalid
/// argument before anything is laid out for the primitive, and nothing else is
/// refused: every other pair of strings gets its call.
pub proof fn lemma_crypt_refuses_exactly_nul(
    phrase: Seq<char>,
    setting: Seq<char>,
    scratch_size: nat,
)
    ensures
        crypt_call_of(encode_utf8(phrase), encode_utf8(setting), scratch_size) is Err
            <==> has_nul_char(phrase) || has_nul_char(setting),
        crypt_call_of(encode_utf8(phrase), encode_utf8(setting), scratch_size) matches Err(e)
            ==> e is InvalidArgument,
{
    lemma_nul_byte_iff_nul_char(phrase);
    lemma_nul_byte_iff_nul_char(setting);
}

/// A setting without the NUL character is never refused: the one complaint
/// left is about the phrase. Every setting that `gensalt_result` returns, and
/// every hash that `crypt_result` returns, is such a setting.
pub proof fn lemma_nul_free_setting_is_laid_out(
    phrase: Seq<char>,
    setting: Seq<char>,
    scratch_size: nat,
)
    requires
        !has_nul_char(setting),
    ensures
        crypt_call_of(encode_utf8(phrase), encode_utf8(setting), scratch_size) is Ok
            <==> !has_nul_char(phrase),
        crypt_call_of(encode_utf8(phrase), encode_utf8(setting), scratch_size) matches Err(e)
            ==> e == ErrorView::InvalidArgument("Phrase contains NULL byte"@),
{
    lemma_nul_byte_iff_nul_char(phrase);
    lemma_nul_byte_iff_nul_char(setting);
}

/// Lays out the call that hashes `phrase` under `setting`. `scratch_size` is
/// the size of the workspace that the primitive asks for.
///
/// A phrase or a setting that holds a NUL is refused here, the phrase first;
/// nothing is handed to the primitive then, and no workspace is allocated.
pub fn crypt_call(phrase: &str, setting: &str, scratch_size: usize) -> (call: Result<
    CryptCall,
    Error,
>)
    ensures
        match call {
            Ok(c) => Ok::<CryptCallView, ErrorView>(c@),
            Err(e) => Err(e@),
        } == crypt_call_of(encode_utf8(phrase@), encode_utf8(setting@), scratch_size as nat),
        call matches Ok(c) ==> c@.well_formed(),
{
    proof {
        lemma_crypt_call_well_formed(
            encode_utf8(phrase@),
            encode_utf8(setting@),
            scratch_size as nat,
        );
    }
    let c_phrase: Vec<u8> = match to_c_string(phrase.as_bytes()) {
        Some(c) => c,
        None => {
            return Err(Error::invalid_argument("Phrase contains NULL byte"));
        },
    };
    let c_setting: Vec<u8> = match to_c_string(setting.as_bytes()) {
        Some(c) => c,
        None => {
            return Err(Error::invalid_argument("Setting contains NULL byte"));
        },
    };
    let scratch = ScratchBuffer::acquire(scratch_size);
    Ok(CryptCall { phrase: c_phrase, setting: c_setting, scratch })
}

/// Reads the primitive's answer. `scratch` is the workspace that the call
/// was given, as the primitive left it: the hash lies inside it, and is copied
/// out here, before the workspace goes.
///
/// A null reply is the failure that its raw code stands for. Any other reply
/// is the hash; one that points to no terminated string in `scratch` is a
/// failure without a code, never a piece of a hash. A hash that comes back
/// holds no NUL character, so it can serve as a setting in turn.
pub fn crypt_result(scratch: &[u8], reply: Reply) -> (hashed: Result<String, Error>)
    ensures
        match hashed {
            Ok(s) => Ok::<Seq<char>, ErrorView>(s@),
            Err(e) => Err(e@),
        } == crypt_outcome(scratch@, reply),
        hashed matches Ok(s) ==> !has_nul_char(s@),
{
    match reply {
        Reply::Null { code } => Err(Error::from_crypt_code(code)),
        Reply::Text { offset } => match read_text(scratch, offset) {
            Some(text) => Ok(text),
            None => Err(Error::IoError(0)),
        },
    }
}

} // verus!
