//! The closed set of failures, and the translation of raw platform error codes
//! into it.

use vstd::prelude::*;

verus! {

/// Raw code that reports an invalid argument.
pub const CODE_INVALID_ARGUMENT: i32 = 22;

/// Raw code that reports a value out of range.
pub const CODE_OUT_OF_RANGE: i32 = 34;

/// Raw code that reports that no entropy source exists.
pub const CODE_NO_ENTROPY_SOURCE: i32 = 38;

/// Raw code that reports that the entropy source may not be opened.
pub const CODE_PERMISSION_DENIED: i32 = 13;

/// Raw code that reports a fault while reading the entropy source.
pub const CODE_IO_FAULT: i32 = 5;

/// Why setting generation or hashing failed.
#[derive(Debug)]
pub enum Error {
    /// An invalid argument was provided; the text says which.
    InvalidArgument(String),
    /// Input phrase is too long for the specified hashing method.
    PhraseTooLong,
    /// No random number generator is available on the platform.
    RngNotAvailable,
    /// Any other failure, with the raw platform code.
    IoError(i32),
}

/// The mathematical value of an [`Error`].
pub ghost enum ErrorView {
    InvalidArgument(Seq<char>),
    PhraseTooLong,
    RngNotAvailable,
    IoError(i32),
}

impl View for Error {
    type V = ErrorView;

    open spec fn view(&self) -> ErrorView {
        match self {
            Error::InvalidArgument(msg) => ErrorView::InvalidArgument(msg@),
            Error::PhraseTooLong => ErrorView::PhraseTooLong,
            Error::RngNotAvailable => ErrorView::RngNotAvailable,
            Error::IoError(code) => ErrorView::IoError(*code),
        }
    }
}

impl ErrorView {
    /// The text shown to a user for this failure.
    pub open spec fn message(self) -> Seq<char> {
        match self {
            ErrorView::InvalidArgument(msg) => msg,
            ErrorView::PhraseTooLong => "Input phrase is too long for specified hashing method"@,
            ErrorView::RngNotAvailable => "No random number generator is available on the platform"@,
            ErrorView::IoError(_) => "An unknown IO error occured"@,
        }
    }

    /// The raw platform code behind this failure, where it carries one.
    pub open spec fn raw_os_error(self) -> Option<i32> {
        match self {
            ErrorView::IoError(code) => Some(code),
            _ => None,
        }
    }
}

/// What a raw code means when setting generation reported failure.
pub open spec fn gensalt_failure(code: i32) -> ErrorView {
    if code == CODE_INVALID_ARGUMENT {
        ErrorView::InvalidArgument("invalid prefix, count, or random bytes"@)
    } else if code == CODE_NO_ENTROPY_SOURCE || code == CODE_PERMISSION_DENIED || code
        == CODE_IO_FAULT {
        ErrorView::RngNotAvailable
    } else {
        ErrorView::IoError(code)
    }
}

/// What a raw code means when hashing reported failure.
pub open spec fn crypt_failure(code: i32) -> ErrorView {
    if code == CODE_INVALID_ARGUMENT {
        ErrorView::InvalidArgument("invalid setting"@)
    } else if code == CODE_OUT_OF_RANGE {
        ErrorView::PhraseTooLong
    } else {
        ErrorView::IoError(code)
    }
}

impl Error {
    /// An [`Error::InvalidArgument`] that carries `msg`.
    pub fn invalid_argument(msg: &str) -> (e: Error)
        ensures
            e@ == ErrorView::InvalidArgument(msg@),
    {
        Error::InvalidArgument(msg.to_owned())
    }

    /// Translates the raw code sampled after a failed setting generation.
    pub fn from_gensalt_code(code: i32) -> (e: Error)
        ensures
            e@ == gensalt_failure(code),
    {
        if code == CODE_INVALID_ARGUMENT {
            Error::invalid_argument("invalid prefix, count, or random bytes")
        } else if code == CODE_NO_ENTROPY_SOURCE || code == CODE_PERMISSION_DENIED || code
            == CODE_IO_FAULT {
            Error::RngNotAvailable
        } else {
            Error::IoError(code)
        }
    }

    /// Translates the raw code sampled after a failed hashing.
    pub fn from_crypt_code(code: i32) -> (e: Error)
        ensures
            e@ == crypt_failure(code),
    {
        if code == CODE_INVALID_ARGUMENT {
            Error::invalid_argument("invalid setting")
        } else if code == CODE_OUT_OF_RANGE {
            Error::PhraseTooLong
        } else {
            Error::IoError(code)
        }
    }

    /// The text shown to a user for this failure.
    pub fn message(&self) -> (text: String)
        ensures
            text@ == self@.message(),
    {
        match self {
            Error::InvalidArgument(msg) => msg.clone(),
            Error::PhraseTooLong => "Input phrase is too long for specified hashing method".to_owned(),
            Error::RngNotAvailable => "No random number generator is available on the platform".to_owned(),
            Error::IoError(_) => "An unknown IO error occured".to_owned(),
        }
    }

    /// The raw platform code behind this failure, where it carries one.
    pub fn raw_os_error(&self) -> (code: Option<i32>)
        ensures
            code == self@.raw_os_error(),
    {
        match self {
            Error::IoError(code) => Some(*code),
            _ => None,
        }
    }
}

} // verus!
