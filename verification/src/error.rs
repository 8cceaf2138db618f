use vstd::prelude::*;

verus! {

/// The position of an interior NUL byte that made a string unusable as a C
/// string, together with the bytes of that string.
#[derive(Debug, Clone, PartialEq, Eq)]
pub struct NulError {
    pub position: usize,
    pub bytes: Vec<u8>,
}

/// Why a byte string is not UTF-8: the length of its longest valid prefix,
/// and the length of the invalid sequence that follows it (`None` when the
/// input ended in the middle of a character).
#[derive(Debug, Clone, Copy, PartialEq, Eq)]
pub struct Utf8Error {
    pub valid_up_to: usize,
    pub error_len: Option<usize>,
}

/// Everything that can go wrong while detecting an encoding.
#[derive(Debug, Clone, PartialEq, Eq)]
pub enum Error {
    /// The detector could not determine the character encoding.
    UnrecognizableCharset,
    /// The detector produced a charset name that is not UTF-8.
    InvalidCharset,
    /// The charset name is not one that the Encoding Standard supports.
    NonStandardCharset,
    /// The detector ran out of memory; the payload is its status code.
    OutOfMemory(i32),
    /// A language name held an interior NUL byte.
    InvalidLanguage(NulError),
    /// The detector reported a language name that is not UTF-8.
    InvalidLanguageResponse(Utf8Error),
}

impl Error {
    /// The error for a non-zero status code of the detector.
    pub(crate) fn from_ret(ret: i32) -> (e: Error)
        requires
            ret != 0,
        ensures
            e == Error::OutOfMemory(ret),
    {
        Error::OutOfMemory(ret)
    }
}

} // verus!
