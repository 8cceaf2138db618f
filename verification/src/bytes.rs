use vstd::prelude::*;
use vstd::utf8::*;
use vstd::string::*;

use crate::error::Utf8Error;

verus! {

/// The ASCII lowercase form of a byte: `A`..=`Z` become `a`..=`z`, every
/// other byte stays as it is.
pub open spec fn ascii_lower(b: u8) -> u8 {
    if 65 <= b <= 90 {
        (b + 32) as u8
    } else {
        b
    }
}

/// A byte string with every byte in ASCII lowercase.
pub open spec fn ascii_lowercase(s: Seq<u8>) -> Seq<u8> {
    s.map_values(|b: u8| ascii_lower(b))
}

/// Two byte strings that are equal once both are put in ASCII lowercase.
pub open spec fn eq_ascii_case_insensitive(a: Seq<u8>, b: Seq<u8>) -> bool {
    ascii_lowercase(a) == ascii_lowercase(b)
}

/// `n` is the length of the longest prefix of `bytes` that is valid UTF-8.
pub open spec fn is_valid_up_to(bytes: Seq<u8>, n: int) -> bool {
    &&& partial_valid_utf8(bytes, n)
    &&& forall|j: int| n < j <= bytes.len() ==> !#[trigger] partial_valid_utf8(bytes, j)
}

/// `rest` is cut short inside the UTF-8 encoding of one scalar: it is a
/// proper, non-empty prefix of such an encoding.
pub open spec fn is_truncated_scalar(rest: Seq<u8>) -> bool {
    &&& 0 < rest.len()
    &&& exists|s: Seq<u8>|
        #![trigger valid_first_scalar(s)]
        rest.len() < s.len() && valid_first_scalar(s) && length_of_first_scalar(s) == s.len()
            && s.subrange(0, rest.len() as int) == rest
}

/// `e` is what reading `bytes` as UTF-8 fails with: `valid_up_to` is the
/// length of the longest valid prefix; `error_len` is `None` exactly when the
/// bytes after that prefix stop inside the encoding of one scalar, and
/// otherwise the positive length of an invalid sequence that fits after it.
pub open spec fn describes_utf8_error(bytes: Seq<u8>, e: Utf8Error) -> bool {
    &&& is_valid_up_to(bytes, e.valid_up_to as int)
    &&& (e.error_len is None <==> is_truncated_scalar(
        bytes.subrange(e.valid_up_to as int, bytes.len() as int),
    ))
    &&& (e.error_len matches Some(n) ==> 1 <= n && e.valid_up_to + n <= bytes.len())
}

/// The `error_len` that `std::str::from_utf8` reports when it refuses
/// `bytes`.
pub uninterp spec fn utf8_error_len(bytes: Seq<u8>) -> Option<usize>;

fn to_ascii_lower(b: u8) -> (r: u8)
    ensures
        r == ascii_lower(b),
{
    if 65 <= b && b <= 90 {
        b + 32
    } else {
        b
    }
}

/// Compares two byte strings ignoring ASCII case, as `[u8]::eq_ignore_ascii_case` does.
pub fn eq_ignore_ascii_case(a: &[u8], b: &[u8]) -> (r: bool)
    ensures
        r == eq_ascii_case_insensitive(a@, b@),
{
    if a.len() != b.len() {
        assert(ascii_lowercase(a@).len() != ascii_lowercase(b@).len());
        return false;
    }
    let mut i: usize = 0;
    while i < a.len()
        invariant
            a@.len() == b@.len(),
            0 <= i <= a@.len(),
            forall|j: int| 0 <= j < i ==> ascii_lower(#[trigger] a@[j]) == ascii_lower(b@[j]),
        decreases a@.len() - i,
    {
        if to_ascii_lower(a[i]) != to_ascii_lower(b[i]) {
            assert(ascii_lowercase(a@)[i as int] != ascii_lowercase(b@)[i as int]);
            return false;
        }
        i = i + 1;
    }
    assert(ascii_lowercase(a@) =~= ascii_lowercase(b@));
    true
}

/// Reads a byte string as UTF-8 text, with `std::str::from_utf8`.
///
/// Claimed of the outside function, as its documentation gives it: the result
/// is `Ok` exactly on valid UTF-8, and then the text has exactly the given
/// bytes; on failure `valid_up_to` is the length of the longest valid prefix,
/// `error_len` is `None` exactly when the input ends inside the encoding of a
/// character ("the end of the input was reached unexpectedly"), and a
/// `Some` length is positive and fits in what follows the prefix. The
/// `error_len` itself is the named `utf8_error_len` of the bytes.
#[verifier::external_body]
pub(crate) fn str_from_utf8<'a>(bytes: &'a [u8]) -> (r: Result<&'a str, Utf8Error>)
    ensures
        r is Ok <==> valid_utf8(bytes@),
        r matches Ok(s) ==> s.spec_bytes() == bytes@,
        r matches Err(e) ==> describes_utf8_error(bytes@, e),
        r matches Err(e) ==> e.error_len == utf8_error_len(bytes@),
{
    match std::str::from_utf8(bytes) {
        Ok(s) => Ok(s),
        Err(e) => Err(Utf8Error { valid_up_to: e.valid_up_to(), error_len: e.error_len() }),
    }
}

} // verus!
