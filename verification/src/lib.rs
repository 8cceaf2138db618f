//! Character-encoding detection built on the uchardet detector.
//!
//! The detector itself is a C++ engine: what it reports (the status of each
//! feed, and the table of candidates it settles on) is handed to this library
//! as plain values, and everything the library decides from those reports is
//! verified here.
mod bytes;
mod candidates;
mod detector;
pub mod encoding;
mod error;

pub use bytes::{ascii_lower, ascii_lowercase, describes_utf8_error, eq_ascii_case_insensitive, eq_ignore_ascii_case, is_truncated_scalar, is_valid_up_to, utf8_error_len};
pub use candidates::{Candidate, CandidateReport, Candidates, Iter, RawCandidate, candidate_position, encoding_outcome, iter_step, iter_walk, lemma_iter_back_only, lemma_iter_front_only, lemma_iter_walk, lemma_name_outcome, lemma_standard_outcome, name_outcome, reports_view, standard_outcome, str_outcome};
pub use detector::{CharsetDetector, after_feed, after_feeds, feed_outcome, has_nul, is_first_nul, lemma_failure_is_sticky};
pub use error::{Error, NulError, Utf8Error};

use vstd::prelude::*;

use vstd::utf8::{decode_utf8, valid_utf8};

use crate::encoding::StandardEncoding;

verus! {

/// What a one-shot detection gives as a charset name: the feed's failure,
/// else `UnrecognizableCharset` when there is no candidate, else what the
/// best candidate's name gives.
pub open spec fn detection_name_outcome(feed_status: i32, reports: Seq<CandidateReport>) -> Result<
    Seq<char>,
    Error,
> {
    if feed_status != 0 {
        Err(Error::OutOfMemory(feed_status))
    } else if reports.len() == 0 {
        Err(Error::UnrecognizableCharset)
    } else {
        name_outcome(reports[0].encoding)
    }
}

/// What a one-shot detection gives as a standard encoding, as
/// `detection_name_outcome` does for the name.
pub open spec fn detection_encoding_outcome(
    feed_status: i32,
    reports: Seq<CandidateReport>,
) -> Result<Seq<char>, Error> {
    if feed_status != 0 {
        Err(Error::OutOfMemory(feed_status))
    } else if reports.len() == 0 {
        Err(Error::UnrecognizableCharset)
    } else {
        standard_outcome(reports[0].encoding)
    }
}

/// Asking for the standard encoding fails exactly where asking for the
/// charset name fails, with the same error, or else where the name stands
/// for no standard encoding, with `NonStandardCharset`.
pub proof fn lemma_encoding_follows_name(feed_status: i32, reports: Seq<CandidateReport>)
    ensures
        match detection_name_outcome(feed_status, reports) {
            Err(e) => detection_encoding_outcome(feed_status, reports) == Err::<Seq<char>, Error>(e),
            Ok(_) => detection_encoding_outcome(feed_status, reports) is Ok
                || detection_encoding_outcome(feed_status, reports) == Err::<Seq<char>, Error>(
                Error::NonStandardCharset,
            ),
        },
{
}

/// What detecting a charset name does, over every feed status and every
/// candidate table: a failed feed gives its `OutOfMemory`; an empty table
/// gives `UnrecognizableCharset`; otherwise only the best (first) candidate
/// counts: its name, when non-empty valid UTF-8, comes back as exactly that
/// text whether or not the Encoding Standard knows it, and
/// `NonStandardCharset` never comes out.
pub proof fn lemma_detection_name(
    feed_status: i32,
    reports: Seq<CandidateReport>,
    others: Seq<CandidateReport>,
)
    ensures
        feed_status != 0 ==> detection_name_outcome(feed_status, reports) == Err::<
            Seq<char>,
            Error,
        >(Error::OutOfMemory(feed_status)),
        feed_status == 0 && reports.len() == 0 ==> detection_name_outcome(feed_status, reports)
            == Err::<Seq<char>, Error>(Error::UnrecognizableCharset),
        feed_status == 0 && reports.len() > 0 ==> {
            let raw = reports[0].encoding;
            &&& detection_name_outcome(feed_status, reports) is Ok <==> valid_utf8(raw) && raw.len()
                > 0
            &&& valid_utf8(raw) && raw.len() > 0 ==> detection_name_outcome(feed_status, reports)
                == Ok::<Seq<char>, Error>(decode_utf8(raw))
            &&& !valid_utf8(raw) ==> detection_name_outcome(feed_status, reports) == Err::<
                Seq<char>,
                Error,
            >(Error::InvalidCharset)
        },
        detection_name_outcome(feed_status, reports) != Err::<Seq<char>, Error>(
            Error::NonStandardCharset,
        ),
        reports.len() > 0 && others.len() > 0 && reports[0] == others[0] ==> detection_name_outcome(
            feed_status,
            reports,
        ) == detection_name_outcome(feed_status, others),
{
    if feed_status == 0 && reports.len() > 0 {
        lemma_name_outcome(reports[0].encoding);
    }
    if feed_status == 0 && others.len() > 0 {
        lemma_name_outcome(others[0].encoding);
    }
}

/// What detecting an encoding does, over every feed status and every
/// candidate table: a failed feed gives its `OutOfMemory`; an empty table
/// gives `UnrecognizableCharset`; otherwise only the best (first) candidate
/// counts: the result is encoding `n` exactly when that candidate's name is
/// non-empty valid UTF-8 that the mapping of charset names maps to `n`, and
/// `NonStandardCharset` when the name reads but maps to nothing.
pub proof fn lemma_detection_encoding(
    feed_status: i32,
    reports: Seq<CandidateReport>,
    others: Seq<CandidateReport>,
)
    ensures
        feed_status != 0 ==> detection_encoding_outcome(feed_status, reports) == Err::<
            Seq<char>,
            Error,
        >(Error::OutOfMemory(feed_status)),
        feed_status == 0 && reports.len() == 0 ==> detection_encoding_outcome(feed_status, reports)
            == Err::<Seq<char>, Error>(Error::UnrecognizableCharset),
        feed_status == 0 && reports.len() > 0 ==> {
            let raw = reports[0].encoding;
            &&& forall|n: Seq<char>|
                detection_encoding_outcome(feed_status, reports) == Ok::<Seq<char>, Error>(n) <==> valid_utf8(
                    raw,
                ) && raw.len() > 0 && encoding::standard_name_for(raw) == Some(n)
            &&& detection_encoding_outcome(feed_status, reports) == Err::<Seq<char>, Error>(
                Error::NonStandardCharset,
            ) <==> valid_utf8(raw) && raw.len() > 0 && encoding::standard_name_for(raw) is None
        },
        reports.len() > 0 && others.len() > 0 && reports[0] == others[0]
            ==> detection_encoding_outcome(feed_status, reports) == detection_encoding_outcome(
            feed_status,
            others,
        ),
{
    if feed_status == 0 && reports.len() > 0 {
        lemma_standard_outcome(reports[0].encoding);
    }
}

/// The text of a string result.
pub open spec fn string_outcome(r: Result<String, Error>) -> Result<Seq<char>, Error> {
    match r {
        Ok(s) => Ok(s@),
        Err(e) => Err(e),
    }
}

/// The outcome views keep a result exactly: success with its text or
/// encoding name, or failure with the same error.
pub proof fn lemma_outcome_views<'a>(
    a: Result<String, Error>,
    b: Result<&'a str, Error>,
    c: Result<StandardEncoding, Error>,
)
    ensures
        string_outcome(a) is Ok <==> a is Ok,
        a matches Ok(s) ==> string_outcome(a) == Ok::<Seq<char>, Error>(s@),
        a matches Err(e) ==> string_outcome(a) == Err::<Seq<char>, Error>(e),
        str_outcome(b) is Ok <==> b is Ok,
        b matches Ok(s) ==> str_outcome(b) == Ok::<Seq<char>, Error>(s@),
        b matches Err(e) ==> str_outcome(b) == Err::<Seq<char>, Error>(e),
        encoding_outcome(c) is Ok <==> c is Ok,
        c matches Ok(e) ==> encoding_outcome(c) == Ok::<Seq<char>, Error>(e@),
        c matches Err(e) ==> encoding_outcome(c) == Err::<Seq<char>, Error>(e),
{
}

/// The standard encoding of the best candidate of a one-shot detection,
/// whose feed gave `feed_status` and which reported `reports`.
pub fn detect_encoding(feed_status: i32, reports: Vec<RawCandidate>) -> (r: Result<
    StandardEncoding,
    Error,
>)
    ensures
        encoding_outcome(r) == detection_encoding_outcome(feed_status, reports_view(reports@)),
{
    let candidates = CharsetDetector::detect_data(feed_status, reports)?;
    let best = match candidates.best() {
        Some(c) => c,
        None => return Err(Error::UnrecognizableCharset),
    };
    best.encoding()
}

/// The charset name of the best candidate of a one-shot detection, whose
/// feed gave `feed_status` and which reported `reports`.
pub fn detect_encoding_name(feed_status: i32, reports: Vec<RawCandidate>) -> (r: Result<
    String,
    Error,
>)
    ensures
        string_outcome(r) == detection_name_outcome(feed_status, reports_view(reports@)),
{
    let candidates = CharsetDetector::detect_data(feed_status, reports)?;
    let best = match candidates.best() {
        Some(c) => c,
        None => return Err(Error::UnrecognizableCharset),
    };
    let name = best.encoding_name()?;
    Ok(name.to_owned())
}

} // verus!
