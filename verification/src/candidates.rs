use vstd::prelude::*;
use vstd::string::*;
use vstd::utf8::*;

use crate::bytes::{describes_utf8_error, str_from_utf8, utf8_error_len};
use crate::detector::CharsetDetector;
use crate::encoding::{StandardEncoding, standard_name_for, to_standard};
use crate::error::Error;

verus! {

broadcast use vstd::utf8::group_utf8_lib;

/// What the detector reports of one candidate: the bytes of its charset
/// name, and the bytes of its language when it names one.
pub struct RawCandidate {
    pub encoding: Vec<u8>,
    pub language: Option<Vec<u8>>,
}

/// The model of a candidate report.
pub struct CandidateReport {
    pub encoding: Seq<u8>,
    pub language: Option<Seq<u8>>,
}

impl View for RawCandidate {
    type V = CandidateReport;

    open spec fn view(&self) -> CandidateReport {
        CandidateReport {
            encoding: self.encoding@,
            language: match self.language {
                Some(l) => Some(l@),
                None => None,
            },
        }
    }
}

/// The models of a list of candidate reports.
pub open spec fn reports_view(reports: Seq<RawCandidate>) -> Seq<CandidateReport> {
    reports.map_values(|r: RawCandidate| r@)
}

/// What a charset name reported as `raw` gives: its text when it is
/// non-empty UTF-8; `InvalidCharset` when it is not UTF-8;
/// `UnrecognizableCharset` when it is empty.
pub open spec fn name_outcome(raw: Seq<u8>) -> Result<Seq<char>, Error> {
    if !valid_utf8(raw) {
        Err(Error::InvalidCharset)
    } else if raw.len() == 0 {
        Err(Error::UnrecognizableCharset)
    } else {
        Ok(decode_utf8(raw))
    }
}

/// What a charset name reported as `raw` gives as a standard encoding: the
/// errors of `name_outcome`, else the name of the standard encoding that it
/// stands for, else `NonStandardCharset`.
pub open spec fn standard_outcome(raw: Seq<u8>) -> Result<Seq<char>, Error> {
    match name_outcome(raw) {
        Err(e) => Err(e),
        Ok(_) => match standard_name_for(raw) {
            Some(n) => Ok(n),
            None => Err(Error::NonStandardCharset),
        },
    }
}

/// The text of a textual result.
pub open spec fn str_outcome<'a>(r: Result<&'a str, Error>) -> Result<Seq<char>, Error> {
    match r {
        Ok(s) => Ok(s@),
        Err(e) => Err(e),
    }
}

/// The encoding name of an encoding result.
pub open spec fn encoding_outcome(r: Result<StandardEncoding, Error>) -> Result<Seq<char>, Error> {
    match r {
        Ok(e) => Ok(e@),
        Err(e) => Err(e),
    }
}

/// The result of a detection: the detector that produced it, with the
/// candidates it reported, best first.
pub struct Candidates {
    detector: CharsetDetector,
    reports: Vec<RawCandidate>,
}

impl Candidates {
    /// The reports of the candidates, best first.
    pub closed spec fn reports(&self) -> Seq<CandidateReport> {
        reports_view(self.reports@)
    }

    /// The detector that produced the candidates.
    pub closed spec fn detector_state(&self) -> CharsetDetector {
        self.detector
    }

    pub(crate) fn from_parts(detector: CharsetDetector, reports: Vec<RawCandidate>) -> (c: Candidates)
        ensures
            c.detector_state() == detector,
            c.reports() == reports_view(reports@),
    {
        Candidates { detector, reports }
    }

    /// Detects in one go, as `CharsetDetector::detect_data` does.
    pub fn detect(feed_status: i32, reports: Vec<RawCandidate>) -> (r: Result<Candidates, Error>)
        ensures
            r is Ok <==> feed_status == 0,
            r matches Err(e) ==> e == Error::OutOfMemory(feed_status),
            r matches Ok(c) ==> c.detector_state()@ == seq![feed_status] && !c.detector_state().has_failed()
                && c.reports() == reports_view(reports@),
    {
        CharsetDetector::detect_data(feed_status, reports)
    }

    /// The detector that produced the candidates.
    pub fn detector(&self) -> (d: &CharsetDetector)
        ensures
            *d == self.detector_state(),
    {
        &self.detector
    }

    /// Gives the detector back, reset for a new detection.
    pub fn reset(self) -> (d: CharsetDetector)
        ensures
            d == CharsetDetector::fresh(),
            d@ == Seq::<i32>::empty(),
            !d.has_failed(),
    {
        let mut detector = self.detector;
        detector.reset();
        detector
    }

    /// The number of candidates.
    pub fn len(&self) -> (n: usize)
        ensures
            n == self.reports().len(),
    {
        self.reports.len()
    }

    /// There is no candidate.
    pub fn is_empty(&self) -> (b: bool)
        ensures
            b == (self.reports().len() == 0),
    {
        self.reports.len() == 0
    }

    /// The candidate at `index`, if there is one.
    pub fn get<'a>(&'a self, index: usize) -> (r: Option<Candidate<'a>>)
        ensures
            r is Some <==> index < self.reports().len(),
            r matches Some(c) ==> c.parent() == self && c.position() == index,
    {
        if index < self.reports.len() {
            Some(Candidate { parent: self, index })
        } else {
            None
        }
    }

    /// The best candidate, if there is one.
    pub fn best<'a>(&'a self) -> (r: Option<Candidate<'a>>)
        ensures
            r is Some <==> self.reports().len() > 0,
            r matches Some(c) ==> c.parent() == self && c.position() == 0,
    {
        self.get(0)
    }

    /// Goes over the candidates, best first.
    pub fn iter<'a>(&'a self) -> (it: Iter<'a>)
        ensures
            it.parent() == self,
            it.front() == 0,
            it.back() == self.reports().len(),
    {
        Iter::new(self)
    }
}

/// One of the candidates of a detection.
pub struct Candidate<'a> {
    parent: &'a Candidates,
    index: usize,
}

impl<'a> Candidate<'a> {
    #[verifier::type_invariant]
    spec fn in_range(self) -> bool {
        self.index < self.parent.reports@.len()
    }

    /// The candidates that this one belongs to.
    pub closed spec fn parent(&self) -> &'a Candidates {
        self.parent
    }

    /// The position of this candidate, best first.
    pub closed spec fn position(&self) -> nat {
        self.index as nat
    }

    /// What the detector reported of this candidate.
    pub open spec fn report(&self) -> CandidateReport {
        self.parent().reports()[self.position() as int]
    }

    /// The position of this candidate, best first.
    pub fn index(&self) -> (i: usize)
        ensures
            i == self.position(),
            i < self.parent().reports().len(),
    {
        proof {
            use_type_invariant(self);
        }
        self.index
    }

    /// The standard encoding that this candidate's charset name stands for.
    pub fn encoding(&self) -> (r: Result<StandardEncoding, Error>)
        ensures
            encoding_outcome(r) == standard_outcome(self.report().encoding),
    {
        let name = self.encoding_name()?;
        match to_standard(name) {
            Some(e) => Ok(e),
            None => Err(Error::NonStandardCharset),
        }
    }

    /// The charset name of this candidate, as the detector names it.
    pub fn encoding_name(&self) -> (r: Result<&'a str, Error>)
        ensures
            str_outcome(r) == name_outcome(self.report().encoding),
            r matches Ok(s) ==> s.spec_bytes() == self.report().encoding,
    {
        proof {
            use_type_invariant(self);
        }
        let parent: &'a Candidates = self.parent;
        let report: &'a RawCandidate = &parent.reports[self.index];
        assert(self.report() == report@);
        let raw = report.encoding.as_slice();
        match str_from_utf8(raw) {
            Err(_) => Err(Error::InvalidCharset),
            Ok(s) => {
                proof {
                    encode_utf8_decode_utf8(s@);
                }
                if raw.len() == 0 {
                    Err(Error::UnrecognizableCharset)
                } else {
                    Ok(s)
                }
            },
        }
    }

    /// The language of this candidate, when the detector names one.
    pub fn language(&self) -> (r: Result<Option<&'a str>, Error>)
        ensures
            match self.report().language {
                None => r matches Ok(None),
                Some(raw) => match r {
                    Ok(Some(s)) => valid_utf8(raw) && raw.len() > 0 && s@ == decode_utf8(raw)
                        && s.spec_bytes() == raw,
                    Ok(None) => valid_utf8(raw) && raw.len() == 0,
                    Err(e) => !valid_utf8(raw) && (e matches Error::InvalidLanguageResponse(u)
                        && describes_utf8_error(raw, u) && u.error_len == utf8_error_len(raw)),
                },
            },
    {
        proof {
            use_type_invariant(self);
        }
        let parent: &'a Candidates = self.parent;
        let report: &'a RawCandidate = &parent.reports[self.index];
        assert(self.report() == report@);
        match &report.language {
            None => Ok(None),
            Some(raw) => match str_from_utf8(raw.as_slice()) {
                Err(e) => Err(Error::InvalidLanguageResponse(e)),
                Ok(s) => {
                    proof {
                        encode_utf8_decode_utf8(s@);
                    }
                    if raw.len() == 0 {
                        Ok(None)
                    } else {
                        Ok(Some(s))
                    }
                },
            },
        }
    }
}

/// The position of an optional candidate.
pub open spec fn candidate_position<'a>(r: Option<Candidate<'a>>) -> Option<nat> {
    match r {
        Some(c) => Some(c.position()),
        None => None,
    }
}

/// One step of going over the positions `front..back`, from the front or
/// from the back: the position given, if any, and the range that is left.
pub open spec fn iter_step(front: nat, back: nat, from_front: bool) -> (Option<nat>, nat, nat) {
    if front < back {
        if from_front {
            (Some(front), front + 1, back)
        } else {
            (Some((back - 1) as nat), front, (back - 1) as nat)
        }
    } else {
        (None, front, back)
    }
}

/// Going over the positions `front..back` with a run of steps, each from
/// the front (`true`) or from the back (`false`): the positions given, one
/// per step, and the range that is left.
pub open spec fn iter_walk(front: nat, back: nat, moves: Seq<bool>) -> (Seq<Option<nat>>, nat, nat)
    decreases moves.len(),
{
    if moves.len() == 0 {
        (Seq::empty(), front, back)
    } else {
        let prev = iter_walk(front, back, moves.drop_last());
        let step = iter_step(prev.1, prev.2, moves.last());
        (prev.0.push(step.0), step.1, step.2)
    }
}

/// Going over `front..back` with any mix of steps from both ends: the first
/// `back - front` steps each give a position and every later one gives none;
/// every position given lies in `front..back` and none is given twice; from
/// the front they come in increasing order, from the back in decreasing
/// order, and each one from the front lies below each one from the back. The
/// range left is what has not been given.
pub proof fn lemma_iter_walk(front: nat, back: nat, moves: Seq<bool>)
    requires
        front <= back,
    ensures
        ({
            let w = iter_walk(front, back, moves);
            &&& w.0.len() == moves.len()
            &&& front <= w.1 <= w.2 <= back
            &&& (w.1 - front) + (back - w.2) == if moves.len() <= back - front {
                moves.len() as int
            } else {
                back - front
            }
            &&& forall|i: int| 0 <= i < moves.len() ==> (#[trigger] w.0[i] is Some <==> i < back - front)
            &&& forall|i: int|
                0 <= i < moves.len() && #[trigger] w.0[i] is Some ==> {
                    &&& front <= w.0[i]->0 < back
                    &&& moves[i] ==> w.0[i]->0 < w.1
                    &&& !moves[i] ==> w.2 <= w.0[i]->0
                }
            &&& forall|i: int, j: int|
                0 <= i < j < moves.len() && #[trigger] w.0[i] is Some && #[trigger] w.0[j] is Some ==> {
                    &&& w.0[i]->0 != w.0[j]->0
                    &&& moves[i] && moves[j] ==> w.0[i]->0 < w.0[j]->0
                    &&& !moves[i] && !moves[j] ==> w.0[j]->0 < w.0[i]->0
                    &&& moves[i] && !moves[j] ==> w.0[i]->0 < w.0[j]->0
                    &&& !moves[i] && moves[j] ==> w.0[j]->0 < w.0[i]->0
                }
        }),
    decreases moves.len(),
{
    if moves.len() > 0 {
        let init = moves.drop_last();
        lemma_iter_walk(front, back, init);
        let prev = iter_walk(front, back, init);
        let w = iter_walk(front, back, moves);
        let n = init.len() as int;
        assert(forall|i: int| 0 <= i < n ==> moves[i] == init[i]);
        assert(forall|i: int| 0 <= i < n ==> w.0[i] == prev.0[i]);
        assert forall|i: int, j: int|
            0 <= i < j < moves.len() && #[trigger] w.0[i] is Some && #[trigger] w.0[j] is Some implies {
                &&& w.0[i]->0 != w.0[j]->0
                &&& moves[i] && moves[j] ==> w.0[i]->0 < w.0[j]->0
                &&& !moves[i] && !moves[j] ==> w.0[j]->0 < w.0[i]->0
                &&& moves[i] && !moves[j] ==> w.0[i]->0 < w.0[j]->0
                &&& !moves[i] && moves[j] ==> w.0[j]->0 < w.0[i]->0
            } by {
            if j < n {
                assert(prev.0[i] is Some && prev.0[j] is Some);
            } else {
                assert(prev.0[i] is Some);
            }
        }
    }
}

/// Going over `front..back` from the front only gives `front`, `front + 1`,
/// ... up to `back - 1`, then nothing.
pub proof fn lemma_iter_front_only(front: nat, back: nat, k: nat)
    requires
        front <= back,
    ensures
        iter_walk(front, back, Seq::new(k, |i: int| true)).0 == Seq::new(
            k,
            |i: int|
                if front + i < back {
                    Some((front + i) as nat)
                } else {
                    None
                },
        ),
        iter_walk(front, back, Seq::new(k, |i: int| true)).1 == if front + k <= back {
            (front + k) as nat
        } else {
            back
        },
        iter_walk(front, back, Seq::new(k, |i: int| true)).2 == back,
    decreases k,
{
    if k > 0 {
        let moves = Seq::new(k, |i: int| true);
        assert(moves.drop_last() =~= Seq::new((k - 1) as nat, |i: int| true));
        lemma_iter_front_only(front, back, (k - 1) as nat);
        assert(iter_walk(front, back, moves).0 =~= Seq::new(
            k,
            |i: int|
                if front + i < back {
                    Some((front + i) as nat)
                } else {
                    None
                },
        ));
    }
}

/// Going over `front..back` from the back only gives `back - 1`,
/// `back - 2`, ... down to `front`, then nothing.
pub proof fn lemma_iter_back_only(front: nat, back: nat, k: nat)
    requires
        front <= back,
    ensures
        iter_walk(front, back, Seq::new(k, |i: int| false)).0 == Seq::new(
            k,
            |i: int|
                if front + i < back {
                    Some((back - 1 - i) as nat)
                } else {
                    None
                },
        ),
        iter_walk(front, back, Seq::new(k, |i: int| false)).1 == front,
        iter_walk(front, back, Seq::new(k, |i: int| false)).2 == if front + k <= back {
            (back - k) as nat
        } else {
            front
        },
    decreases k,
{
    if k > 0 {
        let moves = Seq::new(k, |i: int| false);
        assert(moves.drop_last() =~= Seq::new((k - 1) as nat, |i: int| false));
        lemma_iter_back_only(front, back, (k - 1) as nat);
        assert(iter_walk(front, back, moves).0 =~= Seq::new(
            k,
            |i: int|
                if front + i < back {
                    Some((back - 1 - i) as nat)
                } else {
                    None
                },
        ));
    }
}

/// Goes over a range of candidates, from either end.
pub struct Iter<'a> {
    parent: &'a Candidates,
    start: usize,
    end: usize,
}

impl<'a> Iter<'a> {
    #[verifier::type_invariant]
    spec fn in_range(self) -> bool {
        self.start <= self.end <= self.parent.reports@.len()
    }

    /// The candidates gone over.
    pub closed spec fn parent(&self) -> &'a Candidates {
        self.parent
    }

    /// The position of the next candidate from the front.
    pub closed spec fn front(&self) -> nat {
        self.start as nat
    }

    /// One past the position of the next candidate from the back.
    pub closed spec fn back(&self) -> nat {
        self.end as nat
    }

    fn new(parent: &'a Candidates) -> (it: Iter<'a>)
        ensures
            it.parent() == parent,
            it.front() == 0,
            it.back() == parent.reports().len(),
    {
        Iter { parent, start: 0, end: parent.reports.len() }
    }

    /// The next candidate from the front.
    pub fn next(&mut self) -> (r: Option<Candidate<'a>>)
        ensures
            final(self).parent() == old(self).parent(),
            final(self).front() <= final(self).back() <= final(self).parent().reports().len(),
            iter_step(old(self).front(), old(self).back(), true) == (
                candidate_position(r),
                final(self).front(),
                final(self).back(),
            ),
            r matches Some(c) ==> c.parent() == old(self).parent(),
    {
        proof {
            use_type_invariant(&*self);
        }
        if self.start < self.end {
            let item = Candidate { parent: self.parent, index: self.start };
            self.start = self.start + 1;
            Some(item)
        } else {
            None
        }
    }

    /// The next candidate from the back.
    pub fn next_back(&mut self) -> (r: Option<Candidate<'a>>)
        ensures
            final(self).parent() == old(self).parent(),
            final(self).front() <= final(self).back() <= final(self).parent().reports().len(),
            iter_step(old(self).front(), old(self).back(), false) == (
                candidate_position(r),
                final(self).front(),
                final(self).back(),
            ),
            r matches Some(c) ==> c.parent() == old(self).parent(),
    {
        proof {
            use_type_invariant(&*self);
        }
        if self.start < self.end {
            self.end = self.end - 1;
            Some(Candidate { parent: self.parent, index: self.end })
        } else {
            None
        }
    }

    /// Lower and upper bounds on the number of candidates still to come;
    /// both are exact.
    pub fn size_hint(&self) -> (r: (usize, Option<usize>))
        ensures
            r.0 == self.back() - self.front(),
            r.1 == Some(r.0),
    {
        proof {
            use_type_invariant(self);
        }
        let len = self.end - self.start;
        (len, Some(len))
    }

    /// The number of candidates still to come.
    pub fn len(&self) -> (n: usize)
        ensures
            n == self.back() - self.front(),
    {
        proof {
            use_type_invariant(self);
        }
        self.end - self.start
    }
}

} // verus!

verus! {

/// What reading a candidate's charset name does, over every reported name:
/// it succeeds exactly on a non-empty, valid UTF-8 name, and then gives text
/// whose UTF-8 bytes are exactly the reported ones; it fails with
/// `InvalidCharset` exactly when the name is not UTF-8, and with
/// `UnrecognizableCharset` exactly when it is empty. No other error comes out.
pub proof fn lemma_name_outcome(raw: Seq<u8>)
    ensures
        name_outcome(raw) is Ok <==> valid_utf8(raw) && raw.len() > 0,
        name_outcome(raw) matches Ok(s) ==> encode_utf8(s) == raw && s == decode_utf8(raw),
        name_outcome(raw) == Err::<Seq<char>, Error>(Error::InvalidCharset) <==> !valid_utf8(raw),
        name_outcome(raw) == Err::<Seq<char>, Error>(Error::UnrecognizableCharset) <==> raw.len()
            == 0,
        name_outcome(raw) is Err ==> name_outcome(raw) == Err::<Seq<char>, Error>(
            Error::InvalidCharset,
        ) || name_outcome(raw) == Err::<Seq<char>, Error>(Error::UnrecognizableCharset),
{
    if valid_utf8(raw) && raw.len() > 0 {
        decode_utf8_encode_utf8(raw);
    }
    if raw.len() == 0 {
        assert(valid_utf8(raw));
    }
}

/// What a candidate's standard encoding is, over every reported name: it is
/// found exactly when the name is non-empty valid UTF-8 and the mapping of
/// charset names gives an encoding for it, and then it is that encoding;
/// such a name that the mapping refuses gives `NonStandardCharset`; a name
/// that cannot be read fails as reading it fails.
pub proof fn lemma_standard_outcome(raw: Seq<u8>)
    ensures
        forall|n: Seq<char>|
            standard_outcome(raw) == Ok::<Seq<char>, Error>(n) <==> valid_utf8(raw) && raw.len() > 0
                && standard_name_for(raw) == Some(n),
        standard_outcome(raw) == Err::<Seq<char>, Error>(Error::NonStandardCharset) <==> valid_utf8(
            raw,
        ) && raw.len() > 0 && standard_name_for(raw) is None,
        !valid_utf8(raw) ==> standard_outcome(raw) == Err::<Seq<char>, Error>(Error::InvalidCharset),
        raw.len() == 0 ==> standard_outcome(raw) == Err::<Seq<char>, Error>(
            Error::UnrecognizableCharset,
        ),
{
    lemma_name_outcome(raw);
}

} // verus!
