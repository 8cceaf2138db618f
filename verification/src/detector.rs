use vstd::prelude::*;
use vstd::slice::slice_to_vec;
use vstd::string::*;

use crate::candidates::{Candidates, RawCandidate, reports_view};
use crate::error::{Error, NulError};

verus! {

/// What feeding a block of data gives back, for the detector's status code.
pub open spec fn feed_outcome(status: i32) -> Result<(), Error> {
    if status == 0 {
        Ok(())
    } else {
        Err(Error::OutOfMemory(status))
    }
}

/// Whether a failure has been recorded after one more feed, given whether
/// one had been recorded before it.
pub open spec fn after_feed(failed: bool, status: i32) -> bool {
    failed || status != 0
}

/// Whether a failure has been recorded after a run of feeds with the given
/// status codes, starting from `failed`.
pub open spec fn after_feeds(failed: bool, statuses: Seq<i32>) -> bool
    decreases statuses.len(),
{
    if statuses.len() == 0 {
        failed
    } else {
        after_feed(after_feeds(failed, statuses.drop_last()), statuses.last())
    }
}

/// `b` holds a zero byte.
pub open spec fn has_nul(b: Seq<u8>) -> bool {
    exists|i: int| 0 <= i < b.len() && b[i] == 0
}

/// `pos` is the index of the first zero byte of `b`.
pub open spec fn is_first_nul(b: Seq<u8>, pos: int) -> bool {
    &&& 0 <= pos < b.len()
    &&& b[pos] == 0
    &&& forall|j: int| 0 <= j < pos ==> b[j] != 0
}

/// The state that this library keeps for a uchardet detector: the status
/// codes of the data blocks fed to it since it was created or last reset, and
/// whether one of them was a failure.
pub struct CharsetDetector {
    external_error_occurred: bool,
    statuses: Ghost<Seq<i32>>,
}

impl View for CharsetDetector {
    type V = Seq<i32>;

    /// The status codes of the feeds since creation or the last reset.
    closed spec fn view(&self) -> Seq<i32> {
        self.statuses@
    }
}

impl Default for CharsetDetector {
    fn default() -> (d: Self)
        ensures
            d == CharsetDetector::fresh(),
            d@ == Seq::<i32>::empty(),
            !d.has_failed(),
    {
        Self::new()
    }
}

impl CharsetDetector {
    #[verifier::type_invariant]
    spec fn flag_follows_history(self) -> bool {
        self.external_error_occurred == after_feeds(false, self.statuses@)
    }

    /// A detector as `new` makes it: nothing fed, no failure recorded.
    pub closed spec fn fresh() -> CharsetDetector {
        CharsetDetector { external_error_occurred: false, statuses: Ghost(Seq::empty()) }
    }

    /// A failure of the detector has been recorded: one of the feeds since
    /// creation or the last reset failed.
    pub open spec fn has_failed(&self) -> bool {
        after_feeds(false, self@)
    }

    /// A fresh detector has nothing fed and no failure recorded.
    pub proof fn lemma_fresh()
        ensures
            CharsetDetector::fresh()@ == Seq::<i32>::empty(),
            !CharsetDetector::fresh().has_failed(),
    {
    }

    /// A fresh detector, with nothing fed and no failure recorded.
    pub fn new() -> (d: CharsetDetector)
        ensures
            d == CharsetDetector::fresh(),
            d@ == Seq::<i32>::empty(),
            !d.has_failed(),
    {
        CharsetDetector { external_error_occurred: false, statuses: Ghost(Seq::empty()) }
    }

    /// Takes the status code that the detector gave for a block of data:
    /// `0` is success; any other code is an out-of-memory failure, which is
    /// returned and recorded until the next reset.
    pub fn feed_data(&mut self, status: i32) -> (r: Result<(), Error>)
        ensures
            r == feed_outcome(status),
            final(self)@ == old(self)@.push(status),
            final(self).has_failed() == after_feed(old(self).has_failed(), status),
    {
        proof {
            use_type_invariant(&*self);
        }
        let ghost history = self.statuses@.push(status);
        assert(history.drop_last() =~= self.statuses@);
        if status == 0 {
            self.statuses = Ghost(history);
            Ok(())
        } else {
            *self = CharsetDetector { external_error_occurred: true, statuses: Ghost(history) };
            Err(Error::from_ret(status))
        }
    }

    /// Forgets everything fed so far: the detector is as a fresh one.
    pub fn reset(&mut self)
        ensures
            *final(self) == CharsetDetector::fresh(),
            final(self)@ == Seq::<i32>::empty(),
            !final(self).has_failed(),
    {
        *self = CharsetDetector::new();
    }

    /// Ends the input: the candidates are those that the detector reports
    /// once it has seen all the data, in its order (best first).
    pub fn detect(self, reports: Vec<RawCandidate>) -> (c: Candidates)
        ensures
            c.detector_state() == self,
            c.reports() == reports_view(reports@),
    {
        Candidates::from_parts(self, reports)
    }

    /// Detects in one go: a fresh detector is fed one block, whose status
    /// is `feed_status`, and on success gives the reported candidates.
    pub fn detect_data(feed_status: i32, reports: Vec<RawCandidate>) -> (r: Result<
        Candidates,
        Error,
    >)
        ensures
            r is Ok <==> feed_status == 0,
            r matches Err(e) ==> e == Error::OutOfMemory(feed_status),
            r matches Ok(c) ==> c.detector_state()@ == seq![feed_status] && !c.detector_state().has_failed()
                && c.reports() == reports_view(reports@),
    {
        let mut detector = CharsetDetector::new();
        detector.feed_data(feed_status)?;
        Ok(detector.detect(reports))
    }

    /// Checks a language name before it is weighed: it becomes a C string,
    /// so it may hold no NUL byte. On success gives the bytes to hand to the
    /// detector; otherwise the position of the first NUL byte.
    pub fn weigh_language(&self, language: &str) -> (r: Result<Vec<u8>, Error>)
        ensures
            match r {
                Ok(b) => !has_nul(language.spec_bytes()) && b@ == language.spec_bytes(),
                Err(e) => has_nul(language.spec_bytes()) && (e matches Error::InvalidLanguage(n)
                    && is_first_nul(language.spec_bytes(), n.position as int) && n.bytes@
                    == language.spec_bytes()),
            },
    {
        let bytes = language.as_bytes();
        let mut i: usize = 0;
        while i < bytes.len()
            invariant
                bytes@ == language.spec_bytes(),
                0 <= i <= bytes@.len(),
                forall|j: int| 0 <= j < i ==> bytes@[j] != 0,
            decreases bytes@.len() - i,
        {
            if bytes[i] == 0 {
                return Err(Error::InvalidLanguage(NulError { position: i, bytes: slice_to_vec(bytes) }));
            }
            i = i + 1;
        }
        Ok(slice_to_vec(bytes))
    }

    /// Whether a failure has been recorded: whether one of the feeds since
    /// creation or the last reset failed.
    pub fn external_error_occurred(&self) -> (r: bool)
        ensures
            r == self.has_failed(),
            r == exists|i: int| 0 <= i < self@.len() && #[trigger] self@[i] != 0,
    {
        proof {
            use_type_invariant(self);
            lemma_failure_is_sticky(false, self@);
        }
        self.external_error_occurred
    }
}

/// The failure flag records exactly whether any feed since the start failed:
/// after a run of feeds it is set if and only if it was set before or one of
/// the status codes was not zero.
pub proof fn lemma_failure_is_sticky(failed: bool, statuses: Seq<i32>)
    ensures
        after_feeds(failed, statuses) == (failed || exists|i: int|
            0 <= i < statuses.len() && #[trigger] statuses[i] != 0),
    decreases statuses.len(),
{
    if statuses.len() > 0 {
        let init = statuses.drop_last();
        lemma_failure_is_sticky(failed, init);
        if exists|i: int| 0 <= i < init.len() && #[trigger] init[i] != 0 {
            let i = choose|i: int| 0 <= i < init.len() && #[trigger] init[i] != 0;
            assert(statuses[i] == init[i]);
        }
        if exists|i: int| 0 <= i < statuses.len() && #[trigger] statuses[i] != 0 {
            let i = choose|i: int| 0 <= i < statuses.len() && #[trigger] statuses[i] != 0;
            if i < statuses.len() - 1 {
                assert(init[i] == statuses[i]);
            }
        }
    }
}

} // verus!
