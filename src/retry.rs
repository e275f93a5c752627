//! The retry rule shared by every resolution: the first request of a
//! resolution is retried once when it fails; later requests are not.
use vstd::prelude::*;

verus! {

/// Where the retry of a resolution's first request stands.
pub struct FirstRequestRetry {
    answered: bool,
    retried: bool,
}

impl FirstRequestRetry {
    /// Whether a failure now would be retried: no answer has arrived yet
    /// and the retry has not been spent.
    pub closed spec fn may_retry(&self) -> bool {
        !self.answered && !self.retried
    }

    pub fn new() -> (r: Self)
        ensures
            r.may_retry(),
    {
        FirstRequestRetry { answered: false, retried: false }
    }

    /// Records a failed request; returns whether to send it again.
    pub fn on_failure(&mut self) -> (r: bool)
        ensures
            r == old(self).may_retry(),
            !final(self).may_retry(),
    {
        if !self.answered && !self.retried {
            self.retried = true;
            true
        } else {
            false
        }
    }

    /// Records an answer: from now on failures are not retried.
    pub fn on_answer(&mut self)
        ensures
            !final(self).may_retry(),
    {
        self.answered = true;
    }
}

} // verus!
