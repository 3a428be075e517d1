//! Resolution of the series bound: the number of the latest item.
use vstd::prelude::*;
use crate::model::{BoundsResolutionError, FetchFailure, ItemRecord};
use crate::naming::{index_url, index_url_of};
use crate::retry::{retry_decision_of, RetryDecision, RetryPolicy};

verus! {

/// What the caller does next while the bound is being resolved.
#[derive(Debug)]
pub enum BoundsAction {
    /// Wait `delay_secs` seconds, then GET `url` and parse it as a metadata document.
    Request { url: String, delay_secs: u64 },
    /// Resolution is over: the bound, or the fatal error.
    Finish(Result<u32, BoundsResolutionError>),
}

/// The decisions of bound resolution, driven by the outcomes of the requests.
///
/// A parse failure counts as a failed attempt like a network failure, so the
/// next attempt fetches the document afresh.
pub struct BoundsResolver {
    policy: RetryPolicy,
    url: String,
    failures: u64,
    finished: bool,
}

impl BoundsResolver {
    #[verifier::type_invariant]
    closed spec fn inv(&self) -> bool {
        !self.finished ==> self.failures <= self.policy.max_retries
    }

    /// The retry policy in force.
    pub closed spec fn policy(&self) -> RetryPolicy {
        self.policy
    }

    /// The URL of the series-wide metadata document.
    pub closed spec fn url(&self) -> Seq<char> {
        self.url@
    }

    /// The number of attempts that have failed so far.
    pub closed spec fn failures(&self) -> nat {
        self.failures as nat
    }

    /// Whether a `Finish` action has been handed out.
    pub closed spec fn finished(&self) -> bool {
        self.finished
    }

    /// A resolver for the series under `base`; nothing has been attempted.
    pub fn new(base: &str, policy: RetryPolicy) -> (r: BoundsResolver)
        ensures
            r.policy() == policy,
            r.url() == index_url_of(base@),
            r.failures() == 0,
            !r.finished(),
    {
        BoundsResolver { policy, url: index_url(base), failures: 0, finished: false }
    }

    /// The first request: the index document, without delay.
    pub fn start(&self) -> (a: BoundsAction)
        ensures
            a matches BoundsAction::Request { url, delay_secs } && url@ == self.url() && delay_secs == 0,
    {
        BoundsAction::Request { url: self.url.clone(), delay_secs: 0 }
    }

    /// Whether the resolver still waits for the outcome of a request.
    pub fn is_finished(&self) -> (r: bool)
        ensures
            r == self.finished(),
    {
        self.finished
    }

    /// Takes the outcome of the last request: the parsed document, or why it failed.
    pub fn on_response(&mut self, response: Result<ItemRecord, FetchFailure>) -> (a: BoundsAction)
        requires
            !old(self).finished(),
        ensures
            final(self).policy() == old(self).policy(),
            final(self).url() == old(self).url(),
            match response {
                Ok(record) => {
                    &&& a matches BoundsAction::Finish(Ok(bound)) && bound == record.number
                    &&& final(self).finished()
                    &&& final(self).failures() == old(self).failures()
                },
                Err(e) => {
                    &&& final(self).failures() == old(self).failures() + 1
                    &&& if retry_decision_of(old(self).policy().max_retries as nat, final(self).failures())
                        == RetryDecision::GiveUp {
                        &&& final(self).finished()
                        &&& a matches BoundsAction::Finish(Err(err))
                        &&& err.attempts == final(self).failures()
                        &&& err.last == e
                    } else {
                        &&& !final(self).finished()
                        &&& a matches BoundsAction::Request { url, delay_secs }
                        &&& url@ == old(self).url()
                        &&& delay_secs == old(self).policy().delay_secs
                    }
                },
            },
    {
        proof {
            use_type_invariant(&*self);
        }
        match response {
            Ok(record) => {
                self.finished = true;
                BoundsAction::Finish(Ok(record.number))
            },
            Err(e) => {
                let failures = self.failures + 1;
                match self.policy.decide(failures) {
                    RetryDecision::GiveUp => {
                        self.finished = true;
                        self.failures = failures;
                        BoundsAction::Finish(Err(BoundsResolutionError { attempts: failures, last: e }))
                    },
                    RetryDecision::Retry => {
                        self.failures = failures;
                        BoundsAction::Request { url: self.url.clone(), delay_secs: self.policy.delay_secs }
                    },
                }
            },
        }
    }
}

} // verus!
