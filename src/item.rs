//! The unit of work for one item: fetch its metadata, fetch its payload, store it.
use vstd::prelude::*;
use crate::model::{DownloadOutcome, FailReason, FetchFailure, FetchStep, ItemFetchError, ItemRecord};
use crate::naming::{destination, destination_of, file_name, file_name_of, item_url, item_url_of};
use crate::retry::{retry_decision_of, RetryDecision, RetryPolicy};

verus! {

/// What the caller does next for an item.
#[derive(Debug)]
pub enum ItemAction {
    /// Wait `delay_secs` seconds, then GET `url` and parse it as a metadata document.
    FetchRecord { url: String, delay_secs: u64 },
    /// Wait `delay_secs` seconds, then GET `url` and read the whole body.
    FetchPayload { url: String, delay_secs: u64 },
    /// Report whether a file exists at `path`.
    Probe { path: String },
    /// Create the file at `path` and write the payload into it.
    Write { path: String },
    /// The item is done.
    Finish(DownloadOutcome),
}

/// The report that an item's unit of work waits for.
#[derive(Clone, Copy, Debug, PartialEq, Eq, Structural)]
pub enum Awaiting {
    Record,
    Payload,
    Probe,
    Write,
    Nothing,
}

/// The decisions of one item's unit of work.
///
/// The two network steps are retried independently under the same policy.
/// Existence of the destination file alone decides that an item is skipped;
/// an existing file is never overwritten.
pub struct ItemTask {
    number: u32,
    dir: String,
    record_url: String,
    policy: RetryPolicy,
    stage: Awaiting,
    failures: u64,
    payload_url: String,
    path: String,
}

/// The outcome that a `Finish` action carries, if it is one.
pub open spec fn finished_with(a: ItemAction) -> Option<DownloadOutcome> {
    match a {
        ItemAction::Finish(o) => Some(o),
        _ => None,
    }
}

/// Whether `o` is the failure of `step` after `attempts` attempts, the last failing with `last`.
pub open spec fn is_exhausted(o: DownloadOutcome, step: FetchStep, attempts: nat, last: FetchFailure) -> bool {
    o == DownloadOutcome::Failed(
        FailReason::Fetch(ItemFetchError::Exhausted { step, attempts: attempts as u64, last }),
    )
}

impl ItemTask {
    #[verifier::type_invariant]
    closed spec fn inv(&self) -> bool {
        &&& (self.stage == Awaiting::Record || self.stage == Awaiting::Payload) ==> self.failures
            <= self.policy.max_retries
        &&& (self.stage == Awaiting::Payload || self.stage == Awaiting::Probe || self.stage
            == Awaiting::Write) ==> self.located()
    }

    /// The destination path is the one that the payload URL's file name gives.
    pub open spec fn located(&self) -> bool {
        file_name_of(self.payload_url()) matches Some(name) && self.path() == destination_of(
            self.dir(),
            self.number(),
            name,
        )
    }

    /// The item's number.
    pub closed spec fn number(&self) -> nat {
        self.number as nat
    }

    /// The output directory.
    pub closed spec fn dir(&self) -> Seq<char> {
        self.dir@
    }

    /// The URL of the item's metadata document.
    pub closed spec fn record_url(&self) -> Seq<char> {
        self.record_url@
    }

    /// The retry policy in force.
    pub closed spec fn policy(&self) -> RetryPolicy {
        self.policy
    }

    /// The report that the task waits for.
    pub closed spec fn awaiting(&self) -> Awaiting {
        self.stage
    }

    /// Failed attempts of the current network step.
    pub closed spec fn failures(&self) -> nat {
        self.failures as nat
    }

    /// The payload URL, once the metadata document has been read.
    pub closed spec fn payload_url(&self) -> Seq<char> {
        self.payload_url@
    }

    /// The destination path, once the metadata document has been read.
    pub closed spec fn path(&self) -> Seq<char> {
        self.path@
    }

    /// The unit of work for item `number` of the series under `base`, stored under `dir`.
    pub fn new(base: &str, dir: &str, number: u32, policy: RetryPolicy) -> (t: ItemTask)
        ensures
            t.number() == number,
            t.dir() == dir@,
            t.record_url() == item_url_of(base@, number as nat),
            t.policy() == policy,
            t.awaiting() == Awaiting::Record,
            t.failures() == 0,
    {
        ItemTask {
            number,
            dir: String::from_str(dir),
            record_url: item_url(base, number),
            policy,
            stage: Awaiting::Record,
            failures: 0,
            payload_url: String::new(),
            path: String::new(),
        }
    }

    /// The report that the task waits for.
    pub fn awaits(&self) -> (r: Awaiting)
        ensures
            r == self.awaiting(),
    {
        self.stage
    }

    /// The first request: the item's metadata document, without delay.
    pub fn start(&self) -> (a: ItemAction)
        ensures
            a matches ItemAction::FetchRecord { url, delay_secs } && url@ == self.record_url()
                && delay_secs == 0,
    {
        ItemAction::FetchRecord { url: self.record_url.clone(), delay_secs: 0 }
    }

    /// Takes the outcome of the metadata request.
    ///
    /// A document whose payload URL names no file fails the item at once;
    /// otherwise the payload is requested next.
    pub fn on_record(&mut self, response: Result<ItemRecord, FetchFailure>) -> (a: ItemAction)
        requires
            old(self).awaiting() == Awaiting::Record,
        ensures
            final(self).number() == old(self).number(),
            final(self).dir() == old(self).dir(),
            final(self).record_url() == old(self).record_url(),
            final(self).policy() == old(self).policy(),
            match response {
                Ok(record) => match file_name_of(record.payload_url@) {
                    None => {
                        &&& final(self).awaiting() == Awaiting::Nothing
                        &&& finished_with(a) == Some(
                            DownloadOutcome::Failed(FailReason::Fetch(ItemFetchError::NoFileName)),
                        )
                    },
                    Some(name) => {
                        &&& final(self).awaiting() == Awaiting::Payload
                        &&& final(self).failures() == 0
                        &&& final(self).payload_url() == record.payload_url@
                        &&& final(self).path() == destination_of(old(self).dir(), old(self).number(), name)
                        &&& a matches ItemAction::FetchPayload { url, delay_secs }
                        &&& url@ == record.payload_url@
                        &&& delay_secs == 0
                    },
                },
                Err(e) => {
                    &&& final(self).failures() == old(self).failures() + 1
                    &&& if retry_decision_of(old(self).policy().max_retries as nat, final(self).failures())
                        == RetryDecision::GiveUp {
                        &&& final(self).awaiting() == Awaiting::Nothing
                        &&& a matches ItemAction::Finish(o)
                        &&& is_exhausted(o, FetchStep::Metadata, final(self).failures(), e)
                    } else {
                        &&& final(self).awaiting() == Awaiting::Record
                        &&& a matches ItemAction::FetchRecord { url, delay_secs }
                        &&& url@ == old(self).record_url()
                        &&& delay_secs == old(self).policy().delay_secs
                    }
                },
            },
    {
        proof {
            use_type_invariant(&*self);
        }
        match response {
            Ok(record) => match file_name(record.payload_url.as_str()) {
                None => {
                    self.stage = Awaiting::Nothing;
                    ItemAction::Finish(DownloadOutcome::Failed(FailReason::Fetch(ItemFetchError::NoFileName)))
                },
                Some(name) => {
                    let url = record.payload_url.clone();
                    self.path = destination(self.dir.as_str(), self.number, name.as_str());
                    self.payload_url = record.payload_url;
                    self.failures = 0;
                    self.stage = Awaiting::Payload;
                    ItemAction::FetchPayload { url, delay_secs: 0 }
                },
            },
            Err(e) => {
                let failures = self.failures + 1;
                match self.policy.decide(failures) {
                    RetryDecision::GiveUp => {
                        self.stage = Awaiting::Nothing;
                        self.failures = failures;
                        ItemAction::Finish(DownloadOutcome::Failed(FailReason::Fetch(
                            ItemFetchError::Exhausted { step: FetchStep::Metadata, attempts: failures, last: e },
                        )))
                    },
                    RetryDecision::Retry => {
                        self.failures = failures;
                        ItemAction::FetchRecord {
                            url: self.record_url.clone(),
                            delay_secs: self.policy.delay_secs,
                        }
                    },
                }
            },
        }
    }

    /// Takes the outcome of the payload request; the caller keeps the bytes.
    pub fn on_payload(&mut self, response: Result<(), FetchFailure>) -> (a: ItemAction)
        requires
            old(self).awaiting() == Awaiting::Payload,
        ensures
            final(self).number() == old(self).number(),
            final(self).dir() == old(self).dir(),
            final(self).record_url() == old(self).record_url(),
            final(self).policy() == old(self).policy(),
            final(self).payload_url() == old(self).payload_url(),
            final(self).path() == old(self).path(),
            old(self).located(),
            match response {
                Ok(()) => {
                    &&& final(self).awaiting() == Awaiting::Probe
                    &&& a matches ItemAction::Probe { path }
                    &&& path@ == old(self).path()
                },
                Err(e) => {
                    &&& final(self).failures() == old(self).failures() + 1
                    &&& if retry_decision_of(old(self).policy().max_retries as nat, final(self).failures())
                        == RetryDecision::GiveUp {
                        &&& final(self).awaiting() == Awaiting::Nothing
                        &&& a matches ItemAction::Finish(o)
                        &&& is_exhausted(o, FetchStep::Payload, final(self).failures(), e)
                    } else {
                        &&& final(self).awaiting() == Awaiting::Payload
                        &&& a matches ItemAction::FetchPayload { url, delay_secs }
                        &&& url@ == old(self).payload_url()
                        &&& delay_secs == old(self).policy().delay_secs
                    }
                },
            },
    {
        proof {
            use_type_invariant(&*self);
        }
        match response {
            Ok(()) => {
                self.stage = Awaiting::Probe;
                ItemAction::Probe { path: self.path.clone() }
            },
            Err(e) => {
                let failures = self.failures + 1;
                match self.policy.decide(failures) {
                    RetryDecision::GiveUp => {
                        self.stage = Awaiting::Nothing;
                        self.failures = failures;
                        ItemAction::Finish(DownloadOutcome::Failed(FailReason::Fetch(
                            ItemFetchError::Exhausted { step: FetchStep::Payload, attempts: failures, last: e },
                        )))
                    },
                    RetryDecision::Retry => {
                        self.failures = failures;
                        ItemAction::FetchPayload {
                            url: self.payload_url.clone(),
                            delay_secs: self.policy.delay_secs,
                        }
                    },
                }
            },
        }
    }

    /// Takes whether a file already exists at the destination path.
    pub fn on_probe(&mut self, present: bool) -> (a: ItemAction)
        requires
            old(self).awaiting() == Awaiting::Probe,
        ensures
            final(self).number() == old(self).number(),
            final(self).dir() == old(self).dir(),
            final(self).policy() == old(self).policy(),
            final(self).path() == old(self).path(),
            old(self).located(),
            if present {
                &&& final(self).awaiting() == Awaiting::Nothing
                &&& a matches ItemAction::Finish(DownloadOutcome::Skipped(p))
                &&& p@ == old(self).path()
            } else {
                &&& final(self).awaiting() == Awaiting::Write
                &&& a matches ItemAction::Write { path }
                &&& path@ == old(self).path()
            },
    {
        proof {
            use_type_invariant(&*self);
        }
        if present {
            self.stage = Awaiting::Nothing;
            ItemAction::Finish(DownloadOutcome::Skipped(self.path.clone()))
        } else {
            self.stage = Awaiting::Write;
            ItemAction::Write { path: self.path.clone() }
        }
    }

    /// Takes whether the file was created and written in full.
    pub fn on_write(&mut self, written: bool) -> (a: ItemAction)
        requires
            old(self).awaiting() == Awaiting::Write,
        ensures
            final(self).number() == old(self).number(),
            final(self).path() == old(self).path(),
            final(self).awaiting() == Awaiting::Nothing,
            old(self).located(),
            if written {
                &&& a matches ItemAction::Finish(DownloadOutcome::Saved(p))
                &&& p@ == old(self).path()
            } else {
                finished_with(a) == Some(DownloadOutcome::Failed(FailReason::Storage))
            },
    {
        proof {
            use_type_invariant(&*self);
        }
        self.stage = Awaiting::Nothing;
        if written {
            ItemAction::Finish(DownloadOutcome::Saved(self.path.clone()))
        } else {
            ItemAction::Finish(DownloadOutcome::Failed(FailReason::Storage))
        }
    }
}

} // verus!
