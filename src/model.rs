//! The values that flow through the pipeline.
use vstd::prelude::*;

verus! {

/// The metadata document of one item of the series.
pub struct ItemRecord {
    /// Display name; may be empty.
    pub title: String,
    /// Secondary text; may be empty.
    pub alt: String,
    /// Absolute URL of the item's binary payload.
    pub payload_url: String,
    /// The item's ordinal in the series.
    pub number: u32,
}

/// Why one network operation (a request together with reading its body) failed.
#[derive(Clone, Copy, Debug, PartialEq, Eq, Structural)]
pub enum FetchFailure {
    /// The connection or the transfer failed.
    Network,
    /// The body does not have the shape of a metadata document.
    Parse,
}

/// The network step of an item that ran out of attempts.
#[derive(Clone, Copy, Debug, PartialEq, Eq, Structural)]
pub enum FetchStep {
    Metadata,
    Payload,
}

/// The series bound could not be determined: fatal to the whole run.
#[derive(Clone, Copy, Debug, PartialEq, Eq, Structural)]
pub struct BoundsResolutionError {
    /// How many attempts were made in all.
    pub attempts: u64,
    /// The failure of the last attempt.
    pub last: FetchFailure,
}

/// Why one item could not be fetched.
#[derive(Clone, Copy, Debug, PartialEq, Eq, Structural)]
pub enum ItemFetchError {
    /// A network step failed on every attempt allowed.
    Exhausted { step: FetchStep, attempts: u64, last: FetchFailure },
    /// The payload URL has no final path segment to name the file by.
    NoFileName,
}

/// Why one item ended as failed.
#[derive(Clone, Copy, Debug, PartialEq, Eq, Structural)]
pub enum FailReason {
    Fetch(ItemFetchError),
    /// Creating or writing the destination file failed.
    Storage,
}

/// The terminal classification of one item.
#[derive(Debug)]
pub enum DownloadOutcome {
    /// The payload was written to this path.
    Saved(String),
    /// A file already stood at this path and was left untouched.
    Skipped(String),
    Failed(FailReason),
}

} // verus!
