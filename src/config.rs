//! The settings of a run.
use vstd::prelude::*;
use vstd::string::StringExecFns;
use crate::retry::RetryPolicy;

verus! {

/// Everything a run is parameterised by.
pub struct Config {
    /// The root of the resource; metadata documents live below it.
    pub base_url: String,
    /// The directory that the payloads are stored in.
    pub output_dir: String,
    /// How many items may be in flight at once.
    pub concurrency_limit: usize,
    /// The retry policy of every network operation.
    pub retry: RetryPolicy,
}

impl Config {
    /// Whether a run can proceed under these settings: at least one permit.
    pub fn is_runnable(&self) -> (r: bool)
        ensures
            r == (self.concurrency_limit >= 1),
    {
        self.concurrency_limit >= 1
    }
}

impl Default for Config {
    /// The series at `https://xkcd.com/`, stored in `./xkcd_comics`, with 100
    /// items in flight and 3 retries 5 seconds apart.
    fn default() -> (c: Config)
        ensures
            c.base_url@ == "https://xkcd.com/"@,
            c.output_dir@ == "./xkcd_comics"@,
            c.concurrency_limit == 100,
            c.retry == (RetryPolicy { max_retries: 3, delay_secs: 5 }),
    {
        Config {
            base_url: String::from_str("https://xkcd.com/"),
            output_dir: String::from_str("./xkcd_comics"),
            concurrency_limit: 100,
            retry: RetryPolicy { max_retries: 3, delay_secs: 5 },
        }
    }
}

} // verus!
