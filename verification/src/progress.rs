//! The progress meter: a pure accounting of bytes seen against elapsed
//! time. A sample is produced only once at least one whole second has
//! elapsed, and its throughput is the integer quotient of the cumulative
//! bytes by the elapsed whole seconds. The encode loop keeps at most one
//! sample per elapsed whole second.

use vstd::prelude::*;

verus! {

/// One progress sample of a running compression.
#[derive(Clone, Copy, Debug)]
pub struct ProgressEvent {
    /// Bytes handed to the codec so far.
    pub bytes_processed: u64,
    /// Whole seconds elapsed since the operation started.
    pub elapsed_seconds: u64,
    /// `bytes_processed / elapsed_seconds`, rounded down.
    pub bytes_per_second: u64,
}

/// A sample is internally consistent when its throughput is the integer
/// quotient of its bytes by its nonzero elapsed seconds.
pub open spec fn event_consistent(ev: ProgressEvent) -> bool {
    ev.elapsed_seconds >= 1 && ev.bytes_per_second == ev.bytes_processed as int
        / ev.elapsed_seconds as int
}

/// Computes the sample for the given cumulative bytes and elapsed time,
/// or nothing while less than one whole second has elapsed.
pub fn progress_sample(bytes_processed: u64, elapsed_millis: u64) -> (r: Option<ProgressEvent>)
    ensures
        match r {
            Some(ev) => elapsed_millis >= 1000 && ev.bytes_processed == bytes_processed
                && ev.elapsed_seconds == elapsed_millis as int / 1000 && event_consistent(ev),
            None => elapsed_millis < 1000,
        },
{
    if elapsed_millis >= 1000 {
        let secs = elapsed_millis / 1000;
        Some(
            ProgressEvent {
                bytes_processed,
                elapsed_seconds: secs,
                bytes_per_second: bytes_processed / secs,
            },
        )
    } else {
        None
    }
}

} // verus!
