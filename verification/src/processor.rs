//! The processor: turns one input line into one status record and keeps a
//! running count of the items it has handled.

use vstd::prelude::*;
use vstd::string::StrSliceExecFns;

use crate::message::message_of;
use crate::message::message_string;

verus! {

/// The payload of a status record: the character count of the input line,
/// the moment it was handled, and its position in the run.
pub struct ProcessData {
    /// Character count of the input line.
    pub length: usize,
    /// The moment of processing, as an RFC 3339 date-time string.
    pub processed_at: String,
    /// The running count at the time of processing, starting at 1.
    pub item_number: usize,
}

/// The status record returned for one processed item.
pub struct ProcessResult {
    /// Whether the processing was successful.
    pub success: bool,
    /// A message describing the result.
    pub message: String,
    /// The payload describing the processed item.
    pub data: Option<ProcessData>,
}

/// A snapshot of the processor's cumulative state.
pub struct Stats {
    /// How many items have been processed so far.
    pub processed_count: usize,
    /// Whether verbose output was requested.
    pub verbose: bool,
}

/// The main processor.
pub struct BulletProofProcessor {
    /// Whether to log verbose output.
    pub verbose: bool,
    /// The number of items processed so far.
    pub processed_count: usize,
}

/// The record handed back for the item processed as number `k`, whose text
/// was `item`: success, the message carrying `k`, and a payload with the
/// item's character count and its number. The moment of processing is not
/// pinned down: it comes from the clock.
pub open spec fn valid_result(r: ProcessResult, item: Seq<char>, k: nat) -> bool {
    &&& r.success
    &&& r.message@ == message_of(k)
    &&& match r.data {
        Some(d) => d.length == item.len() && d.item_number == k,
        None => false,
    }
}

/// Relies on chrono's `Utc::now` and `DateTime::to_rfc3339` for the current
/// UTC time as an RFC 3339 string. The value depends on the clock, so
/// nothing is assumed of it. `Utc::now` aborts when the system clock is set
/// before the Unix epoch.
#[verifier::external_body]
fn now_rfc3339() -> String {
    chrono::Utc::now().to_rfc3339()
}

impl BulletProofProcessor {
    /// Creates a new processor instance.
    pub fn new(verbose: bool) -> (p: Self)
        ensures
            p.verbose == verbose,
            p.processed_count == 0,
    {
        Self { verbose, processed_count: 0 }
    }

    /// Processes a given piece of data: advances the running count by one
    /// and returns the status record for this item. The record's moment of
    /// processing is read from the clock; everything else is pinned down.
    pub fn process(&mut self, data: &str) -> (r: ProcessResult)
        requires
            old(self).processed_count < usize::MAX,
        ensures
            final(self).processed_count == old(self).processed_count + 1,
            final(self).verbose == old(self).verbose,
            valid_result(r, data@, final(self).processed_count as nat),
    {
        let length = data.unicode_len();
        self.processed_count = self.processed_count + 1;
        let message = message_string(self.processed_count);
        let processed_at = now_rfc3339();
        ProcessResult {
            success: true,
            message,
            data: Some(ProcessData { length, processed_at, item_number: self.processed_count }),
        }
    }

    /// Returns statistics about the processor's state.
    pub fn get_stats(&self) -> (s: Stats)
        ensures
            s.processed_count == self.processed_count,
            s.verbose == self.verbose,
    {
        Stats { processed_count: self.processed_count, verbose: self.verbose }
    }
}

} // verus!
