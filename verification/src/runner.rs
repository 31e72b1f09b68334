//! The runner's core: feed every line of an input text, in order, to a
//! fresh processor, and return the status records with the final snapshot.
//!
//! Acquiring the text (reading a file, or falling back to the empty
//! default) and emitting the records to a log sink stay with the caller.

use vstd::prelude::*;

use crate::processor::BulletProofProcessor;
use crate::processor::ProcessResult;
use crate::processor::Stats;
use crate::processor::valid_result;
use crate::text::line_views;
use crate::text::lines_of;
use crate::text::split_lines;

verus! {

/// With no input source given, the input is the empty text.
pub fn default_input() -> (r: String)
    ensures
        r@ == Seq::<char>::empty(),
{
    String::new()
}

/// Feeds every item of `items`, in order, to a fresh processor: the k-th
/// item (counting from 1) yields the k-th record, which carries item number
/// k, and after all calls the snapshot counts exactly the items fed.
pub fn process_items(verbose: bool, items: &Vec<String>) -> (out: (Vec<ProcessResult>, Stats))
    ensures
        out.0@.len() == items@.len(),
        forall|k: int|
            0 <= k < items@.len() ==> valid_result(
                #[trigger] out.0@[k],
                items@[k]@,
                (k + 1) as nat,
            ),
        out.1.processed_count == items@.len(),
        out.1.verbose == verbose,
{
    let mut processor = BulletProofProcessor::new(verbose);
    let mut results: Vec<ProcessResult> = Vec::new();
    let mut idx: usize = 0;
    while idx < items.len()
        invariant
            idx <= items.len(),
            processor.verbose == verbose,
            processor.processed_count == idx,
            results@.len() == idx,
            forall|k: int|
                0 <= k < idx ==> valid_result(#[trigger] results@[k], items@[k]@, (k + 1) as nat),
        decreases items.len() - idx,
    {
        let r = processor.process(items[idx].as_str());
        results.push(r);
        idx = idx + 1;
    }
    let stats = processor.get_stats();
    (results, stats)
}

/// Splits `input` into lines and processes each in order with a fresh
/// processor: the k-th line (counting from 1) yields the k-th record,
/// carrying item number k, and the final snapshot counts every line.
pub fn process_text(verbose: bool, input: &str) -> (out: (Vec<ProcessResult>, Stats))
    ensures
        out.0@.len() == lines_of(input@).len(),
        forall|k: int|
            0 <= k < lines_of(input@).len() ==> valid_result(
                #[trigger] out.0@[k],
                lines_of(input@)[k],
                (k + 1) as nat,
            ),
        out.1.processed_count == lines_of(input@).len(),
        out.1.verbose == verbose,
{
    let lines = split_lines(input);
    let out = process_items(verbose, &lines);
    proof {
        assert(forall|k: int|
            0 <= k < lines@.len() ==> lines@[k]@ == #[trigger] line_views(lines@)[k]);
    }
    out
}

} // verus!
