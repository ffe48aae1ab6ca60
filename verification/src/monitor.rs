//! The poll-cycle decisions.
//!
//! The poll loop itself — the fixed sleep and the blocking network calls —
//! lives outside the library. Each cycle hands in the observed record count
//! and, when fetching is due, the fetched batch; this module decides whether
//! the count deviates enough from the baseline to surface logs, and runs the
//! pipeline over the batch. A transport failure is fatal to the process and
//! never reaches these functions; a malformed response falls back to a safe
//! default here (zero records, the empty batch) rather than failing.

use vstd::prelude::*;
use crate::classify::ReportingMode;
use crate::pipeline::output_lines;
use crate::pipeline::process_batch;
use crate::pipeline::watermark_after;
use crate::record::RawEntry;
use crate::record::RawEntryView;

verus! {

/// The difference between the observed and the expected record count.
pub open spec fn delta_of(current: int, expected: int) -> int {
    current - expected
}

/// The trigger rule, in its signed-threshold form: a negative threshold
/// watches for decreases (trigger when the delta falls below it), a
/// positive one for increases (trigger when the delta rises above it),
/// and a zero threshold never triggers. This is deliberately not the
/// absolute-magnitude form: a rise never triggers under a negative,
/// decrease-only threshold.
pub open spec fn trigger_spec(current: int, expected: int, threshold: int) -> bool {
    (threshold < 0 && delta_of(current, expected) < threshold) || (threshold > 0 && delta_of(
        current,
        expected,
    ) > threshold)
}

/// Decide whether the observed record count deviates enough from the
/// baseline to surface logs this cycle. Pure; a zero count is a valid
/// input and simply yields a larger delta.
pub fn delta_triggers(current: u64, expected: u64, threshold: i64) -> (r: bool)
    ensures
        r == trigger_spec(current as int, expected as int, threshold as int),
{
    let delta: i128 = current as i128 - expected as i128;
    let bound: i128 = threshold as i128;
    (bound < 0 && delta < bound) || (bound > 0 && delta > bound)
}

/// The sentinel the watermark starts from, shaped to sort before any real
/// timestamp in the fetched layout.
pub fn initial_watermark() -> (r: String)
    ensures
        r@ == "0000-00-00T00:00:00.000Z"@,
{
    String::from_str("0000-00-00T00:00:00.000Z")
}

/// The baseline record count: the explicitly supplied expectation, or,
/// when that is given as zero, the live count observed at startup.
pub fn resolve_baseline(requested: u64, live: u64) -> (r: u64)
    ensures
        r == (if requested == 0 {
            live
        } else {
            requested
        }),
{
    if requested == 0 {
        live
    } else {
        requested
    }
}

/// The record count taken from a count response: the reported number, or
/// zero when the response lacks the field or it has the wrong shape.
pub fn count_from_response(reported: Option<u64>) -> (r: u64)
    ensures
        (match reported {
            Some(n) => r == n,
            None => r == 0,
        }),
{
    match reported {
        Some(n) => n,
        None => 0,
    }
}

/// The batch taken from a log-fetch response: the entries, or the empty
/// batch when the response lacks the logs field or it has the wrong
/// shape — treated as zero logs fetched, not as an error.
pub fn batch_from_response(logs: Option<Vec<RawEntry>>) -> (r: Vec<RawEntry>)
    ensures
        (match logs {
            Some(entries) => r.deep_view() == entries.deep_view(),
            None => r.deep_view() =~= Seq::<RawEntryView>::empty(),
        }),
{
    match logs {
        Some(entries) => entries,
        None => {
            let empty: Vec<RawEntry> = Vec::new();
            proof {
                assert(empty.deep_view() =~= Seq::<RawEntryView>::empty());
            }
            empty
        },
    }
}

/// The monitor's state across poll cycles: the configuration fixed at
/// startup, and the watermark, which only the pipeline advances.
pub struct Monitor {
    /// Reporting mode, fixed at startup.
    pub mode: ReportingMode,
    /// Expected baseline record count, fixed at startup.
    pub expected: u64,
    /// Signed delta threshold, fixed at startup.
    pub threshold: i64,
    /// The most recently seen log timestamp; advances monotonically.
    pub watermark: String,
}

impl Monitor {
    /// A monitor before its first cycle: configuration fixed for the
    /// process lifetime, watermark at the sentinel.
    pub fn new(mode: ReportingMode, expected: u64, threshold: i64) -> (r: Monitor)
        ensures
            r.mode == mode,
            r.expected == expected,
            r.threshold == threshold,
            r.watermark@ == "0000-00-00T00:00:00.000Z"@,
    {
        Monitor { mode, expected, threshold, watermark: initial_watermark() }
    }

    /// A cycle's first decision: fetch and report logs this cycle? Always
    /// in the all-logs mode; in the change-triggered mode exactly when the
    /// evaluator triggers on the observed count.
    pub fn should_fetch(&self, current: u64) -> (r: bool)
        ensures
            r == (match self.mode {
                ReportingMode::AllLogs => true,
                ReportingMode::ChangeTriggered => trigger_spec(
                    current as int,
                    self.expected as int,
                    self.threshold as int,
                ),
            }),
    {
        match self.mode {
            ReportingMode::AllLogs => true,
            ReportingMode::ChangeTriggered => delta_triggers(
                current,
                self.expected,
                self.threshold,
            ),
        }
    }

    /// A cycle's second step, run when fetching was due: the pipeline over
    /// the fetched batch. Emits the lines and advances the watermark; the
    /// configuration is untouched.
    pub fn ingest_batch(&mut self, batch: Vec<RawEntry>) -> (out: Vec<String>)
        ensures
            out.deep_view() == output_lines(
                old(self).mode,
                old(self).watermark@,
                batch.deep_view(),
            ),
            final(self).watermark@ == watermark_after(old(self).watermark@, batch.deep_view()),
            final(self).mode == old(self).mode,
            final(self).expected == old(self).expected,
            final(self).threshold == old(self).threshold,
    {
        process_batch(self.mode, &mut self.watermark, batch)
    }
}

} // verus!
