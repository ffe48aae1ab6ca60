//! A monitor for a remote search index: decides when an observed record
//! count deviates enough from a baseline to warrant attention, deduplicates
//! build-log entries by timestamp across poll cycles, and classifies the
//! retained entries for output.

pub mod classify;
pub mod monitor;
pub mod order;
pub mod pipeline;
pub mod record;
