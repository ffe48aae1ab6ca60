//! The log record model.
//!
//! A fetched log entry arrives as plain fields: an optional timestamp, an
//! optional HTTP method, and the full serialized payload. Parsing turns it
//! into an [`AlgoliaLog`]; an entry without its required timestamp is rejected
//! as malformed, which skips that one entry rather than failing the batch.

use vstd::prelude::*;
use crate::order::lex_lt;
use crate::order::lex_lt_str;

verus! {

/// The plain fields of one fetched log entry, before parsing.
pub struct RawEntry {
    /// The entry's timestamp, if the fetched entry carried one.
    pub timestamp: Option<String>,
    /// The HTTP verb of the logged operation, if the fetched entry carried one.
    pub method: Option<String>,
    /// The full serialized entry, kept verbatim for output.
    pub payload: String,
}

/// Mathematical view of a raw entry.
pub ghost struct RawEntryView {
    pub timestamp: Option<Seq<char>>,
    pub method: Option<Seq<char>>,
    pub payload: Seq<char>,
}

impl View for RawEntry {
    type V = RawEntryView;

    open spec fn view(&self) -> RawEntryView {
        RawEntryView {
            timestamp: self.timestamp.deep_view(),
            method: self.method.deep_view(),
            payload: self.payload@,
        }
    }
}

impl DeepView for RawEntry {
    type V = RawEntryView;

    open spec fn deep_view(&self) -> RawEntryView {
        self.view()
    }
}

/// A single normalized log entry. Immutable once constructed from a fetched
/// entry: the pipeline only reads it.
pub struct AlgoliaLog {
    /// Timestamp in the sortable textual layout; compared as plain text.
    pub timestamp: String,
    /// The HTTP verb of the logged operation; absent in the mode that does
    /// not classify.
    pub method: Option<String>,
    /// The full serialized entry, emitted verbatim or behind a prefix.
    pub raw_payload: String,
}

/// Mathematical view of a log record.
pub ghost struct AlgoliaLogView {
    pub timestamp: Seq<char>,
    pub method: Option<Seq<char>>,
    pub raw_payload: Seq<char>,
}

impl View for AlgoliaLog {
    type V = AlgoliaLogView;

    open spec fn view(&self) -> AlgoliaLogView {
        AlgoliaLogView {
            timestamp: self.timestamp@,
            method: self.method.deep_view(),
            raw_payload: self.raw_payload@,
        }
    }
}

impl DeepView for AlgoliaLog {
    type V = AlgoliaLogView;

    open spec fn deep_view(&self) -> AlgoliaLogView {
        self.view()
    }
}

/// Why a fetched log entry was rejected.
#[derive(Debug, PartialEq, Eq, Structural)]
pub enum LogError {
    /// The entry lacks its required timestamp field.
    MalformedLogEntry,
}

/// What parsing a fetched entry yields, at the level of views: a record
/// carrying the entry's fields, or nothing when the timestamp is missing.
pub open spec fn parse_entry(e: RawEntryView) -> Option<AlgoliaLogView> {
    match e.timestamp {
        Some(ts) => Some(
            AlgoliaLogView { timestamp: ts, method: e.method, raw_payload: e.payload },
        ),
        None => None,
    }
}

impl AlgoliaLog {
    /// Build a record from a fetched entry. An entry without a timestamp is
    /// rejected as malformed; every other entry is accepted, its fields
    /// carried over unchanged.
    pub fn from_entry(entry: RawEntry) -> (r: Result<AlgoliaLog, LogError>)
        ensures
            (match parse_entry(entry@) {
                Some(v) => r matches Ok(rec) && rec@ == v,
                None => r matches Err(LogError::MalformedLogEntry),
            }),
    {
        match entry.timestamp {
            Some(ts) => Ok(
                AlgoliaLog { timestamp: ts, method: entry.method, raw_payload: entry.payload },
            ),
            None => Err(LogError::MalformedLogEntry),
        }
    }

    /// Does this record's timestamp sort strictly after the given one?
    pub fn is_newer(&self, timestamp: &String) -> (r: bool)
        ensures
            r == lex_lt(timestamp@, self@.timestamp),
    {
        lex_lt_str(timestamp.as_str(), self.timestamp.as_str())
    }
}

} // verus!
