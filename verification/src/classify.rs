//! Classification of retained records into output lines.
//!
//! Two reporting modes exist. In the plain mode every retained record is
//! emitted verbatim. In the change-triggered mode a record whose method is
//! the read verb is dropped, and the rest are emitted behind a prefix:
//! the delete prefix when the payload contains the delete marker, the
//! update prefix otherwise. The delete test is a plain substring match on
//! the serialized payload; it can match unrelated text that happens to
//! contain the marker, a deliberate, known imprecision.

use vstd::prelude::*;
use crate::record::AlgoliaLog;

verus! {

/// How the monitor reports, chosen once at startup and immutable
/// thereafter. Consumed by both the delta evaluator (whether to gate on
/// the record count) and the pipeline (how to classify).
#[derive(Clone, Copy, Debug, PartialEq, Eq, Structural)]
pub enum ReportingMode {
    /// Report every cycle; emit every retained record verbatim.
    AllLogs,
    /// Report only when the record count moved beyond the threshold;
    /// classify retained records by HTTP method and delete marker.
    ChangeTriggered,
}

/// The marker whose presence in a payload classifies it as a deletion.
pub open spec fn delete_marker() -> Seq<char> {
    "delete"@
}

/// The prefix put before a payload classified as a deletion.
pub open spec fn delete_prefix() -> Seq<char> {
    "DELETE:"@
}

/// The prefix put before every other mutating payload.
pub open spec fn update_prefix() -> Seq<char> {
    "UPDATE:"@
}

/// The one HTTP verb regarded as a read; read records are dropped in the
/// change-triggered mode.
pub open spec fn read_method() -> Seq<char> {
    "GET"@
}

/// Does `hay` hold `needle` starting at position `i`?
pub open spec fn contains_at(hay: Seq<char>, needle: Seq<char>, i: int) -> bool {
    0 <= i && i + needle.len() <= hay.len() && hay.subrange(i, i + needle.len()) == needle
}

/// Does `hay` hold `needle` anywhere?
pub open spec fn contains_seq(hay: Seq<char>, needle: Seq<char>) -> bool {
    exists|i: int| contains_at(hay, needle, i)
}

/// Is the method the read verb? A record without a method counts as
/// mutating: only an explicit read verb drops it.
pub open spec fn is_read(method: Option<Seq<char>>) -> bool {
    match method {
        Some(m) => m == read_method(),
        None => false,
    }
}

/// The output line for a retained record: its payload verbatim in the
/// plain mode; in the change-triggered mode, nothing for a read record,
/// and the prefixed payload otherwise.
pub open spec fn line_for(mode: ReportingMode, method: Option<Seq<char>>, payload: Seq<char>) -> Option<
    Seq<char>,
> {
    match mode {
        ReportingMode::AllLogs => Some(payload),
        ReportingMode::ChangeTriggered => if is_read(method) {
            None
        } else if contains_seq(payload, delete_marker()) {
            Some(delete_prefix() + payload)
        } else {
            Some(update_prefix() + payload)
        },
    }
}

/// Classification law: in the change-triggered mode a read record is never
/// emitted; a mutating record whose payload contains the delete marker is
/// emitted behind the delete prefix; every other mutating record is
/// emitted behind the update prefix.
pub proof fn lemma_classification(method: Option<Seq<char>>, payload: Seq<char>)
    ensures
        is_read(method) ==> line_for(ReportingMode::ChangeTriggered, method, payload) is None,
        !is_read(method) && contains_seq(payload, delete_marker()) ==> line_for(
            ReportingMode::ChangeTriggered,
            method,
            payload,
        ) == Some(delete_prefix() + payload),
        !is_read(method) && !contains_seq(payload, delete_marker()) ==> line_for(
            ReportingMode::ChangeTriggered,
            method,
            payload,
        ) == Some(update_prefix() + payload),
{
}

/// Does `hay` hold `needle` starting at position `i`? Verified executable
/// check of one position.
fn match_at(hay: &str, needle: &str, i: usize, h_len: usize, n_len: usize) -> (r: bool)
    requires
        h_len == hay@.len(),
        n_len == needle@.len(),
        i + n_len <= h_len,
    ensures
        r == contains_at(hay@, needle@, i as int),
{
    let mut j: usize = 0;
    while j < n_len
        invariant
            h_len == hay@.len(),
            n_len == needle@.len(),
            i + n_len <= h_len,
            j <= n_len,
            forall|l: int| 0 <= l < j ==> hay@[i + l] == needle@[l],
        decreases n_len - j,
    {
        let hc = hay.get_char(i + j);
        let nc = needle.get_char(j);
        if hc != nc {
            proof {
                if contains_at(hay@, needle@, i as int) {
                    assert(hay@.subrange(i as int, i + n_len)[j as int] == needle@[j as int]);
                    assert(hay@[i + j] == needle@[j as int]);
                }
            }
            return false;
        }
        j = j + 1;
    }
    proof {
        assert forall|l: int| 0 <= l < n_len implies hay@.subrange(i as int, i + n_len)[l]
            == needle@[l] by {
            assert(hay@[i + l] == needle@[l]);
        }
        assert(hay@.subrange(i as int, i + n_len) =~= needle@);
    }
    true
}

/// Verified executable substring search: does `hay` contain `needle`?
pub fn contains_str(hay: &str, needle: &str) -> (r: bool)
    ensures
        r == contains_seq(hay@, needle@),
{
    let h_len = hay.unicode_len();
    let n_len = needle.unicode_len();
    if n_len > h_len {
        return false;
    }
    if n_len == 0 {
        proof {
            assert(hay@.subrange(0, 0) =~= needle@);
            assert(contains_at(hay@, needle@, 0));
        }
        return true;
    }
    let last = h_len - n_len;
    let mut i: usize = 0;
    while i <= last
        invariant
            h_len == hay@.len(),
            n_len == needle@.len(),
            1 <= n_len <= h_len,
            last == h_len - n_len,
            i <= last + 1,
            forall|k: int| 0 <= k < i ==> !contains_at(hay@, needle@, k),
        decreases last + 1 - i,
    {
        if match_at(hay, needle, i, h_len, n_len) {
            return true;
        }
        i = i + 1;
    }
    false
}

/// Is the record's method the read verb? Verified executable check.
pub fn is_read_method(method: &Option<String>) -> (r: bool)
    ensures
        r == is_read(method.deep_view()),
{
    match method {
        Some(m) => {
            let verb = String::from_str("GET");
            *m == verb
        },
        None => false,
    }
}

/// Build the output line for a retained record, as [`line_for`] states.
pub fn render_line(mode: &ReportingMode, rec: &AlgoliaLog) -> (r: Option<String>)
    ensures
        r.deep_view() == line_for(*mode, rec@.method, rec@.raw_payload),
{
    match mode {
        ReportingMode::AllLogs => Some(rec.raw_payload.clone()),
        ReportingMode::ChangeTriggered => {
            if is_read_method(&rec.method) {
                None
            } else if contains_str(rec.raw_payload.as_str(), "delete") {
                let mut line = String::from_str("DELETE:");
                line.append(rec.raw_payload.as_str());
                Some(line)
            } else {
                let mut line = String::from_str("UPDATE:");
                line.append(rec.raw_payload.as_str());
                Some(line)
            }
        },
    }
}

} // verus!
