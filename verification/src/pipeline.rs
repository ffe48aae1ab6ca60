//! The fetch & filter pipeline.
//!
//! One cycle turns a fetched batch of raw log entries into output lines and
//! advances the watermark. Per entry: parse (an entry without a timestamp is
//! skipped), filter (keep only entries strictly newer than the watermark at
//! the start of the cycle), classify (by reporting mode), emit (in the
//! batch's own order, which need not be timestamp order). Afterwards the
//! watermark holds the maximum timestamp seen, so a late-ordered but newer
//! entry still advances it correctly; with nothing retained it is unchanged.

use vstd::prelude::*;
use crate::classify::ReportingMode;
use crate::classify::line_for;
use crate::classify::render_line;
use crate::order::lex_lt;
use crate::order::lex_le;
use crate::order::lemma_lex_le_lt_trans;
use crate::order::lemma_lex_le_not_lt;
use crate::order::lemma_lex_not_lt_le;
use crate::record::AlgoliaLog;
use crate::record::RawEntry;
use crate::record::RawEntryView;

verus! {

/// Is the entry kept by the filter step: parsed (its timestamp is present)
/// and strictly newer than the watermark?
pub open spec fn retained(wm: Seq<char>, e: RawEntryView) -> bool {
    match e.timestamp {
        Some(ts) => lex_lt(wm, ts),
        None => false,
    }
}

/// The lines one cycle emits for a batch against watermark `wm`, in the
/// batch's own order: one line per retained entry that the mode's
/// classification does not drop.
pub open spec fn output_lines(mode: ReportingMode, wm: Seq<char>, batch: Seq<RawEntryView>) -> Seq<
    Seq<char>,
>
    decreases batch.len(),
{
    if batch.len() == 0 {
        Seq::empty()
    } else {
        let rest = output_lines(mode, wm, batch.drop_last());
        let e = batch.last();
        if retained(wm, e) {
            match line_for(mode, e.method, e.payload) {
                Some(l) => rest.push(l),
                None => rest,
            }
        } else {
            rest
        }
    }
}

/// The watermark after one cycle over a batch: the running maximum of `wm`
/// and the timestamps of the entries, under the lexicographic order.
pub open spec fn watermark_after(wm: Seq<char>, batch: Seq<RawEntryView>) -> Seq<char>
    decreases batch.len(),
{
    if batch.len() == 0 {
        wm
    } else {
        let w = watermark_after(wm, batch.drop_last());
        match batch.last().timestamp {
            Some(ts) => if lex_lt(w, ts) {
                ts
            } else {
                w
            },
            None => w,
        }
    }
}

/// Watermark monotonicity: processing a batch never moves the watermark
/// backwards. Applied to each step of a sequence of batches, the watermark
/// after any later batch sorts no earlier than after any earlier one.
pub proof fn lemma_watermark_monotonic(wm: Seq<char>, batch: Seq<RawEntryView>)
    ensures
        lex_le(wm, watermark_after(wm, batch)),
    decreases batch.len(),
{
    if batch.len() > 0 {
        let w = watermark_after(wm, batch.drop_last());
        lemma_watermark_monotonic(wm, batch.drop_last());
        match batch.last().timestamp {
            Some(ts) => {
                if lex_lt(w, ts) {
                    lemma_lex_le_lt_trans(wm, w, ts);
                }
            },
            None => {},
        }
    }
}

/// Every timestamp that a batch carries sorts no later than the watermark
/// after the batch. In particular, when a newer timestamp stands earlier in
/// the batch than an older one, the watermark still advances to the newer
/// one, not to the last one seen.
pub proof fn lemma_watermark_dominates(wm: Seq<char>, batch: Seq<RawEntryView>, i: int)
    requires
        0 <= i < batch.len(),
        batch[i].timestamp is Some,
    ensures
        lex_le(batch[i].timestamp->0, watermark_after(wm, batch)),
    decreases batch.len(),
{
    let w = watermark_after(wm, batch.drop_last());
    let ts_i = batch[i].timestamp->0;
    if i == batch.len() - 1 {
        match batch.last().timestamp {
            Some(ts) => {
                if !lex_lt(w, ts) {
                    lemma_lex_not_lt_le(ts, w);
                }
            },
            None => {},
        }
    } else {
        assert(batch.drop_last()[i] == batch[i]);
        lemma_watermark_dominates(wm, batch.drop_last(), i);
        match batch.last().timestamp {
            Some(ts) => {
                if lex_lt(w, ts) {
                    lemma_lex_le_lt_trans(ts_i, w, ts);
                }
            },
            None => {},
        }
    }
}

/// The watermark after a batch is either unchanged or the timestamp of a
/// retained entry of the batch: it only advances on evidence.
pub proof fn lemma_watermark_source(wm: Seq<char>, batch: Seq<RawEntryView>)
    ensures
        watermark_after(wm, batch) == wm || (exists|i: int|
            0 <= i < batch.len() && retained(wm, batch[i]) && batch[i].timestamp == Some(
                watermark_after(wm, batch),
            )),
    decreases batch.len(),
{
    if batch.len() > 0 {
        let w = watermark_after(wm, batch.drop_last());
        let after = watermark_after(wm, batch);
        lemma_watermark_source(wm, batch.drop_last());
        let advanced = match batch.last().timestamp {
            Some(ts) => lex_lt(w, ts),
            None => false,
        };
        if advanced {
            let ts = batch.last().timestamp->0;
            lemma_watermark_monotonic(wm, batch.drop_last());
            lemma_lex_le_lt_trans(wm, w, ts);
            assert(retained(wm, batch[batch.len() - 1]));
            assert(batch[batch.len() - 1].timestamp == Some(after));
        } else if w != wm {
            let j = choose|j: int|
                0 <= j < batch.drop_last().len() && retained(wm, batch.drop_last()[j])
                    && batch.drop_last()[j].timestamp == Some(w);
            assert(batch.drop_last()[j] == batch[j]);
            assert(retained(wm, batch[j]) && batch[j].timestamp == Some(after));
        }
    }
}

/// A batch none of whose entries the filter keeps emits nothing and leaves
/// the watermark unchanged.
proof fn lemma_nothing_retained(mode: ReportingMode, wm: Seq<char>, batch: Seq<RawEntryView>)
    requires
        forall|i: int| 0 <= i < batch.len() ==> !retained(wm, #[trigger] batch[i]),
    ensures
        output_lines(mode, wm, batch) =~= Seq::<Seq<char>>::empty(),
        watermark_after(wm, batch) == wm,
    decreases batch.len(),
{
    if batch.len() > 0 {
        assert forall|i: int| 0 <= i < batch.drop_last().len() implies !retained(
            wm,
            #[trigger] batch.drop_last()[i],
        ) by {
            assert(batch.drop_last()[i] == batch[i]);
        }
        lemma_nothing_retained(mode, wm, batch.drop_last());
        assert(!retained(wm, batch[batch.len() - 1]));
        match batch.last().timestamp {
            Some(ts) => {
                assert(!lex_lt(wm, ts));
            },
            None => {},
        }
    }
}

/// Idempotence: running the pipeline again on the same batch, with the
/// watermark the first run left behind, retains nothing, emits nothing,
/// and leaves the watermark where it was.
pub proof fn lemma_pipeline_idempotent(mode: ReportingMode, wm: Seq<char>, batch: Seq<
    RawEntryView,
>)
    ensures
        output_lines(mode, watermark_after(wm, batch), batch) =~= Seq::<Seq<char>>::empty(),
        watermark_after(watermark_after(wm, batch), batch) == watermark_after(wm, batch),
{
    let w1 = watermark_after(wm, batch);
    assert forall|i: int| 0 <= i < batch.len() implies !retained(w1, #[trigger] batch[i]) by {
        match batch[i].timestamp {
            Some(ts) => {
                lemma_watermark_dominates(wm, batch, i);
                lemma_lex_le_not_lt(ts, w1);
            },
            None => {},
        }
    }
    lemma_nothing_retained(mode, w1, batch);
}

/// Clone the optional method or timestamp field of a fetched entry.
fn clone_opt_string(o: &Option<String>) -> (r: Option<String>)
    ensures
        r.deep_view() == o.deep_view(),
{
    match o {
        Some(s) => Some(s.clone()),
        None => None,
    }
}

/// Run one cycle of the pipeline over a fetched batch: emit the lines that
/// [`output_lines`] states, in the batch's own order, and advance the
/// watermark to the maximum retained timestamp as [`watermark_after`]
/// states; with nothing retained the watermark is unchanged.
pub fn process_batch(mode: ReportingMode, watermark: &mut String, batch: Vec<RawEntry>) -> (out:
    Vec<String>)
    ensures
        out.deep_view() == output_lines(mode, old(watermark)@, batch.deep_view()),
        final(watermark)@ == watermark_after(old(watermark)@, batch.deep_view()),
{
    let ghost wm_init: Seq<char> = watermark@;
    let ghost views: Seq<RawEntryView> = batch.deep_view();
    let wm_start: String = watermark.clone();
    let mut out: Vec<String> = Vec::new();
    let mut i: usize = 0;
    while i < batch.len()
        invariant
            i <= batch@.len(),
            views == batch.deep_view(),
            views.len() == batch@.len(),
            wm_start@ == wm_init,
            out.deep_view() == output_lines(mode, wm_init, views.take(i as int)),
            watermark@ == watermark_after(wm_init, views.take(i as int)),
        decreases batch@.len() - i,
    {
        proof {
            assert(views.take(i + 1).drop_last() =~= views.take(i as int));
            assert(views.take(i + 1).last() == views[i as int]);
        }
        let e = &batch[i];
        let entry = RawEntry {
            timestamp: clone_opt_string(&e.timestamp),
            method: clone_opt_string(&e.method),
            payload: e.payload.clone(),
        };
        proof {
            assert(entry@ == views[i as int]);
        }
        match AlgoliaLog::from_entry(entry) {
            Ok(rec) => {
                if rec.is_newer(&wm_start) {
                    let ghost prev = out.deep_view();
                    match render_line(&mode, &rec) {
                        Some(line) => {
                            out.push(line);
                            proof {
                                assert(out.deep_view() =~= prev.push(line@));
                            }
                        },
                        None => {},
                    }
                }
                if rec.is_newer(watermark) {
                    *watermark = rec.timestamp;
                }
            },
            Err(_) => {},
        }
        i = i + 1;
    }
    proof {
        assert(views.take(views.len() as int) =~= views);
    }
    out
}

} // verus!
