//! Laws of the extraction protocol, proved once and for all over the spec
//! model that the orchestrator's contract speaks of.

use vstd::prelude::*;

use crate::orchestrator::{
    complete_well_shaped, error_classified, reconstruction_payloads, successful_run_with,
};
use crate::protocol::{
    alternating, collect_spec, event_outcome, num_received, num_sent, one_in_flight,
    reconstruct_value, survivors, Event, ExtractError, TypeId,
};

verus! {

/// The result never has more entries than the enumeration reported, and
/// has exactly as many if and only if no type failed reconstruction.
pub proof fn lemma_collect_len(entries: Seq<(String, TypeId)>, outs: Seq<Option<String>>)
    requires
        outs.len() == entries.len(),
    ensures
        collect_spec(entries, outs).len() <= entries.len(),
        collect_spec(entries, outs).len() == entries.len() <==> (forall|k: int|
            0 <= k < outs.len() ==> outs[k] is Some),
    decreases entries.len(),
{
    if entries.len() > 0 {
        lemma_collect_len(entries.drop_last(), outs.drop_last());
        assert(forall|k: int| 0 <= k < outs.len() - 1 ==> outs.drop_last()[k] == outs[k]);
        if outs.last() is None {
            assert(!(outs[outs.len() - 1] is Some));
        } else {
            assert((forall|k: int| 0 <= k < outs.len() - 1 ==> outs.drop_last()[k] is Some)
                <==> (forall|k: int| 0 <= k < outs.len() ==> outs[k] is Some));
        }
    }
}

/// Order preservation: the survivors keep their enumeration order. The
/// result pairs up one to one with the strictly increasing sequence of
/// surviving indices; entry `k` of the result carries the display name of
/// the survivor it came from and the declaration its outcome carried.
pub proof fn lemma_collect_order(entries: Seq<(String, TypeId)>, outs: Seq<Option<String>>)
    requires
        outs.len() == entries.len(),
    ensures
        collect_spec(entries, outs).len() == survivors(outs).len(),
        forall|a: int, b: int|
            0 <= a < b < survivors(outs).len() ==> #[trigger] survivors(outs)[a]
                < #[trigger] survivors(outs)[b],
        forall|k: int|
            0 <= k < survivors(outs).len() ==> {
                let j = #[trigger] survivors(outs)[k];
                &&& 0 <= j < entries.len()
                &&& outs[j] == Some(collect_spec(entries, outs)[k].1)
                &&& collect_spec(entries, outs)[k].0 == entries[j].0
            },
    decreases entries.len(),
{
    if entries.len() > 0 {
        let ep = entries.drop_last();
        let op = outs.drop_last();
        lemma_collect_order(ep, op);
        assert(forall|k: int| 0 <= k < outs.len() - 1 ==> op[k] == outs[k]);
        assert(forall|k: int| 0 <= k < entries.len() - 1 ==> ep[k] == entries[k]);
        if outs.last() is Some {
            let sp = survivors(op);
            let cp = collect_spec(ep, op);
            assert(survivors(outs) == sp.push(outs.len() - 1));
            assert(forall|k: int| 0 <= k < sp.len() ==> #[trigger] survivors(outs)[k] == sp[k]);
            assert(survivors(outs)[sp.len() as int] == outs.len() - 1);
            assert(forall|k: int|
                0 <= k < cp.len() ==> #[trigger] collect_spec(entries, outs)[k] == cp[k]);
        }
    }
}

/// For every successful run, the result has at most one entry per
/// enumerated type, and exactly one per type if and only if no
/// reconstruction came back with a per-type failure.
pub proof fn lemma_run_length(
    t: Seq<Event>,
    v: Seq<(String, String)>,
    entries: Vec<(String, TypeId)>,
)
    requires
        successful_run_with(t, v, entries),
    ensures
        v.len() <= entries@.len(),
        v.len() == entries@.len() <==> (forall|k: int|
            0 <= k < entries@.len() ==> reconstruct_value(
                event_outcome(#[trigger] t[5 + 2 * k]),
            ) is Some),
{
    let outs = reconstruction_payloads(t, entries@.len() as int);
    lemma_collect_len(entries@, outs);
    assert(forall|k: int|
        0 <= k < entries@.len() ==> outs[k] == reconstruct_value(
            event_outcome(#[trigger] t[5 + 2 * k]),
        ));
}

/// For every successful run, the survivors keep their enumeration order:
/// the result pairs up one to one with the strictly increasing sequence of
/// surviving indices, each result entry carrying the display name of the
/// entry it came from and the declaration text its outcome delivered.
pub proof fn lemma_run_order(
    t: Seq<Event>,
    v: Seq<(String, String)>,
    entries: Vec<(String, TypeId)>,
)
    requires
        successful_run_with(t, v, entries),
    ensures
        ({
            let outs = reconstruction_payloads(t, entries@.len() as int);
            let surv = survivors(outs);
            &&& v.len() == surv.len()
            &&& (forall|a: int, b: int|
                0 <= a < b < surv.len() ==> #[trigger] surv[a] < #[trigger] surv[b])
            &&& (forall|k: int|
                0 <= k < surv.len() ==> {
                    let j = #[trigger] surv[k];
                    &&& 0 <= j < entries@.len()
                    &&& outs[j] == Some(v[k].1)
                    &&& v[k].0 == entries@[j].0
                })
        }),
{
    lemma_collect_order(entries@, reconstruction_payloads(t, entries@.len() as int));
}

/// Success is owed: when the transcript is complete and every outcome in
/// it has the protocol-correct shape, an error-classified result cannot
/// be an error — every error the classification admits contradicts some
/// part of the transcript's shape. Together with `successful_run` this
/// forces a run whose backend answered every command correctly to return
/// exactly the collected survivors.
pub proof fn lemma_success_owed(
    res: Result<Vec<(String, String)>, ExtractError>,
    t: Seq<Event>,
    n: int,
)
    requires
        complete_well_shaped(t, n),
        error_classified(res, t),
    ensures
        res is Ok,
{
    if n > 0 {
        assert(t[5 + 2 * (n - 1)] == t[t.len() - 1]);
    }
}

/// At most one command is ever outstanding: a transcript that strictly
/// alternates between one sent command and the outcome answering it never
/// has the commands sent run more than one ahead of the outcomes received,
/// nor fall behind them, in any prefix.
pub broadcast proof fn lemma_alternating_one_in_flight(t: Seq<Event>)
    requires
        alternating(t),
    ensures
        #[trigger] one_in_flight(t),
{
    assert forall|i: int| 0 <= i <= t.len() implies {
        let p = #[trigger] t.take(i);
        num_received(p) <= num_sent(p) <= num_received(p) + 1
    } by {
        lemma_alternating_counts(t, i);
    }
}

/// In every prefix of an alternating transcript, the events at even
/// positions are the sent commands and those at odd positions the received
/// outcomes, so the counts are fixed by the prefix length alone.
proof fn lemma_alternating_counts(t: Seq<Event>, i: int)
    requires
        alternating(t),
        0 <= i <= t.len(),
    ensures
        num_sent(t.take(i)) == (i + 1) / 2,
        num_received(t.take(i)) == i / 2,
    decreases i,
{
    if i > 0 {
        lemma_alternating_counts(t, i - 1);
        assert(t.take(i).drop_last() =~= t.take(i - 1));
        assert(t.take(i).last() == t[i - 1]);
    }
}

} // verus!
