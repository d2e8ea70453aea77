//! Histories of a store, and what holds of every history.
//!
//! Producers and the flush worker reach the store one at a time, so whatever
//! the threads do, the store sees a sequence of operations: each is the
//! appending of one event or a drain. [`store_after`] and [`drained_after`]
//! replay such a sequence from an empty store by the contracts of
//! `send_alert` and `drain_and_clear`; the laws below hold of every sequence,
//! and so of every interleaving.

use crate::alert::{AlertView, AlertsView};
use crate::store::{
    append_event, events_for, lemma_append_event_events_for, lemma_append_event_total,
    lemma_append_event_wf, lemma_batch_found_by_its_key, store_wf, total_events,
};
use vstd::prelude::*;

verus! {

/// One operation on a store.
pub enum StoreOp {
    /// An event appended under `key`, with the destination the producer named.
    Submit { key: Seq<char>, alert: AlertView, url: Seq<char> },
    /// A drain: the store is handed out whole and left empty.
    Drain,
}

/// The store after the operations `ops`, begun empty.
pub open spec fn store_after(ops: Seq<StoreOp>) -> Seq<AlertsView>
    decreases ops.len(),
{
    if ops.len() == 0 {
        Seq::empty()
    } else {
        match ops.last() {
            StoreOp::Submit { key, alert, url } => append_event(
                store_after(ops.drop_last()),
                key,
                alert,
                url,
            ),
            StoreOp::Drain => Seq::empty(),
        }
    }
}

/// What the drains among `ops` returned, one snapshot for each, in order.
pub open spec fn drained_after(ops: Seq<StoreOp>) -> Seq<Seq<AlertsView>>
    decreases ops.len(),
{
    if ops.len() == 0 {
        Seq::empty()
    } else {
        match ops.last() {
            StoreOp::Submit { .. } => drained_after(ops.drop_last()),
            StoreOp::Drain => drained_after(ops.drop_last()).push(store_after(ops.drop_last())),
        }
    }
}

/// The number of events submitted in `ops`.
pub open spec fn submissions(ops: Seq<StoreOp>) -> nat
    decreases ops.len(),
{
    if ops.len() == 0 {
        0
    } else {
        submissions(ops.drop_last()) + if ops.last() is Submit {
            1nat
        } else {
            0nat
        }
    }
}

/// The events submitted under `key` in `ops`, oldest first.
pub open spec fn submitted_for(ops: Seq<StoreOp>, key: Seq<char>) -> Seq<AlertView>
    decreases ops.len(),
{
    if ops.len() == 0 {
        Seq::empty()
    } else {
        match ops.last() {
            StoreOp::Submit { key: k, alert, .. } if k == key => submitted_for(
                ops.drop_last(),
                key,
            ).push(alert),
            _ => submitted_for(ops.drop_last(), key),
        }
    }
}

/// The events submitted under `key` in `ops` after the last drain, oldest
/// first.
pub open spec fn submitted_since_drain(ops: Seq<StoreOp>, key: Seq<char>) -> Seq<AlertView>
    decreases ops.len(),
{
    if ops.len() == 0 {
        Seq::empty()
    } else {
        match ops.last() {
            StoreOp::Drain => Seq::empty(),
            StoreOp::Submit { key: k, alert, .. } if k == key => submitted_since_drain(
                ops.drop_last(),
                key,
            ).push(alert),
            _ => submitted_since_drain(ops.drop_last(), key),
        }
    }
}

/// The number of events in the drained snapshots.
pub open spec fn drained_events(snapshots: Seq<Seq<AlertsView>>) -> nat
    decreases snapshots.len(),
{
    if snapshots.len() == 0 {
        0
    } else {
        drained_events(snapshots.drop_last()) + total_events(snapshots.last())
    }
}

/// The events that the drained snapshots hold under `key`, in the order in
/// which they were drained.
pub open spec fn drained_for(snapshots: Seq<Seq<AlertsView>>, key: Seq<char>) -> Seq<AlertView>
    decreases snapshots.len(),
{
    if snapshots.len() == 0 {
        Seq::empty()
    } else {
        drained_for(snapshots.drop_last(), key) + events_for(snapshots.last(), key)
    }
}

/// After every history the store, and every snapshot that a drain returned,
/// holds one batch per key and no empty batch.
pub proof fn law_batches_well_formed(ops: Seq<StoreOp>)
    ensures
        store_wf(store_after(ops)),
        forall|k: int|
            0 <= k < drained_after(ops).len() ==> store_wf(#[trigger] drained_after(ops)[k]),
    decreases ops.len(),
{
    if ops.len() > 0 {
        let earlier = ops.drop_last();
        law_batches_well_formed(earlier);
        match ops.last() {
            StoreOp::Submit { key, alert, url } => {
                lemma_append_event_wf(store_after(earlier), key, alert, url);
            },
            StoreOp::Drain => {},
        }
        assert forall|k: int| 0 <= k < drained_after(ops).len() implies store_wf(
            #[trigger] drained_after(ops)[k],
        ) by {
            if k < drained_after(earlier).len() {
                assert(drained_after(ops)[k] == drained_after(earlier)[k]);
            }
        }
    }
}

/// No event is lost and none is counted twice: the events that the drains
/// returned and the events still pending are together as many as were
/// submitted.
pub proof fn law_events_conserved(ops: Seq<StoreOp>)
    ensures
        drained_events(drained_after(ops)) + total_events(store_after(ops)) == submissions(ops),
    decreases ops.len(),
{
    if ops.len() > 0 {
        let earlier = ops.drop_last();
        law_events_conserved(earlier);
        match ops.last() {
            StoreOp::Submit { key, alert, url } => {
                lemma_append_event_total(store_after(earlier), key, alert, url);
            },
            StoreOp::Drain => {
                assert(drained_after(ops).drop_last() =~= drained_after(earlier));
            },
        }
    }
}

/// Once a history ends in a drain, the drains have returned exactly as many
/// events as were submitted, however submissions and drains were interleaved.
pub proof fn law_every_event_drained_once(ops: Seq<StoreOp>)
    requires
        ops.len() > 0,
        ops.last() is Drain,
    ensures
        drained_events(drained_after(ops)) == submissions(ops),
{
    law_events_conserved(ops);
}

/// Per key, nothing is lost, repeated or reordered: the events drained under
/// a key, followed by those still pending under it, are the events submitted
/// under that key, in the order of submission.
pub proof fn law_events_conserved_per_key(ops: Seq<StoreOp>, key: Seq<char>)
    ensures
        drained_for(drained_after(ops), key) + events_for(store_after(ops), key) == submitted_for(
            ops,
            key,
        ),
    decreases ops.len(),
{
    if ops.len() > 0 {
        let earlier = ops.drop_last();
        law_events_conserved_per_key(earlier, key);
        match ops.last() {
            StoreOp::Submit { key: k, alert, url } => {
                lemma_append_event_events_for(store_after(earlier), k, alert, url, key);
            },
            StoreOp::Drain => {
                assert(drained_after(ops).drop_last() =~= drained_after(earlier));
            },
        }
    }
}

/// Keys are isolated: under each key the store holds exactly the events
/// submitted under that key since the last drain.
pub proof fn law_pending_events_by_key(ops: Seq<StoreOp>, key: Seq<char>)
    ensures
        events_for(store_after(ops), key) == submitted_since_drain(ops, key),
    decreases ops.len(),
{
    if ops.len() > 0 {
        let earlier = ops.drop_last();
        law_pending_events_by_key(earlier, key);
        match ops.last() {
            StoreOp::Submit { key: k, alert, url } => {
                lemma_append_event_events_for(store_after(earlier), k, alert, url, key);
            },
            StoreOp::Drain => {},
        }
    }
}

/// Keys are isolated, batch by batch: a batch holds the events submitted
/// under its own key since the last drain, and no event of another key.
pub proof fn law_key_isolation(ops: Seq<StoreOp>, i: int)
    requires
        0 <= i < store_after(ops).len(),
    ensures
        store_after(ops)[i].notifications == submitted_since_drain(ops, store_after(ops)[i].key),
{
    law_batches_well_formed(ops);
    lemma_batch_found_by_its_key(store_after(ops), i);
    law_pending_events_by_key(ops, store_after(ops)[i].key);
}

/// A drain is atomic: what the store holds after it depends on the
/// operations that followed the drain alone. The next drain therefore
/// returns the events submitted in between and none of those drained before.
pub proof fn law_drain_forgets(before: Seq<StoreOp>, after: Seq<StoreOp>)
    ensures
        store_after(before.push(StoreOp::Drain) + after) == store_after(after),
    decreases after.len(),
{
    if after.len() > 0 {
        let ops = before.push(StoreOp::Drain) + after;
        assert(ops.drop_last() =~= before.push(StoreOp::Drain) + after.drop_last());
        law_drain_forgets(before, after.drop_last());
    }
}

/// A drain that follows a drain at once returns nothing.
pub proof fn law_immediate_drain_is_empty(ops: Seq<StoreOp>)
    ensures
        drained_after(ops.push(StoreOp::Drain).push(StoreOp::Drain)).last() == Seq::<
            AlertsView,
        >::empty(),
{
    let once = ops.push(StoreOp::Drain);
    assert(once.push(StoreOp::Drain).drop_last() =~= once);
}

} // verus!
