//! The flush cycle: what the background worker does with the batches that one
//! drain took out of the store.
//!
//! The worker performs the I/O and this module decides. A cycle is stepped
//! with the event that the worker last saw, and answers with the next thing
//! to do: a POST to send, or the pause that ends the cycle.

use crate::alert::{Alerts, AlertsView};
use crate::delivery::{delivery_of, AlertSenderImpl, Delivery, DeliveryView};
use crate::store::batches_view;
use vstd::prelude::*;

verus! {

/// Seconds between the end of one flush cycle and the next drain.
pub const FLUSH_PERIOD_SECS: u64 = 1;

/// What the worker reports when it steps a cycle.
#[derive(Clone, Copy, Debug, PartialEq, Eq)]
pub enum FlushEvent {
    /// The cycle has just begun; nothing was sent yet.
    Started,
    /// The POST that the last step asked for was accepted.
    Delivered,
    /// The POST that the last step asked for failed.
    Failed,
}

/// The event that the answer to a POST stands for. `status` is the HTTP
/// status where the server answered, and `None` where the request failed
/// before an answer came. Only a status from 200 to 299 counts as delivered.
pub open spec fn outcome_of(status: Option<u16>) -> FlushEvent {
    match status {
        Some(code) => if 200 <= code < 300 {
            FlushEvent::Delivered
        } else {
            FlushEvent::Failed
        },
        None => FlushEvent::Failed,
    }
}

impl FlushEvent {
    /// Classifies the answer to a POST.
    pub fn of_response(status: Option<u16>) -> (event: FlushEvent)
        ensures
            event == outcome_of(status),
    {
        match status {
            Some(code) => if 200 <= code && code < 300 {
                FlushEvent::Delivered
            } else {
                FlushEvent::Failed
            },
            None => FlushEvent::Failed,
        }
    }
}

/// What the worker has to do next.
#[derive(Clone, Debug, PartialEq)]
pub enum FlushAction {
    /// Send this POST, then step again with its outcome.
    Post(Delivery),
    /// The cycle is over: pause for this many seconds, then drain again.
    Sleep(u64),
}

/// A [`FlushAction`] as a plain value.
pub enum FlushActionView {
    Post(DeliveryView),
    Sleep(u64),
}

impl View for FlushAction {
    type V = FlushActionView;

    open spec fn view(&self) -> FlushActionView {
        match self {
            FlushAction::Post(delivery) => FlushActionView::Post(delivery@),
            FlushAction::Sleep(seconds) => FlushActionView::Sleep(*seconds),
        }
    }
}

/// One step of a cycle over the batches in `pending`: the batches that are
/// left afterwards, and the action. Batches without events are passed over.
/// A failed POST is not retried and holds nothing up: the event plays no
/// part in the answer.
pub open spec fn next_step(pending: Seq<AlertsView>, event: FlushEvent) -> (
    Seq<AlertsView>,
    FlushActionView,
)
    decreases pending.len(),
{
    if pending.len() == 0 {
        (pending, FlushActionView::Sleep(FLUSH_PERIOD_SECS))
    } else {
        match delivery_of(pending[0]) {
            Some(delivery) => (pending.skip(1), FlushActionView::Post(delivery)),
            None => next_step(pending.skip(1), event),
        }
    }
}

/// The POSTs that are due for `batches`: one for each batch that holds
/// events, in the order of the batches.
pub open spec fn deliveries_of(batches: Seq<AlertsView>) -> Seq<DeliveryView>
    decreases batches.len(),
{
    if batches.len() == 0 {
        Seq::empty()
    } else {
        match delivery_of(batches[0]) {
            Some(delivery) => seq![delivery] + deliveries_of(batches.skip(1)),
            None => deliveries_of(batches.skip(1)),
        }
    }
}

/// The POSTs that a worker sends from step `step` of a cycle on, with
/// `pending` still to handle, when it reports `events(n)` at step `n`.
pub open spec fn posts_in_cycle(
    pending: Seq<AlertsView>,
    events: spec_fn(nat) -> FlushEvent,
    step: nat,
) -> Seq<DeliveryView>
    decreases pending.len(),
{
    let (rest, action) = next_step(pending, events(step));
    match action {
        FlushActionView::Sleep(_) => Seq::empty(),
        FlushActionView::Post(delivery) => {
            proof {
                law_step_makes_progress(pending, events(step));
            }
            seq![delivery] + posts_in_cycle(rest, events, step + 1)
        },
    }
}

/// A step that asks for a POST leaves fewer batches than it found. A step
/// that finds nothing due ends the cycle: nothing is left, and the pause is
/// the flush period.
pub proof fn law_step_makes_progress(pending: Seq<AlertsView>, event: FlushEvent)
    ensures
        next_step(pending, event).0.len() <= pending.len(),
        next_step(pending, event).1 is Post ==> next_step(pending, event).0.len() < pending.len(),
        next_step(pending, event).1 is Sleep ==> next_step(pending, event).0.len() == 0,
        next_step(pending, event).1 is Sleep ==> next_step(pending, event).1
            == FlushActionView::Sleep(FLUSH_PERIOD_SECS),
    decreases pending.len(),
{
    if pending.len() > 0 && pending[0].notifications.len() == 0 {
        law_step_makes_progress(pending.skip(1), event);
    }
}

/// A step answers the same whatever event it is given: a failed POST
/// changes neither what is sent next nor when the cycle ends.
pub proof fn law_failure_changes_nothing(
    pending: Seq<AlertsView>,
    event: FlushEvent,
    other: FlushEvent,
)
    ensures
        next_step(pending, event) == next_step(pending, other),
    decreases pending.len(),
{
    if pending.len() > 0 && pending[0].notifications.len() == 0 {
        law_failure_changes_nothing(pending.skip(1), event, other);
    }
}

/// Whatever the outcomes of the POSTs, a cycle sends one POST for every
/// batch that holds events, in order, and none twice.
pub proof fn law_cycle_posts_every_batch(
    pending: Seq<AlertsView>,
    events: spec_fn(nat) -> FlushEvent,
    step: nat,
)
    ensures
        posts_in_cycle(pending, events, step) == deliveries_of(pending),
    decreases pending.len(),
{
    if pending.len() > 0 {
        let rest = pending.skip(1);
        if pending[0].notifications.len() == 0 {
            law_cycle_posts_every_batch(rest, events, step);
        } else {
            law_cycle_posts_every_batch(rest, events, step + 1);
        }
    }
}

/// A flush cycle in progress: the drained batches that were not handled yet.
pub struct FlushCycle {
    sender: AlertSenderImpl,
    batches: Vec<Alerts>,
    next: usize,
}

impl View for FlushCycle {
    type V = Seq<AlertsView>;

    /// The batches that are still to be handled, in order.
    closed spec fn view(&self) -> Seq<AlertsView> {
        batches_view(self.batches@).skip(self.next as int)
    }
}

impl FlushCycle {
    #[verifier::type_invariant]
    spec fn well_formed(self) -> bool {
        self.next <= self.batches@.len()
    }

    /// A cycle over the batches that a drain returned.
    pub fn new(drained: Vec<Alerts>) -> (cycle: Self)
        ensures
            cycle@ == batches_view(drained@),
    {
        Self { sender: AlertSenderImpl::new(), batches: drained, next: 0 }
    }

    /// Advances the cycle by one action.
    pub fn step(&mut self, event: FlushEvent) -> (action: FlushAction)
        ensures
            (final(self)@, action@) == next_step(old(self)@, event),
    {
        proof {
            use_type_invariant(&*self);
        }
        let ghost all = batches_view(self.batches@);
        let mut next = self.next;
        while next < self.batches.len()
            invariant
                self.batches == old(self).batches,
                all == batches_view(self.batches@),
                old(self).next <= next <= self.batches@.len(),
                next_step(all.skip(next as int), event) == next_step(old(self)@, event),
            decreases self.batches@.len() - next,
        {
            assert(all.skip(next as int).skip(1) =~= all.skip(next + 1));
            let due = self.sender.send_alerts(&self.batches[next]);
            next = next + 1;
            if let Some(delivery) = due {
                self.next = next;
                return FlushAction::Post(delivery);
            }
        }
        self.next = next;
        FlushAction::Sleep(FLUSH_PERIOD_SECS)
    }
}

} // verus!
