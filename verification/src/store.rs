//! The alert store: pending batches, one per grouping key, in the order in
//! which their keys first appeared since the last drain.
//!
//! The store is modelled as a sequence of batches. Appending an event and
//! draining the store are the only two operations that change it.

use crate::alert::{Alert, AlertView, Alerts, AlertsView};
use vstd::prelude::*;

verus! {

/// The batches of a store as mathematical values.
pub open spec fn batches_view(batches: Seq<Alerts>) -> Seq<AlertsView> {
    batches.map_values(|b: Alerts| b@)
}

/// Index of the first batch keyed `key`, or `store.len()` where none is.
pub open spec fn first_with_key(store: Seq<AlertsView>, key: Seq<char>) -> int
    decreases store.len(),
{
    if store.len() == 0 {
        0
    } else if store[0].key == key {
        0
    } else {
        1 + first_with_key(store.skip(1), key)
    }
}

/// The events pending under `key`, oldest first; none where the store has no
/// batch for `key`.
pub open spec fn events_for(store: Seq<AlertsView>, key: Seq<char>) -> Seq<AlertView> {
    let i = first_with_key(store, key);
    if i < store.len() {
        store[i].notifications
    } else {
        Seq::empty()
    }
}

/// The number of events pending in the store, over all keys.
pub open spec fn total_events(store: Seq<AlertsView>) -> nat
    decreases store.len(),
{
    if store.len() == 0 {
        0
    } else {
        total_events(store.drop_last()) + store.last().notifications.len()
    }
}

/// The event that a submission of these three texts stands for.
pub open spec fn alert_of(text: Seq<char>, instrument: Seq<char>, timeframe: Seq<char>) -> AlertView {
    AlertView { text, instrument, timeframe }
}

/// The batch that the first event for `key` creates: bound to `url`, with an
/// empty strategy label.
pub open spec fn new_batch(key: Seq<char>, alert: AlertView, url: Seq<char>) -> AlertsView {
    AlertsView { key, strategy_name: Seq::empty(), server_name: url, notifications: seq![alert] }
}

/// The store after one event for `key` is appended. The batch for `key`
/// takes the event and keeps the destination it already has; where there is
/// no such batch, a new one bound to `url` is added behind the others.
pub open spec fn append_event(
    store: Seq<AlertsView>,
    key: Seq<char>,
    alert: AlertView,
    url: Seq<char>,
) -> Seq<AlertsView> {
    let i = first_with_key(store, key);
    if i < store.len() {
        store.update(i, store[i].with_alert(alert))
    } else {
        store.push(new_batch(key, alert, url))
    }
}

/// No two batches share a key, and no batch is empty.
pub open spec fn store_wf(store: Seq<AlertsView>) -> bool {
    &&& forall|i: int, j: int|
        0 <= i < j < store.len() ==> (#[trigger] store[i]).key != (#[trigger] store[j]).key
    &&& forall|i: int| 0 <= i < store.len() ==> (#[trigger] store[i]).notifications.len() > 0
}

/// `first_with_key` is the least index whose batch carries `key`.
pub proof fn lemma_first_with_key(store: Seq<AlertsView>, key: Seq<char>)
    ensures
        0 <= first_with_key(store, key) <= store.len(),
        forall|j: int| 0 <= j < first_with_key(store, key) ==> (#[trigger] store[j]).key != key,
        first_with_key(store, key) < store.len() ==> store[first_with_key(store, key)].key == key,
    decreases store.len(),
{
    if store.len() > 0 && store[0].key != key {
        let rest = store.skip(1);
        lemma_first_with_key(rest, key);
        assert forall|j: int| 0 <= j < first_with_key(store, key) implies (#[trigger] store[j]).key
            != key by {
            if j > 0 {
                assert(store[j] == rest[j - 1]);
            }
        }
    }
}

/// An index that no batch with `key` precedes, and that is either a batch
/// with `key` or the end of the store, is `first_with_key`.
pub proof fn lemma_first_with_key_is(store: Seq<AlertsView>, key: Seq<char>, i: int)
    requires
        0 <= i <= store.len(),
        forall|j: int| 0 <= j < i ==> (#[trigger] store[j]).key != key,
        i < store.len() ==> store[i].key == key,
    ensures
        first_with_key(store, key) == i,
{
    lemma_first_with_key(store, key);
}

/// In a well-formed store every batch is the one that its own key finds.
pub proof fn lemma_batch_found_by_its_key(store: Seq<AlertsView>, i: int)
    requires
        store_wf(store),
        0 <= i < store.len(),
    ensures
        first_with_key(store, store[i].key) == i,
        events_for(store, store[i].key) == store[i].notifications,
{
    lemma_first_with_key_is(store, store[i].key, i);
}

/// Replacing one batch changes the event count by the difference in size.
pub proof fn lemma_total_events_update(store: Seq<AlertsView>, i: int, batch: AlertsView)
    requires
        0 <= i < store.len(),
    ensures
        total_events(store.update(i, batch)) + store[i].notifications.len() == total_events(store)
            + batch.notifications.len(),
    decreases store.len(),
{
    let updated = store.update(i, batch);
    if i == store.len() - 1 {
        assert(updated.drop_last() =~= store.drop_last());
    } else {
        assert(updated.drop_last() =~= store.drop_last().update(i, batch));
        lemma_total_events_update(store.drop_last(), i, batch);
    }
}

/// Appending an event keeps keys distinct and batches non-empty.
pub proof fn lemma_append_event_wf(
    store: Seq<AlertsView>,
    key: Seq<char>,
    alert: AlertView,
    url: Seq<char>,
)
    requires
        store_wf(store),
    ensures
        store_wf(append_event(store, key, alert, url)),
{
    lemma_first_with_key(store, key);
}

/// Appending an event adds exactly one event to the store.
pub proof fn lemma_append_event_total(
    store: Seq<AlertsView>,
    key: Seq<char>,
    alert: AlertView,
    url: Seq<char>,
)
    ensures
        total_events(append_event(store, key, alert, url)) == total_events(store) + 1,
{
    lemma_first_with_key(store, key);
    let i = first_with_key(store, key);
    if i < store.len() {
        lemma_total_events_update(store, i, store[i].with_alert(alert));
    } else {
        let batch = new_batch(key, alert, url);
        assert(store.push(batch).drop_last() =~= store);
    }
}

/// An event appended under `key` lands behind the events pending under
/// `key`, and the events pending under every other key stay as they are.
pub proof fn lemma_append_event_events_for(
    store: Seq<AlertsView>,
    key: Seq<char>,
    alert: AlertView,
    url: Seq<char>,
    other: Seq<char>,
)
    ensures
        events_for(append_event(store, key, alert, url), key) == events_for(store, key).push(
            alert,
        ),
        other != key ==> events_for(append_event(store, key, alert, url), other) == events_for(
            store,
            other,
        ),
{
    lemma_first_with_key(store, key);
    lemma_first_with_key(store, other);
    let after = append_event(store, key, alert, url);
    let i = first_with_key(store, key);
    lemma_first_with_key_is(after, key, i);
    if other != key {
        let o = first_with_key(store, other);
        lemma_first_with_key_is(after, other, if o < store.len() {
            o
        } else {
            after.len() as int
        });
    }
}

/// The destination of a key is bound when its batch is opened: an append
/// under a key that has a batch leaves every destination as it is, whatever
/// `url` says, and an append under a new key binds `url`.
pub proof fn law_append_keeps_destinations(
    store: Seq<AlertsView>,
    key: Seq<char>,
    alert: AlertView,
    url: Seq<char>,
)
    ensures
        forall|i: int|
            0 <= i < store.len() ==> (#[trigger] append_event(store, key, alert, url)[i]).key
                == store[i].key,
        forall|i: int|
            0 <= i < store.len() ==> (#[trigger] append_event(
                store,
                key,
                alert,
                url,
            )[i]).server_name == store[i].server_name,
        forall|i: int|
            0 <= i < store.len() ==> (#[trigger] append_event(
                store,
                key,
                alert,
                url,
            )[i]).strategy_name == store[i].strategy_name,
        first_with_key(store, key) == store.len() ==> append_event(store, key, alert, url)
            == store.push(new_batch(key, alert, url)),
        first_with_key(store, key) < store.len() ==> append_event(store, key, alert, url).len()
            == store.len(),
{
    lemma_first_with_key(store, key);
}

/// Two submissions under a key that has no batch yet: the first opens the
/// batch and binds its destination, the second joins that batch, and the
/// destination it names is ignored.
pub proof fn law_first_submission_binds_destination(
    store: Seq<AlertsView>,
    key: Seq<char>,
    first: AlertView,
    first_url: Seq<char>,
    second: AlertView,
    second_url: Seq<char>,
)
    requires
        first_with_key(store, key) == store.len(),
    ensures
        append_event(append_event(store, key, first, first_url), key, second, second_url)
            == store.push(new_batch(key, first, first_url).with_alert(second)),
{
    lemma_first_with_key(store, key);
    let opened = store.push(new_batch(key, first, first_url));
    lemma_first_with_key_is(opened, key, store.len() as int);
    assert(opened.update(store.len() as int, opened[store.len() as int].with_alert(second))
        =~= store.push(new_batch(key, first, first_url).with_alert(second)));
}

/// The alert store.
pub struct AlertSender {
    alerts: Vec<Alerts>,
}

impl View for AlertSender {
    type V = Seq<AlertsView>;

    closed spec fn view(&self) -> Seq<AlertsView> {
        batches_view(self.alerts@)
    }
}

impl AlertSender {
    #[verifier::type_invariant]
    spec fn well_formed(self) -> bool {
        store_wf(self@)
    }

    /// An empty store.
    pub fn new() -> (sender: Self)
        ensures
            sender@ == Seq::<AlertsView>::empty(),
    {
        Self { alerts: Vec::new() }
    }

    /// Finds the batch for `key` among `alerts`, for the caller to extend.
    pub fn find_container<'a>(key: &String, alerts: &'a mut Vec<Alerts>) -> (found: Option<
        &'a mut Alerts,
    >)
        ensures
            found is Some <==> first_with_key(batches_view(old(alerts)@), key@) < old(alerts)@.len(),
            0 <= first_with_key(batches_view(old(alerts)@), key@) <= old(alerts)@.len(),
            found matches Some(c) ==> *c == old(alerts)@[first_with_key(
                batches_view(old(alerts)@),
                key@,
            )],
            found matches Some(c) ==> final(alerts)@ == old(alerts)@.update(
                first_with_key(batches_view(old(alerts)@), key@),
                *final(c),
            ),
            found is None ==> final(alerts)@ == old(alerts)@,
    {
        let mut i: usize = 0;
        while i < alerts.len()
            invariant
                0 <= i <= alerts.len(),
                alerts@ == old(alerts)@,
                forall|j: int| 0 <= j < i ==> (#[trigger] batches_view(alerts@)[j]).key != key@,
            decreases alerts.len() - i,
        {
            if alerts[i].key.eq(key) {
                proof {
                    lemma_first_with_key_is(batches_view(alerts@), key@, i as int);
                }
                return Some(&mut alerts[i]);
            }
            i = i + 1;
        }
        proof {
            lemma_first_with_key_is(batches_view(alerts@), key@, i as int);
        }
        None
    }

    /// Appends one event under `key`. `url` binds the destination only when
    /// this event opens a new batch.
    pub fn send_alert(
        &mut self,
        key: &String,
        text: &String,
        instrument: &String,
        timeframe: &String,
        url: &String,
    )
        ensures
            final(self)@ == append_event(
                old(self)@,
                key@,
                alert_of(text@, instrument@, timeframe@),
                url@,
            ),
    {
        proof {
            use_type_invariant(&*self);
        }
        let alert = Alert {
            text: text.clone(),
            instrument: instrument.clone(),
            timeframe: timeframe.clone(),
        };
        let ghost before = self@;
        let mut batches: Vec<Alerts> = Vec::new();
        std::mem::swap(&mut batches, &mut self.alerts);
        let container = Self::find_container(key, &mut batches);
        match container {
            None => {
                let mut new_container = Alerts {
                    key: key.clone(),
                    server_name: url.clone(),
                    notifications: Vec::new(),
                    strategy_name: String::new(),
                };
                new_container.add(alert);
                assert(new_container@.notifications =~= seq![alert@]);
                batches.push(new_container);
                assert(batches_view(batches@) =~= before.push(new_batch(key@, alert@, url@)));
            },
            Some(c) => {
                let ghost i = first_with_key(before, key@);
                c.add(alert);
                assert(batches_view(batches@) =~= before.update(i, before[i].with_alert(alert@)));
            },
        }
        proof {
            lemma_append_event_wf(before, key@, alert@, url@);
        }
        self.alerts = batches;
    }

    /// Takes every pending batch out of the store and leaves it empty. The
    /// batches come back in store order, each under a key of its own and
    /// none of them empty.
    pub fn drain_and_clear(&mut self) -> (drained: Vec<Alerts>)
        ensures
            batches_view(drained@) == old(self)@,
            final(self)@ == Seq::<AlertsView>::empty(),
            store_wf(batches_view(drained@)),
    {
        proof {
            use_type_invariant(&*self);
        }
        let mut drained: Vec<Alerts> = Vec::new();
        std::mem::swap(&mut drained, &mut self.alerts);
        drained
    }

    /// The number of keys with pending events.
    pub fn len(&self) -> (count: usize)
        ensures
            count == self@.len(),
    {
        self.alerts.len()
    }

    /// Whether nothing is pending.
    pub fn is_empty(&self) -> (empty: bool)
        ensures
            empty <==> self@.len() == 0,
    {
        self.alerts.len() == 0
    }
}

} // verus!
