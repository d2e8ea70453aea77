//! The payload formatter: one batch in, one JSON document out.

use crate::alert::{Alert, AlertView, Alerts, AlertsView};
use crate::encoding::{
    dump, json_text, json_tree, lemma_with_member_fresh, member_of, new_array, new_object,
    push_item, set_member, text_member, text_value, JsonTree,
};
use vstd::prelude::*;

verus! {

/// The product label that every document carries.
pub const PLATFORM: &'static str = "MetaTrader";

/// The entry of the `Notifications` array for one event.
pub open spec fn notification_tree(alert: AlertView) -> JsonTree {
    JsonTree::Object(
        seq![
            ("Text"@, JsonTree::Text(alert.text)),
            ("Instrument"@, JsonTree::Text(alert.instrument)),
            ("TimeFrame"@, JsonTree::Text(alert.timeframe)),
        ],
    )
}

/// The document for a batch: its key, its strategy label, the product label,
/// and one entry per event, in the order of submission.
pub open spec fn document_tree(batch: AlertsView) -> JsonTree {
    JsonTree::Object(
        seq![
            ("Key"@, JsonTree::Text(batch.key)),
            ("StrategyName"@, JsonTree::Text(batch.strategy_name)),
            ("Platform"@, JsonTree::Text(PLATFORM@)),
            (
                "Notifications"@,
                JsonTree::Array(batch.notifications.map_values(|a: AlertView| notification_tree(a))),
            ),
        ],
    )
}

/// The event that an entry of the `Notifications` array stands for, read
/// back from its three members.
pub open spec fn read_notification(entry: JsonTree) -> Option<AlertView> {
    match (
        text_member(entry, "Text"@),
        text_member(entry, "Instrument"@),
        text_member(entry, "TimeFrame"@),
    ) {
        (Some(text), Some(instrument), Some(timeframe)) => Some(
            AlertView { text, instrument, timeframe },
        ),
        _ => None,
    }
}

/// The events that the `Notifications` array of a document stands for:
/// `None` where the array is missing or an entry cannot be read.
pub open spec fn read_notifications(document: JsonTree) -> Option<Seq<AlertView>> {
    match member_of(document.members(), "Notifications"@) {
        Some(JsonTree::Array(entries)) => if forall|i: int|
            0 <= i < entries.len() ==> read_notification(#[trigger] entries[i]) is Some {
            Some(entries.map_values(|entry: JsonTree| read_notification(entry).unwrap()))
        } else {
            None
        },
        _ => None,
    }
}

/// The member names of a document differ in length, and so from each other.
proof fn lemma_member_names()
    ensures
        "Key"@.len() == 3,
        "StrategyName"@.len() == 12,
        "Platform"@.len() == 8,
        "Notifications"@.len() == 13,
        "Text"@.len() == 4,
        "Instrument"@.len() == 10,
        "TimeFrame"@.len() == 9,
{
    reveal_strlit("Key");
    reveal_strlit("StrategyName");
    reveal_strlit("Platform");
    reveal_strlit("Notifications");
    reveal_strlit("Text");
    reveal_strlit("Instrument");
    reveal_strlit("TimeFrame");
}

/// Sets a string member under a name that `target` does not carry yet.
fn put_text(target: &mut json::JsonValue, name: &str, text: String)
    requires
        json_tree(*old(target)) is Object,
        forall|i: int|
            0 <= i < json_tree(*old(target)).members().len() ==> (
            #[trigger] json_tree(*old(target)).members()[i]).0 != name@,
    ensures
        json_tree(*final(target)) == JsonTree::Object(
            json_tree(*old(target)).members().push((name@, JsonTree::Text(text@))),
        ),
{
    proof {
        lemma_with_member_fresh(json_tree(*target).members(), name@, JsonTree::Text(text@));
    }
    set_member(target, name, text_value(text));
}

/// Builds the array entry for one event.
fn notification_value(notification: &Alert) -> (value: json::JsonValue)
    ensures
        json_tree(value) == notification_tree(notification@),
{
    proof {
        lemma_member_names();
    }
    let mut alert = new_object();
    put_text(&mut alert, "Text", notification.text.clone());
    put_text(&mut alert, "Instrument", notification.instrument.clone());
    put_text(&mut alert, "TimeFrame", notification.timeframe.clone());
    assert(json_tree(alert).members() =~= notification_tree(notification@).members());
    alert
}

/// Renders the document for a batch. The fixed schema cannot fail to
/// serialise, so the result is always `Ok`.
pub fn format_alerts(alerts: &Alerts) -> (result: Result<String, bool>)
    ensures
        result matches Ok(text) && text@ == json_text(document_tree(alerts@)),
{
    proof {
        lemma_member_names();
    }
    let mut out = new_object();
    put_text(&mut out, "Key", alerts.key.clone());
    put_text(&mut out, "StrategyName", alerts.strategy_name.clone());
    put_text(&mut out, "Platform", PLATFORM.to_owned());

    let ghost entries = alerts@.notifications.map_values(|a: AlertView| notification_tree(a));
    let mut notifications = new_array();
    assert(entries.take(0) =~= Seq::<JsonTree>::empty());
    let mut i: usize = 0;
    while i < alerts.notifications.len()
        invariant
            0 <= i <= alerts.notifications.len(),
            entries == alerts@.notifications.map_values(|a: AlertView| notification_tree(a)),
            json_tree(notifications) == JsonTree::Array(entries.take(i as int)),
        decreases alerts.notifications.len() - i,
    {
        let alert = notification_value(&alerts.notifications[i]);
        if let Err(_r) = push_item(&mut notifications, alert) {
            return Err(false);
        }
        assert(entries.take(i as int).push(entries[i as int]) =~= entries.take(i + 1));
        i = i + 1;
    }
    assert(entries.take(i as int) =~= entries);
    proof {
        lemma_with_member_fresh(
            json_tree(out).members(),
            "Notifications"@,
            JsonTree::Array(entries),
        );
    }
    set_member(&mut out, "Notifications", notifications);
    proof {
        assert(json_tree(out).members() =~= document_tree(alerts@).members());
        lemma_document_is_textual(alerts@);
    }
    Ok(dump(&out))
}

/// Reading an entry of the array gives back the event it was made from.
pub proof fn lemma_notification_round_trip(alert: AlertView)
    ensures
        read_notification(notification_tree(alert)) == Some(alert),
{
    lemma_member_names();
    reveal_with_fuel(member_of, 4);
}

/// A document gives back what it was made from: the key and the strategy
/// label of the batch, the product label, and one entry per event of the
/// batch, each with the texts of that event, in the order of submission.
pub proof fn law_document_round_trip(batch: AlertsView)
    ensures
        text_member(document_tree(batch), "Key"@) == Some(batch.key),
        text_member(document_tree(batch), "StrategyName"@) == Some(batch.strategy_name),
        text_member(document_tree(batch), "Platform"@) == Some(PLATFORM@),
        read_notifications(document_tree(batch)) == Some(batch.notifications),
{
    lemma_member_names();
    reveal_with_fuel(member_of, 5);
    let entries = batch.notifications.map_values(|a: AlertView| notification_tree(a));
    assert forall|i: int| 0 <= i < entries.len() implies read_notification(
        #[trigger] entries[i],
    ) == Some(batch.notifications[i]) by {
        lemma_notification_round_trip(batch.notifications[i]);
    }
}

/// A document holds strings, arrays and objects only.
pub proof fn lemma_document_is_textual(batch: AlertsView)
    ensures
        document_tree(batch).is_textual(),
{
    let entries = batch.notifications.map_values(|a: AlertView| notification_tree(a));
    assert forall|i: int| 0 <= i < entries.len() implies (#[trigger] entries[i]).is_textual() by {
        let members = entries[i].members();
        assert forall|j: int| 0 <= j < members.len() implies (#[trigger] members[j]).1.is_textual() by {
            assert(members[j].1 is Text);
        }
    }
    let members = document_tree(batch).members();
    assert forall|j: int| 0 <= j < members.len() implies (#[trigger] members[j]).1.is_textual() by {
        if j == 3 {
            assert(members[j].1 == JsonTree::Array(entries));
        }
    }
}

} // verus!
