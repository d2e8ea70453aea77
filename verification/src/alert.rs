//! Events and the per-key batches that collect them.

use vstd::prelude::*;

verus! {

/// One notification as a producer submitted it.
#[derive(Clone, Debug, PartialEq)]
pub struct Alert {
    pub text: String,
    pub instrument: String,
    pub timeframe: String,
}

/// What an [`Alert`] says, as plain text.
pub struct AlertView {
    pub text: Seq<char>,
    pub instrument: Seq<char>,
    pub timeframe: Seq<char>,
}

impl View for Alert {
    type V = AlertView;

    open spec fn view(&self) -> AlertView {
        AlertView { text: self.text@, instrument: self.instrument@, timeframe: self.timeframe@ }
    }
}

/// The events pending for one grouping key, with the destination they go to.
#[derive(Clone, Debug, PartialEq)]
pub struct Alerts {
    pub key: String,
    pub strategy_name: String,
    pub server_name: String,
    pub notifications: Vec<Alert>,
}

/// The mathematical content of a batch.
pub struct AlertsView {
    pub key: Seq<char>,
    pub strategy_name: Seq<char>,
    pub server_name: Seq<char>,
    pub notifications: Seq<AlertView>,
}

impl View for Alerts {
    type V = AlertsView;

    open spec fn view(&self) -> AlertsView {
        AlertsView {
            key: self.key@,
            strategy_name: self.strategy_name@,
            server_name: self.server_name@,
            notifications: self.notifications@.map_values(|a: Alert| a@),
        }
    }
}

impl AlertsView {
    /// The batch with `alert` added behind the events it already holds.
    pub open spec fn with_alert(self, alert: AlertView) -> AlertsView {
        AlertsView { notifications: self.notifications.push(alert), ..self }
    }
}

impl Alerts {
    /// Appends `alert` to the batch; key and destination stay as they are.
    pub fn add(&mut self, alert: Alert)
        ensures
            final(self)@ == old(self)@.with_alert(alert@),
    {
        self.notifications.push(alert);
        assert(self.notifications@.map_values(|a: Alert| a@) =~= old(self).notifications@.map_values(
            |a: Alert| a@,
        ).push(alert@));
    }
}

} // verus!
