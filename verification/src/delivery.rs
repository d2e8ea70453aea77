//! What is sent for a batch, and where it goes.

use crate::alert::{Alerts, AlertsView};
use crate::encoding::json_text;
use crate::formatter::{document_tree, format_alerts};
use vstd::prelude::*;
use vstd::string::StringExecFns;

verus! {

/// The path of the notification endpoint below a destination's base URL.
pub const API_PATH: &'static str = "/api/v1/Notification";

/// The content type that every POST declares.
pub const CONTENT_TYPE_JSON: &'static str = "application/json";

/// One POST that is due: the full URL and the JSON body.
#[derive(Clone, Debug, PartialEq)]
pub struct Delivery {
    pub url: String,
    pub body: String,
}

/// A due POST as plain text.
pub struct DeliveryView {
    pub url: Seq<char>,
    pub body: Seq<char>,
}

impl View for Delivery {
    type V = DeliveryView;

    open spec fn view(&self) -> DeliveryView {
        DeliveryView { url: self.url@, body: self.body@ }
    }
}

/// The POST for a batch: its document, sent to the notification endpoint of
/// the batch's destination.
pub open spec fn delivery_for(batch: AlertsView) -> DeliveryView {
    DeliveryView { url: batch.server_name + API_PATH@, body: json_text(document_tree(batch)) }
}

/// What is due for a batch: nothing for a batch without events.
pub open spec fn delivery_of(batch: AlertsView) -> Option<DeliveryView> {
    if batch.notifications.len() == 0 {
        None
    } else {
        Some(delivery_for(batch))
    }
}

impl Delivery {
    /// Addresses `body` to the notification endpoint below `server_name`.
    pub fn to_server(server_name: &String, body: String) -> (delivery: Delivery)
        ensures
            delivery@.url == server_name@ + API_PATH@,
            delivery@.body == body@,
    {
        let mut url = server_name.clone();
        url.append(API_PATH);
        Delivery { url, body }
    }
}

/// Turns batches into deliveries. It holds no state: what is due for a batch
/// depends on the batch alone.
pub struct AlertSenderImpl {}

impl AlertSenderImpl {
    pub fn new() -> Self {
        Self {}
    }

    /// The POST that is due for `alerts_container`, or `None` for a batch
    /// without events.
    pub fn send_alerts(&self, alerts_container: &Alerts) -> (delivery: Option<Delivery>)
        ensures
            delivery is Some <==> alerts_container@.notifications.len() > 0,
            delivery matches Some(d) ==> d@ == delivery_for(alerts_container@),
    {
        if alerts_container.notifications.len() == 0 {
            return None;
        }
        match format_alerts(alerts_container) {
            Ok(json) => Some(Delivery::to_server(&alerts_container.server_name, json)),
            Err(_) => None,
        }
    }
}

} // verus!
