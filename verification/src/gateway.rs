//! The alert gateway: the entry point that producers call.

use crate::alert::{Alerts, AlertsView};
use crate::endpoint::{get_server, server_for, SERVER_TYPE_PROFIT_ROBOTS};
use crate::store::{alert_of, append_event, batches_view, store_wf, AlertSender};
use crate::wide::{decode_utf16, text_of, utf16_text};
use vstd::prelude::*;

verus! {

/// The store after a submission whose five texts were decoded to the given
/// values. Where any of them could not be decoded the event is dropped and
/// the store stays as it is.
pub open spec fn submit_decoded(
    store: Seq<AlertsView>,
    key: Option<Seq<char>>,
    text: Option<Seq<char>>,
    instrument: Option<Seq<char>>,
    timeframe: Option<Seq<char>>,
    url: Option<Seq<char>>,
) -> Seq<AlertsView> {
    if all_decoded(key, text, instrument, timeframe, url) {
        append_event(
            store,
            key.unwrap(),
            alert_of(text.unwrap(), instrument.unwrap(), timeframe.unwrap()),
            url.unwrap(),
        )
    } else {
        store
    }
}

/// Whether each of the five texts of a submission was decoded.
pub open spec fn all_decoded(
    key: Option<Seq<char>>,
    text: Option<Seq<char>>,
    instrument: Option<Seq<char>>,
    timeframe: Option<Seq<char>>,
    url: Option<Seq<char>>,
) -> bool {
    key is Some && text is Some && instrument is Some && timeframe is Some && url is Some
}

/// A gateway and the store it owns.
pub struct PRConnection {
    alerts_sender: AlertSender,
}

impl View for PRConnection {
    type V = Seq<AlertsView>;

    closed spec fn view(&self) -> Seq<AlertsView> {
        self.alerts_sender@
    }
}

impl PRConnection {
    /// A gateway over an empty store.
    pub fn new() -> (connection: Self)
        ensures
            connection@ == Seq::<AlertsView>::empty(),
    {
        Self { alerts_sender: AlertSender::new() }
    }

    /// Submits one event under `key`; see [`AlertSender::send_alert`].
    pub fn send_alert(
        &mut self,
        key: &String,
        text: &String,
        instrument: &String,
        timeframe: &String,
        url: &String,
    )
        ensures
            final(self)@ == append_event(
                old(self)@,
                key@,
                alert_of(text@, instrument@, timeframe@),
                url@,
            ),
    {
        self.alerts_sender.send_alert(key, text, instrument, timeframe, url);
    }

    /// Submits an event whose texts come from a decoder: `None` stands for a
    /// text that could not be decoded. The event is appended where all five
    /// are there, and dropped otherwise; the result says which.
    pub fn send_decoded(
        &mut self,
        key: Option<String>,
        text: Option<String>,
        instrument: Option<String>,
        timeframe: Option<String>,
        url: Option<String>,
    ) -> (accepted: bool)
        ensures
            accepted <==> all_decoded(
                text_of(key),
                text_of(text),
                text_of(instrument),
                text_of(timeframe),
                text_of(url),
            ),
            final(self)@ == submit_decoded(
                old(self)@,
                text_of(key),
                text_of(text),
                text_of(instrument),
                text_of(timeframe),
                text_of(url),
            ),
    {
        match (key, text, instrument, timeframe, url) {
            (Some(key), Some(text), Some(instrument), Some(timeframe), Some(url)) => {
                self.alerts_sender.send_alert(&key, &text, &instrument, &timeframe, &url);
                true
            },
            _ => false,
        }
    }

    /// Submits an event given as UTF-16 text, for the production endpoint.
    /// An event with a text that is not valid UTF-16 is dropped.
    pub fn advanced_alert(
        &mut self,
        key: &[u16],
        text: &[u16],
        instrument: &[u16],
        timeframe: &[u16],
    ) -> (accepted: bool)
        ensures
            accepted <==> all_decoded(
                utf16_text(key@),
                utf16_text(text@),
                utf16_text(instrument@),
                utf16_text(timeframe@),
                Some(server_for(SERVER_TYPE_PROFIT_ROBOTS)),
            ),
            final(self)@ == submit_decoded(
                old(self)@,
                utf16_text(key@),
                utf16_text(text@),
                utf16_text(instrument@),
                utf16_text(timeframe@),
                Some(server_for(SERVER_TYPE_PROFIT_ROBOTS)),
            ),
    {
        self.send_decoded(
            decode_utf16(key),
            decode_utf16(text),
            decode_utf16(instrument),
            decode_utf16(timeframe),
            Some(get_server(SERVER_TYPE_PROFIT_ROBOTS)),
        )
    }

    /// Submits an event given as UTF-16 text, for the destination `url`.
    /// An event with a text that is not valid UTF-16 is dropped.
    pub fn advanced_alert_custom(
        &mut self,
        key: &[u16],
        text: &[u16],
        instrument: &[u16],
        timeframe: &[u16],
        url: &[u16],
    ) -> (accepted: bool)
        ensures
            accepted <==> all_decoded(
                utf16_text(key@),
                utf16_text(text@),
                utf16_text(instrument@),
                utf16_text(timeframe@),
                utf16_text(url@),
            ),
            final(self)@ == submit_decoded(
                old(self)@,
                utf16_text(key@),
                utf16_text(text@),
                utf16_text(instrument@),
                utf16_text(timeframe@),
                utf16_text(url@),
            ),
    {
        self.send_decoded(
            decode_utf16(key),
            decode_utf16(text),
            decode_utf16(instrument),
            decode_utf16(timeframe),
            decode_utf16(url),
        )
    }

    /// Takes every pending batch for one flush cycle and leaves the store
    /// empty; see [`AlertSender::drain_and_clear`].
    pub fn drain_and_clear(&mut self) -> (drained: Vec<Alerts>)
        ensures
            batches_view(drained@) == old(self)@,
            final(self)@ == Seq::<AlertsView>::empty(),
            store_wf(batches_view(drained@)),
    {
        self.alerts_sender.drain_and_clear()
    }

    /// Whether nothing is pending.
    pub fn is_empty(&self) -> (empty: bool)
        ensures
            empty <==> self@.len() == 0,
    {
        self.alerts_sender.is_empty()
    }
}

} // verus!
