use alert_relay::alert::{Alert, Alerts};
use alert_relay::store::AlertSender;

fn s(text: &str) -> String {
    String::from(text)
}

fn submit(store: &mut AlertSender, key: &str, text: &str, instrument: &str, timeframe: &str, url: &str) {
    store.send_alert(&s(key), &s(text), &s(instrument), &s(timeframe), &s(url));
}

fn alert(text: &str, instrument: &str, timeframe: &str) -> Alert {
    Alert { text: s(text), instrument: s(instrument), timeframe: s(timeframe) }
}

fn batch(key: &str, url: &str, notifications: Vec<Alert>) -> Alerts {
    Alerts { key: s(key), strategy_name: s(""), server_name: s(url), notifications }
}

#[test]
fn new_store_is_empty() {
    let mut store = AlertSender::new();
    assert!(store.is_empty());
    assert_eq!(store.len(), 0);
    assert_eq!(store.drain_and_clear(), Vec::<Alerts>::new());
}

#[test]
fn first_event_opens_a_batch() {
    let mut store = AlertSender::new();
    submit(&mut store, "S1", "Buy", "EUR", "1H", "http://host");
    assert!(!store.is_empty());
    assert_eq!(store.len(), 1);
    let drained = store.drain_and_clear();
    assert_eq!(drained, vec![batch("S1", "http://host", vec![alert("Buy", "EUR", "1H")])]);
}

#[test]
fn new_batch_has_an_empty_strategy_label() {
    let mut store = AlertSender::new();
    submit(&mut store, "S1", "Buy", "EUR", "1H", "http://host");
    let drained = store.drain_and_clear();
    assert_eq!(drained[0].strategy_name, "");
}

#[test]
fn events_of_one_key_share_a_batch_in_submission_order() {
    let mut store = AlertSender::new();
    submit(&mut store, "S1", "Buy", "EUR", "1H", "http://host");
    submit(&mut store, "S1", "Sell", "GBP", "4H", "http://host");
    submit(&mut store, "S1", "Hold", "JPY", "1D", "http://host");
    assert_eq!(store.len(), 1);
    let drained = store.drain_and_clear();
    assert_eq!(
        drained,
        vec![batch(
            "S1",
            "http://host",
            vec![alert("Buy", "EUR", "1H"), alert("Sell", "GBP", "4H"), alert("Hold", "JPY", "1D")],
        )]
    );
}

#[test]
fn events_of_different_keys_never_mix() {
    let mut store = AlertSender::new();
    submit(&mut store, "A", "a1", "EUR", "1H", "http://a");
    submit(&mut store, "B", "b1", "GBP", "4H", "http://b");
    submit(&mut store, "A", "a2", "EUR", "1H", "http://a");
    submit(&mut store, "B", "b2", "GBP", "4H", "http://b");
    let drained = store.drain_and_clear();
    assert_eq!(
        drained,
        vec![
            batch("A", "http://a", vec![alert("a1", "EUR", "1H"), alert("a2", "EUR", "1H")]),
            batch("B", "http://b", vec![alert("b1", "GBP", "4H"), alert("b2", "GBP", "4H")]),
        ]
    );
}

#[test]
fn batches_stand_in_order_of_first_appearance() {
    let mut store = AlertSender::new();
    submit(&mut store, "Z", "1", "i", "t", "u");
    submit(&mut store, "A", "2", "i", "t", "u");
    submit(&mut store, "M", "3", "i", "t", "u");
    submit(&mut store, "A", "4", "i", "t", "u");
    let drained = store.drain_and_clear();
    let keys: Vec<&str> = drained.iter().map(|b| b.key.as_str()).collect();
    assert_eq!(keys, vec!["Z", "A", "M"]);
}

#[test]
fn keys_are_compared_exactly() {
    let mut store = AlertSender::new();
    submit(&mut store, "s1", "1", "i", "t", "u");
    submit(&mut store, "S1", "2", "i", "t", "u");
    submit(&mut store, "S1 ", "3", "i", "t", "u");
    submit(&mut store, "", "4", "i", "t", "u");
    assert_eq!(store.len(), 4);
}

#[test]
fn destination_is_bound_by_the_event_that_opens_the_batch() {
    let mut store = AlertSender::new();
    submit(&mut store, "S1", "Buy", "EUR", "1H", "http://first");
    submit(&mut store, "S1", "Sell", "GBP", "4H", "http://second");
    let drained = store.drain_and_clear();
    assert_eq!(drained.len(), 1);
    assert_eq!(drained[0].server_name, "http://first");
    assert_eq!(drained[0].notifications.len(), 2);
}

#[test]
fn destination_is_bound_anew_after_a_drain() {
    let mut store = AlertSender::new();
    submit(&mut store, "S1", "Buy", "EUR", "1H", "http://first");
    store.drain_and_clear();
    submit(&mut store, "S1", "Sell", "GBP", "4H", "http://second");
    let drained = store.drain_and_clear();
    assert_eq!(drained, vec![batch("S1", "http://second", vec![alert("Sell", "GBP", "4H")])]);
}

#[test]
fn drain_leaves_the_store_empty() {
    let mut store = AlertSender::new();
    submit(&mut store, "A", "1", "i", "t", "u");
    submit(&mut store, "B", "2", "i", "t", "u");
    assert_eq!(store.drain_and_clear().len(), 2);
    assert!(store.is_empty());
    assert_eq!(store.len(), 0);
}

#[test]
fn immediate_second_drain_returns_nothing() {
    let mut store = AlertSender::new();
    submit(&mut store, "A", "1", "i", "t", "u");
    let first = store.drain_and_clear();
    let second = store.drain_and_clear();
    assert_eq!(first.len(), 1);
    assert_eq!(second, Vec::<Alerts>::new());
}

#[test]
fn second_drain_returns_only_what_came_after_the_first() {
    let mut store = AlertSender::new();
    submit(&mut store, "A", "old", "i", "t", "u");
    let first = store.drain_and_clear();
    submit(&mut store, "A", "new", "i", "t", "u");
    submit(&mut store, "B", "other", "i", "t", "u");
    let second = store.drain_and_clear();
    assert_eq!(first, vec![batch("A", "u", vec![alert("old", "i", "t")])]);
    assert_eq!(
        second,
        vec![
            batch("A", "u", vec![alert("new", "i", "t")]),
            batch("B", "u", vec![alert("other", "i", "t")]),
        ]
    );
}

#[test]
fn no_event_is_lost_or_repeated_across_drains() {
    let mut store = AlertSender::new();
    let keys = ["A", "B", "C"];
    let mut submitted = 0usize;
    let mut drained = 0usize;
    for round in 0..7usize {
        for n in 0..(round * 3 + 1) {
            let key = keys[(n + round) % 3];
            submit(&mut store, key, &format!("{}-{}", round, n), "i", "t", "u");
            submitted += 1;
        }
        if round % 2 == 1 {
            for b in store.drain_and_clear() {
                drained += b.notifications.len();
            }
        }
    }
    for b in store.drain_and_clear() {
        drained += b.notifications.len();
    }
    assert_eq!(submitted, 70);
    assert_eq!(drained, 70);
    assert!(store.is_empty());
}

#[test]
fn every_drained_event_keeps_its_key_and_order() {
    let mut store = AlertSender::new();
    let mut seen_a: Vec<String> = Vec::new();
    let mut seen_b: Vec<String> = Vec::new();
    for n in 0..10usize {
        submit(&mut store, if n % 2 == 0 { "A" } else { "B" }, &format!("{}", n), "i", "t", "u");
        if n % 3 == 2 {
            for b in store.drain_and_clear() {
                for a in b.notifications {
                    if b.key == "A" {
                        seen_a.push(a.text);
                    } else {
                        assert_eq!(b.key, "B");
                        seen_b.push(a.text);
                    }
                }
            }
        }
    }
    for b in store.drain_and_clear() {
        for a in b.notifications {
            if b.key == "A" {
                seen_a.push(a.text);
            } else {
                seen_b.push(a.text);
            }
        }
    }
    assert_eq!(seen_a, vec!["0", "2", "4", "6", "8"]);
    assert_eq!(seen_b, vec!["1", "3", "5", "7", "9"]);
}

#[test]
fn drained_batches_are_never_empty_and_keys_are_distinct() {
    let mut store = AlertSender::new();
    for n in 0..20usize {
        submit(&mut store, &format!("k{}", n % 5), "x", "i", "t", "u");
    }
    let drained = store.drain_and_clear();
    assert_eq!(drained.len(), 5);
    for (i, b) in drained.iter().enumerate() {
        assert_eq!(b.notifications.len(), 4);
        for other in drained.iter().skip(i + 1) {
            assert_ne!(b.key, other.key);
        }
    }
}

#[test]
fn find_container_finds_the_batch_of_a_key() {
    let mut batches = vec![
        batch("A", "http://a", vec![alert("1", "i", "t")]),
        batch("B", "http://b", vec![alert("2", "i", "t")]),
    ];
    let found = AlertSender::find_container(&s("B"), &mut batches);
    assert_eq!(found.map(|b| b.server_name.clone()), Some(s("http://b")));
}

#[test]
fn find_container_returns_none_for_an_unknown_key() {
    let mut batches = vec![batch("A", "http://a", vec![alert("1", "i", "t")])];
    assert!(AlertSender::find_container(&s("B"), &mut batches).is_none());
    let mut none: Vec<Alerts> = Vec::new();
    assert!(AlertSender::find_container(&s("A"), &mut none).is_none());
}

#[test]
fn find_container_returns_the_first_match() {
    let mut batches = vec![
        batch("A", "http://first", vec![alert("1", "i", "t")]),
        batch("A", "http://second", vec![alert("2", "i", "t")]),
    ];
    let found = AlertSender::find_container(&s("A"), &mut batches);
    assert_eq!(found.map(|b| b.server_name.clone()), Some(s("http://first")));
}

#[test]
fn find_container_lends_the_batch_for_extension() {
    let mut batches = vec![
        batch("A", "http://a", vec![alert("1", "i", "t")]),
        batch("B", "http://b", vec![alert("2", "i", "t")]),
    ];
    if let Some(found) = AlertSender::find_container(&s("A"), &mut batches) {
        found.add(alert("3", "i", "t"));
    }
    assert_eq!(
        batches,
        vec![
            batch("A", "http://a", vec![alert("1", "i", "t"), alert("3", "i", "t")]),
            batch("B", "http://b", vec![alert("2", "i", "t")]),
        ]
    );
}

#[test]
fn add_appends_behind_the_pending_events() {
    let mut b = batch("A", "http://a", Vec::new());
    b.add(alert("1", "EUR", "1H"));
    b.add(alert("2", "GBP", "4H"));
    assert_eq!(b, batch("A", "http://a", vec![alert("1", "EUR", "1H"), alert("2", "GBP", "4H")]));
}
