use alert_relay::alert::{Alert, Alerts};
use alert_relay::formatter::{format_alerts, PLATFORM};

fn s(text: &str) -> String {
    String::from(text)
}

fn alert(text: &str, instrument: &str, timeframe: &str) -> Alert {
    Alert { text: s(text), instrument: s(instrument), timeframe: s(timeframe) }
}

fn batch(key: &str, strategy: &str, notifications: Vec<Alert>) -> Alerts {
    Alerts { key: s(key), strategy_name: s(strategy), server_name: s("http://host"), notifications }
}

#[test]
fn platform_label_is_fixed() {
    assert_eq!(PLATFORM, "MetaTrader");
}

#[test]
fn document_of_two_events_is_exact() {
    let b = batch("S1", "", vec![alert("Buy", "EUR", "1H"), alert("Sell", "GBP", "4H")]);
    assert_eq!(
        format_alerts(&b),
        Ok(s("{\"Key\":\"S1\",\"StrategyName\":\"\",\"Platform\":\"MetaTrader\",\"Notifications\":[{\"Text\":\"Buy\",\"Instrument\":\"EUR\",\"TimeFrame\":\"1H\"},{\"Text\":\"Sell\",\"Instrument\":\"GBP\",\"TimeFrame\":\"4H\"}]}"))
    );
}

#[test]
fn document_of_one_event_is_exact() {
    let b = batch("K", "Trend", vec![alert("t", "i", "f")]);
    assert_eq!(
        format_alerts(&b),
        Ok(s("{\"Key\":\"K\",\"StrategyName\":\"Trend\",\"Platform\":\"MetaTrader\",\"Notifications\":[{\"Text\":\"t\",\"Instrument\":\"i\",\"TimeFrame\":\"f\"}]}"))
    );
}

#[test]
fn document_of_an_empty_batch_has_an_empty_array() {
    let b = batch("K", "", Vec::new());
    assert_eq!(
        format_alerts(&b),
        Ok(s("{\"Key\":\"K\",\"StrategyName\":\"\",\"Platform\":\"MetaTrader\",\"Notifications\":[]}"))
    );
}

#[test]
fn document_does_not_carry_the_destination() {
    let b = batch("K", "", vec![alert("t", "i", "f")]);
    let text = format_alerts(&b).unwrap();
    assert!(!text.contains("http://host"));
}

#[test]
fn quotes_and_control_characters_are_escaped() {
    let b = batch("a\"b", "", vec![alert("line1\nline2", "back\\slash", "tab\there")]);
    assert_eq!(
        format_alerts(&b),
        Ok(s("{\"Key\":\"a\\\"b\",\"StrategyName\":\"\",\"Platform\":\"MetaTrader\",\"Notifications\":[{\"Text\":\"line1\\nline2\",\"Instrument\":\"back\\\\slash\",\"TimeFrame\":\"tab\\there\"}]}"))
    );
}

#[test]
fn formatting_always_succeeds() {
    for k in 0..5usize {
        let mut events = Vec::new();
        for n in 0..k {
            events.push(alert(&format!("t{}", n), "i", "f"));
        }
        assert!(format_alerts(&batch("K", "", events)).is_ok());
    }
}

#[test]
fn decoding_a_document_gives_back_every_event() {
    let events = vec![
        ("Buy", "EUR", "1H"),
        ("Sell \"now\"", "GBP/USD", "4H"),
        ("", "", ""),
        ("multi\nline", "\u{00e9}\u{4e2d}\u{1f600}", "\\"),
    ];
    let b = batch(
        "key \u{00fc}",
        "",
        events.iter().map(|e| alert(e.0, e.1, e.2)).collect(),
    );
    let text = format_alerts(&b).unwrap();
    let decoded = json::parse(&text).unwrap();
    assert!(decoded.is_object());
    assert_eq!(decoded.len(), 4);
    assert_eq!(decoded["Key"].as_str(), Some("key \u{00fc}"));
    assert_eq!(decoded["StrategyName"].as_str(), Some(""));
    assert_eq!(decoded["Platform"].as_str(), Some("MetaTrader"));
    assert!(decoded["Notifications"].is_array());
    assert_eq!(decoded["Notifications"].len(), events.len());
    for (i, e) in events.iter().enumerate() {
        let entry = &decoded["Notifications"][i];
        assert_eq!(entry.len(), 3);
        assert_eq!(entry["Text"].as_str(), Some(e.0));
        assert_eq!(entry["Instrument"].as_str(), Some(e.1));
        assert_eq!(entry["TimeFrame"].as_str(), Some(e.2));
    }
}

#[test]
fn decoding_gives_as_many_entries_as_events() {
    for k in 0..12usize {
        let mut events = Vec::new();
        for n in 0..k {
            events.push(alert(&format!("t{}", n), &format!("i{}", n), &format!("f{}", n)));
        }
        let decoded = json::parse(&format_alerts(&batch("K", "", events)).unwrap()).unwrap();
        assert_eq!(decoded["Notifications"].len(), k);
        for n in 0..k {
            assert_eq!(decoded["Notifications"][n]["Text"].as_str(), Some(format!("t{}", n).as_str()));
        }
    }
}

#[test]
fn members_come_in_schema_order() {
    let b = batch("K", "", vec![alert("t", "i", "f")]);
    let decoded = json::parse(&format_alerts(&b).unwrap()).unwrap();
    let names: Vec<&str> = decoded.entries().map(|e| e.0).collect();
    assert_eq!(names, vec!["Key", "StrategyName", "Platform", "Notifications"]);
    let inner: Vec<&str> = decoded["Notifications"][0].entries().map(|e| e.0).collect();
    assert_eq!(inner, vec!["Text", "Instrument", "TimeFrame"]);
}
