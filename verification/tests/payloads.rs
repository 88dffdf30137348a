use ds18b20_telemetry::json::{append_decimal, append_quoted, append_temperature};
use ds18b20_telemetry::message::{TelemetryMessage, TELEMETRY_TOPIC};
use ds18b20_telemetry::temperature::Temperature;

fn object(entries: Vec<(&str, serde_json::Value)>) -> serde_json::Value {
    let mut map = serde_json::Map::new();
    for (k, v) in entries {
        map.insert(k.to_string(), v);
    }
    serde_json::Value::Object(map)
}

fn degrees(raw: i16) -> serde_json::Value {
    serde_json::Value::from(raw as f32 / 16.0)
}

fn quoted(s: &str) -> String {
    let mut out = String::new();
    append_quoted(&mut out, s);
    out
}

#[test]
fn topic_is_the_device_telemetry_topic() {
    assert_eq!(TELEMETRY_TOPIC, "v1/devices/me/telemetry");
}

#[test]
fn status_payload_text() {
    let m = TelemetryMessage::status("myFirmware", "1.0.0", "UPDATED");
    assert_eq!(
        m.to_json(),
        "{\"fw_state\":\"UPDATED\",\"fw_title\":\"myFirmware\",\"fw_version\":\"1.0.0\"}"
    );
    assert_eq!(m.clock(), None);
    assert_eq!(m.temperature(), None);
}

#[test]
fn plain_payload_text() {
    let m = TelemetryMessage::plain(Temperature::from_raw(1360));
    assert_eq!(m.to_json(), "{\"temperature\":85.0}");
    assert_eq!(m.clock(), None);
    assert_eq!(m.temperature(), Some(Temperature::from_raw(1360)));
}

#[test]
fn timestamped_payload_text() {
    let m = TelemetryMessage::timestamped(Temperature::from_raw(-162), 1_700_000_000_123);
    assert_eq!(
        m.to_json(),
        "{\"ts\":1700000000123,\"values\":{\"client_ts\":1700000000123,\"temperature\":-10.125}}"
    );
    assert_eq!(m.clock(), Some(1_700_000_000_123));
}

#[test]
fn canonical_payload_text() {
    let m = TelemetryMessage::canonical(Temperature::from_raw(369), 42);
    assert_eq!(
        m.to_json(),
        "{\"client_ts\":42,\"temperature\":23.0625,\"timestamp\":42}"
    );
    assert_eq!(m.clock(), Some(42));
    assert_eq!(m.temperature(), Some(Temperature::from_raw(369)));
}

#[test]
fn both_timed_payloads_embed_one_clock_value() {
    for now in [0u64, 1, 999, 1_700_000_000_000, u64::MAX] {
        let t = Temperature::from_raw(400);
        let nested: serde_json::Value =
            serde_json::from_str(&TelemetryMessage::timestamped(t, now).to_json()).unwrap();
        let flat: serde_json::Value =
            serde_json::from_str(&TelemetryMessage::canonical(t, now).to_json()).unwrap();
        assert_eq!(nested["ts"].as_u64(), Some(now));
        assert_eq!(nested["values"]["client_ts"].as_u64(), Some(now));
        assert_eq!(flat["timestamp"].as_u64(), Some(now));
        assert_eq!(flat["client_ts"].as_u64(), Some(now));
    }
}

#[test]
fn payloads_are_what_the_json_library_writes() {
    for raw in [0i16, 1, -1, 15, 16, 17, 1360, -162, 2000, -880, i16::MAX, i16::MIN] {
        for now in [0u64, 7, 1_700_000_000_123, u64::MAX] {
            let t = Temperature::from_raw(raw);
            assert_eq!(
                TelemetryMessage::plain(t).to_json(),
                object(vec![("temperature", degrees(raw))]).to_string()
            );
            assert_eq!(
                TelemetryMessage::timestamped(t, now).to_json(),
                object(vec![
                    ("ts", serde_json::Value::from(now)),
                    (
                        "values",
                        object(vec![
                            ("temperature", degrees(raw)),
                            ("client_ts", serde_json::Value::from(now)),
                        ])
                    ),
                ])
                .to_string()
            );
            assert_eq!(
                TelemetryMessage::canonical(t, now).to_json(),
                object(vec![
                    ("timestamp", serde_json::Value::from(now)),
                    ("temperature", degrees(raw)),
                    ("client_ts", serde_json::Value::from(now)),
                ])
                .to_string()
            );
        }
    }
}

#[test]
fn status_payload_is_what_the_json_library_writes() {
    for (title, version, state) in [
        ("myFirmware", "1.0.0", "UPDATED"),
        ("", "", ""),
        ("a \"quoted\" title", "back\\slash", "line\nbreak\ttab"),
        ("caf\u{e9} \u{1F321}", "\u{0}\u{1}\u{1f}\u{7f}", "\u{8}\u{c}\r/"),
    ] {
        let text = TelemetryMessage::status(title, version, state).to_json();
        let expected = object(vec![
            ("fw_title", serde_json::Value::from(title)),
            ("fw_version", serde_json::Value::from(version)),
            ("fw_state", serde_json::Value::from(state)),
        ]);
        assert_eq!(text, expected.to_string());
        let parsed: serde_json::Value = serde_json::from_str(&text).unwrap();
        assert_eq!(parsed, expected);
    }
}

#[test]
fn every_temperature_is_written_as_the_json_library_writes_it() {
    for raw in i16::MIN..=i16::MAX {
        let mut out = String::new();
        append_temperature(&mut out, Temperature::from_raw(raw));
        assert_eq!(out, degrees(raw).to_string(), "raw {}", raw);
        let back: f64 = out.parse().unwrap();
        assert_eq!(back * 16.0, raw as f64);
    }
}

#[test]
fn temperature_text_examples() {
    for (raw, text) in [
        (0i16, "0.0"),
        (1, "0.0625"),
        (-1, "-0.0625"),
        (2, "0.125"),
        (4, "0.25"),
        (8, "0.5"),
        (15, "0.9375"),
        (16, "1.0"),
        (1360, "85.0"),
        (-162, "-10.125"),
        (2000, "125.0"),
        (-880, "-55.0"),
        (i16::MAX, "2047.9375"),
        (i16::MIN, "-2048.0"),
    ] {
        let mut out = String::from("t=");
        append_temperature(&mut out, Temperature::from_raw(raw));
        assert_eq!(out, format!("t={}", text));
    }
}

#[test]
fn decimal_text_examples() {
    for n in [0u64, 1, 9, 10, 11, 99, 100, 101, 1_700_000_000_123, u64::MAX] {
        let mut out = String::from("n=");
        append_decimal(&mut out, n);
        assert_eq!(out, format!("n={}", n));
    }
}

#[test]
fn quoting_escapes_what_json_requires() {
    assert_eq!(quoted(""), "\"\"");
    assert_eq!(quoted("UPDATED"), "\"UPDATED\"");
    assert_eq!(quoted("\""), "\"\\\"\"");
    assert_eq!(quoted("\\"), "\"\\\\\"");
    assert_eq!(quoted("\u{8}\t\n\u{c}\r"), "\"\\b\\t\\n\\f\\r\"");
    assert_eq!(quoted("\u{0}"), "\"\\u0000\"");
    assert_eq!(quoted("\u{b}"), "\"\\u000b\"");
    assert_eq!(quoted("\u{1f}"), "\"\\u001f\"");
    assert_eq!(quoted(" /\u{7f}"), "\" /\u{7f}\"");
    assert_eq!(quoted("caf\u{e9}"), "\"caf\u{e9}\"");
    let mut out = String::from("x:");
    append_quoted(&mut out, "y");
    assert_eq!(out, "x:\"y\"");
}
