use ds18b20_telemetry::channel::{
    has_nul, ms_to_ticks, ChannelState, ClientReport, ConnectFault, MessageId, PublishFault,
    PublishRequest, TelemetryChannel, CLIENT_OK, QOS_AT_LEAST_ONCE, RETAIN_OFF, SETTLE_DELAY_MS,
};
use ds18b20_telemetry::message::{TelemetryMessage, TELEMETRY_TOPIC};
use ds18b20_telemetry::temperature::Temperature;

fn connected() -> TelemetryChannel {
    let mut channel = TelemetryChannel::new();
    assert_eq!(
        channel.begin_open("mqtt://broker.example:1883", "user", "secret", "device-1"),
        Ok(())
    );
    assert_eq!(
        channel.finish_open(ClientReport::Started { code: CLIENT_OK }),
        Ok(SETTLE_DELAY_MS)
    );
    channel
}

#[test]
fn constants_of_the_channel() {
    assert_eq!(SETTLE_DELAY_MS, 5000);
    assert_eq!(QOS_AT_LEAST_ONCE, 1);
    assert_eq!(RETAIN_OFF, 0);
    assert_eq!(CLIENT_OK, 0);
}

#[test]
fn new_channel_is_disconnected() {
    let channel = TelemetryChannel::new();
    assert_eq!(channel.state(), ChannelState::Disconnected);
    assert!(!channel.is_connected());
}

#[test]
fn open_goes_through_connecting_to_connected() {
    let mut channel = TelemetryChannel::new();
    assert_eq!(channel.begin_open("mqtt://h:1883", "u", "p", "id"), Ok(()));
    assert_eq!(channel.state(), ChannelState::Connecting);
    assert_eq!(channel.finish_open(ClientReport::Started { code: 0 }), Ok(5000));
    assert_eq!(channel.state(), ChannelState::Connected);
    assert!(channel.is_connected());
}

#[test]
fn nul_in_any_text_fails_the_open() {
    for (e, u, p, i) in [
        ("mqtt://h\0:1883", "u", "p", "id"),
        ("mqtt://h:1883", "\0u", "p", "id"),
        ("mqtt://h:1883", "u", "p\0", "id"),
        ("mqtt://h:1883", "u", "p", "i\0d"),
    ] {
        let mut channel = TelemetryChannel::new();
        assert_eq!(channel.begin_open(e, u, p, i), Err(ConnectFault::InvalidText));
        assert_eq!(channel.state(), ChannelState::Disconnected);
    }
}

#[test]
fn missing_client_fails_the_open() {
    let mut channel = TelemetryChannel::new();
    channel.begin_open("mqtt://h:1883", "u", "p", "id").unwrap();
    assert_eq!(channel.finish_open(ClientReport::NoClient), Err(ConnectFault::InitFailed));
    assert_eq!(channel.state(), ChannelState::Disconnected);
    assert!(!channel.close());
}

#[test]
fn start_code_fails_the_open() {
    for code in [-1, 1, 0x102, i32::MIN, i32::MAX] {
        let mut channel = TelemetryChannel::new();
        channel.begin_open("mqtt://h:1883", "u", "p", "id").unwrap();
        assert_eq!(
            channel.finish_open(ClientReport::Started { code }),
            Err(ConnectFault::StartFailed { code })
        );
        assert_eq!(channel.state(), ChannelState::Disconnected);
    }
}

#[test]
fn steps_out_of_order_change_nothing() {
    let mut channel = TelemetryChannel::new();
    assert_eq!(
        channel.finish_open(ClientReport::Started { code: 0 }),
        Err(ConnectFault::OutOfOrder)
    );
    assert_eq!(channel.state(), ChannelState::Disconnected);
    let mut channel = connected();
    assert_eq!(
        channel.begin_open("mqtt://h:1883", "u", "p", "id"),
        Err(ConnectFault::OutOfOrder)
    );
    assert_eq!(channel.finish_open(ClientReport::NoClient), Err(ConnectFault::OutOfOrder));
    assert_eq!(channel.state(), ChannelState::Connected);
    channel.close();
    assert_eq!(
        channel.begin_open("mqtt://h:1883", "u", "p", "id"),
        Err(ConnectFault::OutOfOrder)
    );
    assert_eq!(channel.state(), ChannelState::Closed);
}

#[test]
fn open_then_close_releases_once() {
    let mut channel = connected();
    assert!(channel.close());
    assert_eq!(channel.state(), ChannelState::Closed);
    assert!(!channel.close());
    assert_eq!(channel.state(), ChannelState::Closed);
    assert!(!channel.close());
}

#[test]
fn close_of_a_channel_never_opened_releases_nothing() {
    let mut channel = TelemetryChannel::new();
    assert!(!channel.close());
    assert_eq!(channel.state(), ChannelState::Closed);
    assert!(!channel.close());
}

#[test]
fn publish_request_carries_length_and_quality() {
    let channel = connected();
    let payload = TelemetryMessage::plain(Temperature::from_raw(1360)).to_json();
    assert_eq!(
        channel.prepare_publish(TELEMETRY_TOPIC, &payload),
        Ok(PublishRequest { length: 20, qos: 1, retain: 0 })
    );
    assert_eq!(
        channel.prepare_publish(TELEMETRY_TOPIC, ""),
        Ok(PublishRequest { length: 0, qos: 1, retain: 0 })
    );
    assert_eq!(
        channel.prepare_publish(TELEMETRY_TOPIC, "caf\u{e9}"),
        Ok(PublishRequest { length: 5, qos: 1, retain: 0 })
    );
}

#[test]
fn publish_with_nul_is_refused() {
    let channel = connected();
    assert_eq!(
        channel.prepare_publish("v1/\0", "{}"),
        Err(PublishFault::InvalidText)
    );
    assert_eq!(
        channel.prepare_publish(TELEMETRY_TOPIC, "{\"a\":\"\0\"}"),
        Err(PublishFault::InvalidText)
    );
}

#[test]
fn publish_needs_a_connected_channel() {
    let mut channel = TelemetryChannel::new();
    assert_eq!(
        channel.prepare_publish(TELEMETRY_TOPIC, "{}"),
        Err(PublishFault::NotConnected)
    );
    channel.begin_open("mqtt://h:1883", "u", "p", "id").unwrap();
    assert_eq!(
        channel.prepare_publish(TELEMETRY_TOPIC, "{}"),
        Err(PublishFault::NotConnected)
    );
    let mut channel = connected();
    channel.close();
    assert_eq!(
        channel.prepare_publish(TELEMETRY_TOPIC, "{}"),
        Err(PublishFault::NotConnected)
    );
}

#[test]
fn message_identifier_tells_acceptance() {
    let channel = connected();
    assert_eq!(channel.complete_publish(0), Ok(MessageId { id: 0 }));
    assert_eq!(channel.complete_publish(17), Ok(MessageId { id: 17 }));
    assert_eq!(channel.complete_publish(i32::MAX), Ok(MessageId { id: i32::MAX }));
    assert_eq!(channel.complete_publish(-1), Err(PublishFault::Rejected { code: -1 }));
    assert_eq!(channel.complete_publish(-2), Err(PublishFault::Rejected { code: -2 }));
    assert_eq!(
        channel.complete_publish(i32::MIN),
        Err(PublishFault::Rejected { code: i32::MIN })
    );
}

#[test]
fn failed_publish_leaves_the_channel_usable() {
    let channel = connected();
    assert!(channel.complete_publish(-1).is_err());
    assert!(channel.is_connected());
    assert!(channel.prepare_publish(TELEMETRY_TOPIC, "{}").is_ok());
    assert_eq!(channel.complete_publish(3), Ok(MessageId { id: 3 }));
}

#[test]
fn status_payload_with_control_characters_can_be_published() {
    let channel = connected();
    let payload = TelemetryMessage::status("a\0b", "1.0.0", "UPDATED").to_json();
    assert!(!has_nul(&payload));
    assert!(channel.prepare_publish(TELEMETRY_TOPIC, &payload).is_ok());
}

#[test]
fn nul_is_found_wherever_it_stands() {
    assert!(!has_nul(""));
    assert!(!has_nul("mqtt://mqtt.example:1883"));
    assert!(has_nul("\0"));
    assert!(has_nul("\0abc"));
    assert!(has_nul("ab\0c"));
    assert!(has_nul("abc\0"));
    assert!(!has_nul("caf\u{e9} \u{1F321}"));
}

#[test]
fn ticks_round_down() {
    assert_eq!(ms_to_ticks(5000, 100), 500);
    assert_eq!(ms_to_ticks(5000, 1000), 5000);
    assert_eq!(ms_to_ticks(750, 100), 75);
    assert_eq!(ms_to_ticks(3000, 100), 300);
    assert_eq!(ms_to_ticks(9, 100), 0);
    assert_eq!(ms_to_ticks(19, 100), 1);
    assert_eq!(ms_to_ticks(0, 100), 0);
    assert_eq!(ms_to_ticks(1234, 0), 0);
    assert_eq!(ms_to_ticks(u32::MAX, 1000), u32::MAX);
}

#[test]
fn ticks_are_cut_to_32_bits() {
    let wide = u32::MAX as u64 * 2000 / 1000;
    assert_eq!(ms_to_ticks(u32::MAX, 2000), wide as u32);
    let wide = u32::MAX as u64 * u32::MAX as u64 / 1000;
    assert_eq!(ms_to_ticks(u32::MAX, u32::MAX), wide as u32);
}
