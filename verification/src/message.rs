//! The four payloads that the agent sends to the collector, and their JSON
//! text. All of them go to one topic.

use vstd::prelude::*;
use vstd::string::*;
use crate::json::{
    append_decimal, append_quoted, append_temperature, decimal_text, quoted_text,
    temperature_text,
};
use crate::temperature::Temperature;

verus! {

/// The topic that every payload is published to.
pub const TELEMETRY_TOPIC: &'static str = "v1/devices/me/telemetry";

/// One payload, as the agent holds it.
///
/// A reading with a timestamp holds one clock value, which is written out
/// both as the timestamp and as the client's timestamp: the two cannot
/// differ.
#[derive(Debug)]
pub enum TelemetryMessage {
    /// The firmware's title, version and state, sent once at startup.
    Status { fw_title: String, fw_version: String, fw_state: String },
    /// A temperature alone.
    Plain { temperature: Temperature },
    /// A temperature under `values`, with the time beside it.
    Timestamped { epoch_ms: u64, temperature: Temperature },
    /// A temperature and the time in one flat record.
    Canonical { epoch_ms: u64, temperature: Temperature },
}

/// A payload as the record that goes over the wire: its keys and what each
/// holds, the temperature in sixteenths of a degree.
pub enum MessageView {
    Status { fw_title: Seq<char>, fw_version: Seq<char>, fw_state: Seq<char> },
    Plain { temperature: int },
    Timestamped { ts: nat, temperature: int, client_ts: nat },
    Canonical { timestamp: nat, temperature: int, client_ts: nat },
}

impl View for TelemetryMessage {
    type V = MessageView;

    open spec fn view(&self) -> MessageView {
        match *self {
            TelemetryMessage::Status { fw_title, fw_version, fw_state } => MessageView::Status {
                fw_title: fw_title@,
                fw_version: fw_version@,
                fw_state: fw_state@,
            },
            TelemetryMessage::Plain { temperature } => MessageView::Plain {
                temperature: temperature.sixteenths(),
            },
            TelemetryMessage::Timestamped { epoch_ms, temperature } => MessageView::Timestamped {
                ts: epoch_ms as nat,
                temperature: temperature.sixteenths(),
                client_ts: epoch_ms as nat,
            },
            TelemetryMessage::Canonical { epoch_ms, temperature } => MessageView::Canonical {
                timestamp: epoch_ms as nat,
                temperature: temperature.sixteenths(),
                client_ts: epoch_ms as nat,
            },
        }
    }
}

/// What a timestamped reading holds: `epoch_ms` under both of its time keys.
pub open spec fn timestamped_view(sixteenths: int, epoch_ms: nat) -> MessageView {
    MessageView::Timestamped { ts: epoch_ms, temperature: sixteenths, client_ts: epoch_ms }
}

/// What a canonical reading holds: `epoch_ms` under both of its time keys.
pub open spec fn canonical_view(sixteenths: int, epoch_ms: nat) -> MessageView {
    MessageView::Canonical { timestamp: epoch_ms, temperature: sixteenths, client_ts: epoch_ms }
}

/// The JSON document of a payload: one object, its keys in alphabetical
/// order, without spaces.
pub open spec fn json_text(m: MessageView) -> Seq<char> {
    match m {
        MessageView::Status { fw_title, fw_version, fw_state } => {
            "{\"fw_state\":"@ + quoted_text(fw_state) + ",\"fw_title\":"@ + quoted_text(fw_title)
                + ",\"fw_version\":"@ + quoted_text(fw_version) + "}"@
        },
        MessageView::Plain { temperature } => {
            "{\"temperature\":"@ + temperature_text(temperature) + "}"@
        },
        MessageView::Timestamped { ts, temperature, client_ts } => {
            "{\"ts\":"@ + decimal_text(ts) + ",\"values\":{\"client_ts\":"@ + decimal_text(
                client_ts,
            ) + ",\"temperature\":"@ + temperature_text(temperature) + "}}"@
        },
        MessageView::Canonical { timestamp, temperature, client_ts } => {
            "{\"client_ts\":"@ + decimal_text(client_ts) + ",\"temperature\":"@ + temperature_text(
                temperature,
            ) + ",\"timestamp\":"@ + decimal_text(timestamp) + "}"@
        },
    }
}

impl TelemetryMessage {
    /// The status report of a firmware.
    pub fn status(title: &str, version: &str, state: &str) -> (m: TelemetryMessage)
        ensures
            m@ == (MessageView::Status {
                fw_title: title@,
                fw_version: version@,
                fw_state: state@,
            }),
    {
        TelemetryMessage::Status {
            fw_title: title.to_owned(),
            fw_version: version.to_owned(),
            fw_state: state.to_owned(),
        }
    }

    /// A reading without a time.
    pub fn plain(temperature: Temperature) -> (m: TelemetryMessage)
        ensures
            m@ == (MessageView::Plain { temperature: temperature.sixteenths() }),
    {
        TelemetryMessage::Plain { temperature }
    }

    /// A reading taken at `epoch_ms` milliseconds since the epoch, in the
    /// nested form. The one clock value is both timestamps.
    pub fn timestamped(temperature: Temperature, epoch_ms: u64) -> (m: TelemetryMessage)
        ensures
            m@ == timestamped_view(temperature.sixteenths(), epoch_ms as nat),
    {
        TelemetryMessage::Timestamped { epoch_ms, temperature }
    }

    /// A reading taken at `epoch_ms` milliseconds since the epoch, in the
    /// flat form. The one clock value is both timestamps.
    pub fn canonical(temperature: Temperature, epoch_ms: u64) -> (m: TelemetryMessage)
        ensures
            m@ == canonical_view(temperature.sixteenths(), epoch_ms as nat),
    {
        TelemetryMessage::Canonical { epoch_ms, temperature }
    }

    /// The clock value that the payload carries, if it carries one.
    pub fn clock(&self) -> (c: Option<u64>)
        ensures
            c == match self@ {
                MessageView::Timestamped { ts, .. } => Some(ts as u64),
                MessageView::Canonical { timestamp, .. } => Some(timestamp as u64),
                _ => None::<u64>,
            },
    {
        match self {
            TelemetryMessage::Timestamped { epoch_ms, .. } => Some(*epoch_ms),
            TelemetryMessage::Canonical { epoch_ms, .. } => Some(*epoch_ms),
            _ => None,
        }
    }

    /// The temperature that the payload carries, if it carries one.
    pub fn temperature(&self) -> (t: Option<Temperature>)
        ensures
            match self@ {
                MessageView::Status { .. } => t is None,
                MessageView::Plain { temperature } => t is Some && t->Some_0.sixteenths()
                    == temperature,
                MessageView::Timestamped { temperature, .. } => t is Some
                    && t->Some_0.sixteenths() == temperature,
                MessageView::Canonical { temperature, .. } => t is Some && t->Some_0.sixteenths()
                    == temperature,
            },
    {
        match self {
            TelemetryMessage::Status { .. } => None,
            TelemetryMessage::Plain { temperature } => Some(*temperature),
            TelemetryMessage::Timestamped { temperature, .. } => Some(*temperature),
            TelemetryMessage::Canonical { temperature, .. } => Some(*temperature),
        }
    }

    /// The payload as JSON text.
    pub fn to_json(&self) -> (text: String)
        ensures
            text@ == json_text(self@),
    {
        let mut out = String::new();
        match self {
            TelemetryMessage::Status { fw_title, fw_version, fw_state } => {
                out.append("{\"fw_state\":");
                append_quoted(&mut out, fw_state.as_str());
                out.append(",\"fw_title\":");
                append_quoted(&mut out, fw_title.as_str());
                out.append(",\"fw_version\":");
                append_quoted(&mut out, fw_version.as_str());
                out.append("}");
            },
            TelemetryMessage::Plain { temperature } => {
                out.append("{\"temperature\":");
                append_temperature(&mut out, *temperature);
                out.append("}");
            },
            TelemetryMessage::Timestamped { epoch_ms, temperature } => {
                out.append("{\"ts\":");
                append_decimal(&mut out, *epoch_ms);
                out.append(",\"values\":{\"client_ts\":");
                append_decimal(&mut out, *epoch_ms);
                out.append(",\"temperature\":");
                append_temperature(&mut out, *temperature);
                out.append("}}");
            },
            TelemetryMessage::Canonical { epoch_ms, temperature } => {
                out.append("{\"client_ts\":");
                append_decimal(&mut out, *epoch_ms);
                out.append(",\"temperature\":");
                append_temperature(&mut out, *temperature);
                out.append(",\"timestamp\":");
                append_decimal(&mut out, *epoch_ms);
                out.append("}");
            },
        }
        proof {
            assert(out@ =~= json_text(self@));
        }
        out
    }
}

/// A timestamped and a canonical reading made from one clock value carry
/// that value alike: as `ts` and `client_ts` in the one, as `timestamp` and
/// `client_ts` in the other.
pub proof fn lemma_one_clock_value(sixteenths: int, epoch_ms: nat)
    ensures
        timestamped_view(sixteenths, epoch_ms) matches MessageView::Timestamped {
            ts,
            client_ts,
            ..
        } && ts == epoch_ms && client_ts == epoch_ms,
        canonical_view(sixteenths, epoch_ms) matches MessageView::Canonical {
            timestamp,
            client_ts,
            ..
        } && timestamp == epoch_ms && client_ts == epoch_ms,
{
}

/// Whatever payload the agent holds, its two timestamps are one value.
pub proof fn lemma_timestamps_agree(m: TelemetryMessage)
    ensures
        m@ matches MessageView::Timestamped { ts, client_ts, .. } ==> ts == client_ts,
        m@ matches MessageView::Canonical { timestamp, client_ts, .. } ==> timestamp == client_ts,
{
}

} // verus!
