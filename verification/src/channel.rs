//! The one connection to the collector: what is checked before the client is
//! called, what its answers mean, and the connection's life from opening to
//! release.
//!
//! The channel decides; the caller makes the calls to the client and hands
//! back what the client returned.

use vstd::prelude::*;
use vstd::string::*;

verus! {

/// The time that a started client is given to establish its session, in
/// milliseconds.
pub const SETTLE_DELAY_MS: u32 = 5000;

/// The quality of service of every publish: delivered at least once.
pub const QOS_AT_LEAST_ONCE: i32 = 1;

/// Payloads are not retained by the broker.
pub const RETAIN_OFF: i32 = 0;

/// The client's status code for success.
pub const CLIENT_OK: i32 = 0;

/// Why the channel could not be opened.
#[derive(Clone, Copy, Debug, PartialEq, Eq, Structural)]
pub enum ConnectFault {
    /// The endpoint or one of the credentials holds a NUL byte.
    InvalidText,
    /// The client could not be set up.
    InitFailed,
    /// The client did not start, and gave this status code.
    StartFailed { code: i32 },
    /// The channel is not in the state that the step belongs to.
    OutOfOrder,
}

/// Why a payload was not handed over.
#[derive(Clone, Copy, Debug, PartialEq, Eq, Structural)]
pub enum PublishFault {
    /// The topic or the payload holds a NUL byte.
    InvalidText,
    /// The client did not take the payload, and gave this negative code.
    Rejected { code: i32 },
    /// The channel is not connected.
    NotConnected,
}

/// The identifier under which the client queued a payload. It says that the
/// local client took the payload, not that the broker has it.
#[derive(Clone, Copy, Debug, PartialEq, Eq, Structural)]
pub struct MessageId {
    pub id: i32,
}

/// Where the connection stands.
#[derive(Clone, Copy, Debug, PartialEq, Eq, Structural)]
pub enum ChannelState {
    Disconnected,
    Connecting,
    Connected,
    Closed,
}

/// What the client returned when it was set up and started.
#[derive(Clone, Copy, Debug, PartialEq, Eq, Structural)]
pub enum ClientReport {
    /// Setting up gave no client.
    NoClient,
    /// The client was set up, and starting it returned this status code.
    Started { code: i32 },
}

/// What to hand to the client's publish call beside topic and payload.
#[derive(Clone, Copy, Debug, PartialEq, Eq, Structural)]
pub struct PublishRequest {
    /// The payload's length in bytes, as the client's 32-bit length.
    pub length: i32,
    /// The quality of service.
    pub qos: i32,
    /// The retain flag.
    pub retain: i32,
}

/// The connection to the collector.
#[derive(Debug)]
pub struct TelemetryChannel {
    pub state: ChannelState,
}

/// Whether one of the bytes is NUL: such a text cannot be handed to the
/// client, which takes its texts NUL-terminated.
pub open spec fn contains_nul(bytes: Seq<u8>) -> bool {
    exists|i: int| 0 <= i < bytes.len() && bytes[i] == 0
}

/// The state after the client's report on an opening, and what is returned:
/// the settle delay in milliseconds, or the fault.
pub open spec fn after_open(state: ChannelState, report: ClientReport) -> (ChannelState, Result<
    u32,
    ConnectFault,
>) {
    if state != ChannelState::Connecting {
        (state, Err(ConnectFault::OutOfOrder))
    } else {
        match report {
            ClientReport::NoClient => (ChannelState::Disconnected, Err(ConnectFault::InitFailed)),
            ClientReport::Started { code } => if code == CLIENT_OK {
                (ChannelState::Connected, Ok(SETTLE_DELAY_MS))
            } else {
                (ChannelState::Disconnected, Err(ConnectFault::StartFailed { code }))
            },
        }
    }
}

/// What the identifier that the client's publish call returned means.
pub open spec fn publish_outcome(msg_id: i32) -> Result<MessageId, PublishFault> {
    if msg_id < 0 {
        Err(PublishFault::Rejected { code: msg_id })
    } else {
        Ok(MessageId { id: msg_id })
    }
}

/// The state after a close, and whether the client is to be stopped and
/// released now.
pub open spec fn after_close(state: ChannelState) -> (ChannelState, bool) {
    (ChannelState::Closed, state == ChannelState::Connected)
}

/// The number of scheduler ticks in `ms` milliseconds at `tick_rate_hz`
/// ticks per second, rounded down, in 32 bits.
pub open spec fn ticks_of(ms: u32, tick_rate_hz: u32) -> int {
    ((ms as int * tick_rate_hz as int) / 1000) % 0x1_0000_0000
}

/// Tells whether `s` holds a NUL byte.
pub fn has_nul(s: &str) -> (b: bool)
    ensures
        b == contains_nul(s.spec_bytes()),
{
    let bytes = s.as_bytes();
    let mut i: usize = 0;
    while i < bytes.len()
        invariant
            i <= bytes.len(),
            bytes@ == s.spec_bytes(),
            forall|j: int| 0 <= j < i ==> bytes[j] != 0,
        decreases bytes.len() - i,
    {
        if bytes[i] == 0 {
            return true;
        }
        i = i + 1;
    }
    false
}

/// Converts milliseconds to scheduler ticks, rounding down. The product is
/// formed in 64 bits and the quotient cut to 32.
pub fn ms_to_ticks(ms: u32, tick_rate_hz: u32) -> (ticks: u32)
    ensures
        ticks == ticks_of(ms, tick_rate_hz),
        (ms as int * tick_rate_hz as int) / 1000 <= u32::MAX ==> ticks == (ms as int
            * tick_rate_hz as int) / 1000,
{
    assert(ms as int * tick_rate_hz as int <= 0xFFFF_FFFF * 0xFFFF_FFFF) by (nonlinear_arith)
        requires
            0 <= ms <= 0xFFFF_FFFF,
            0 <= tick_rate_hz <= 0xFFFF_FFFF,
    ;
    let wide: u64 = ms as u64 * tick_rate_hz as u64 / 1000;
    assert(wide as u32 == wide % 0x1_0000_0000) by (bit_vector);
    #[verifier::truncate]
    let ticks: u32 = wide as u32;
    ticks
}

impl TelemetryChannel {
    /// A channel that has not been opened.
    pub fn new() -> (c: TelemetryChannel)
        ensures
            c.state == ChannelState::Disconnected,
    {
        TelemetryChannel { state: ChannelState::Disconnected }
    }

    /// Where the connection stands.
    pub fn state(&self) -> (s: ChannelState)
        ensures
            s == self.state,
    {
        self.state
    }

    /// Whether payloads can be published.
    pub fn is_connected(&self) -> (b: bool)
        ensures
            b == (self.state == ChannelState::Connected),
    {
        self.state == ChannelState::Connected
    }

    /// Begins to open the channel: checks that it has not been opened and
    /// that the client can take the four texts. On success the channel is
    /// connecting, and the caller sets up and starts the client; on failure
    /// it is as before.
    pub fn begin_open(
        &mut self,
        endpoint: &str,
        username: &str,
        password: &str,
        client_id: &str,
    ) -> (r: Result<(), ConnectFault>)
        ensures
            old(self).state != ChannelState::Disconnected ==> r == Err::<(), ConnectFault>(
                ConnectFault::OutOfOrder,
            ) && final(self).state == old(self).state,
            old(self).state == ChannelState::Disconnected && (contains_nul(endpoint.spec_bytes())
                || contains_nul(username.spec_bytes()) || contains_nul(password.spec_bytes())
                || contains_nul(client_id.spec_bytes())) ==> r == Err::<(), ConnectFault>(
                ConnectFault::InvalidText,
            ) && final(self).state == ChannelState::Disconnected,
            old(self).state == ChannelState::Disconnected && !contains_nul(endpoint.spec_bytes())
                && !contains_nul(username.spec_bytes()) && !contains_nul(password.spec_bytes())
                && !contains_nul(client_id.spec_bytes()) ==> r == Ok::<(), ConnectFault>(())
                && final(self).state == ChannelState::Connecting,
    {
        if self.state != ChannelState::Disconnected {
            return Err(ConnectFault::OutOfOrder);
        }
        if has_nul(endpoint) || has_nul(username) || has_nul(password) || has_nul(client_id) {
            return Err(ConnectFault::InvalidText);
        }
        self.state = ChannelState::Connecting;
        Ok(())
    }

    /// Takes the client's report on the opening. A started client leaves the
    /// channel connected, and the caller waits the settle delay that is
    /// returned, in milliseconds. Without a client, or with a status code
    /// other than success, the channel is disconnected again. Nothing is
    /// tried a second time.
    pub fn finish_open(&mut self, report: ClientReport) -> (r: Result<u32, ConnectFault>)
        ensures
            (final(self).state, r) == after_open(old(self).state, report),
    {
        if self.state != ChannelState::Connecting {
            return Err(ConnectFault::OutOfOrder);
        }
        match report {
            ClientReport::NoClient => {
                self.state = ChannelState::Disconnected;
                Err(ConnectFault::InitFailed)
            },
            ClientReport::Started { code } => {
                if code == CLIENT_OK {
                    self.state = ChannelState::Connected;
                    Ok(SETTLE_DELAY_MS)
                } else {
                    self.state = ChannelState::Disconnected;
                    Err(ConnectFault::StartFailed { code })
                }
            },
        }
    }

    /// Checks a payload before it is handed to the client, and says with
    /// which length, quality of service and retain flag to hand it over.
    pub fn prepare_publish(&self, topic: &str, payload: &str) -> (r: Result<
        PublishRequest,
        PublishFault,
    >)
        ensures
            self.state != ChannelState::Connected ==> r == Err::<PublishRequest, PublishFault>(
                PublishFault::NotConnected,
            ),
            self.state == ChannelState::Connected && (contains_nul(topic.spec_bytes())
                || contains_nul(payload.spec_bytes())) ==> r == Err::<
                PublishRequest,
                PublishFault,
            >(PublishFault::InvalidText),
            self.state == ChannelState::Connected && !contains_nul(topic.spec_bytes())
                && !contains_nul(payload.spec_bytes()) ==> r == Ok::<PublishRequest, PublishFault>(
                PublishRequest {
                    length: (payload.spec_bytes().len() as usize) as i32,
                    qos: QOS_AT_LEAST_ONCE,
                    retain: RETAIN_OFF,
                },
            ),
    {
        if self.state != ChannelState::Connected {
            return Err(PublishFault::NotConnected);
        }
        if has_nul(topic) || has_nul(payload) {
            return Err(PublishFault::InvalidText);
        }
        #[verifier::truncate]
        let length: i32 = payload.len() as i32;
        Ok(PublishRequest { length, qos: QOS_AT_LEAST_ONCE, retain: RETAIN_OFF })
    }

    /// Tells what the identifier that the client's publish call returned
    /// means: a negative one is the client's refusal. The channel stays as
    /// it is either way, and the next payload can be published.
    pub fn complete_publish(&self, msg_id: i32) -> (r: Result<MessageId, PublishFault>)
        ensures
            r == publish_outcome(msg_id),
    {
        if msg_id < 0 {
            Err(PublishFault::Rejected { code: msg_id })
        } else {
            Ok(MessageId { id: msg_id })
        }
    }

    /// Closes the channel. The result says whether the caller is to stop and
    /// release the client now: it does so for a connected channel, once.
    pub fn close(&mut self) -> (release: bool)
        ensures
            (final(self).state, release) == after_close(old(self).state),
    {
        let release = self.state == ChannelState::Connected;
        self.state = ChannelState::Closed;
        release
    }
}

/// A channel that is opened and closed at once is released exactly once:
/// the first close asks for the release and leaves the channel closed, and
/// every later close asks for nothing and leaves it closed.
pub proof fn lemma_close_releases_once(state: ChannelState)
    ensures
        after_open(ChannelState::Connecting, ClientReport::Started { code: CLIENT_OK }).0
            == ChannelState::Connected,
        after_close(ChannelState::Connected) == (ChannelState::Closed, true),
        after_close(after_close(state).0) == (ChannelState::Closed, false),
{
}

/// A channel that failed to open holds no client: closing it asks for no
/// release.
pub proof fn lemma_failed_open_leaves_nothing(report: ClientReport)
    requires
        after_open(ChannelState::Connecting, report).1 is Err,
    ensures
        after_close(after_open(ChannelState::Connecting, report).0) == (ChannelState::Closed, false),
{
}

} // verus!
