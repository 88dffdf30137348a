//! The acquisition loop: the agent's control flow as a machine that takes
//! the outcome of the last action and says what to do next.
//!
//! The caller performs each action (it connects the link, sleeps, opens the
//! channel, drives the bus, publishes) and hands back what happened. The
//! loop decides, and nothing that goes wrong within a cycle ends it.

use vstd::prelude::*;
use crate::bus::{
    conversion_waited, stage_command, stage_step, BusCommand, BusReply, BusSession, BusStage,
    BusStep, CONVERSION_DELAY_MS,
};
use crate::scratchpad::{decode_scratchpad, decoded};
use crate::temperature::Temperature;

verus! {

/// The wait after a failed attempt to bring the link up, in milliseconds.
pub const LINK_RETRY_BACKOFF_MS: u32 = 5000;

/// The time from the start of one cycle to the start of the next, in
/// milliseconds. The conversion wait is part of it.
pub const CYCLE_PERIOD_MS: u32 = 3000;

/// The form in which a reading is published.
#[derive(Clone, Copy, Debug, PartialEq, Eq, Structural)]
pub enum ReadingShape {
    Plain,
    Timestamped,
    Canonical,
}

/// A payload to build and publish.
#[derive(Clone, Copy, Debug, PartialEq, Eq, Structural)]
pub enum Outgoing {
    /// The firmware's status report.
    Status,
    /// A temperature in one of the three forms.
    Reading { shape: ReadingShape, temperature: Temperature },
}

/// What the loop asks the caller to do.
#[derive(Clone, Copy, Debug, PartialEq, Eq, Structural)]
pub enum Action {
    /// Try to bring the network link up.
    ConnectLink,
    /// Sleep for this many milliseconds.
    Sleep { ms: u32 },
    /// Open the telemetry channel.
    OpenChannel,
    /// Build this payload and publish it.
    Publish(Outgoing),
    /// Perform this command on the bus.
    Bus(BusCommand),
    /// Report that the channel could not be opened, and terminate.
    Halt,
}

/// What the caller hands back: the outcome of the action it was asked for.
#[derive(Clone, Copy, Debug, PartialEq, Eq)]
pub enum Event {
    /// The link is up.
    LinkUp,
    /// The link could not be brought up.
    LinkFailed,
    /// The sleep is over.
    TimerElapsed,
    /// The channel is open.
    ChannelOpened,
    /// The channel could not be opened.
    ChannelFailed,
    /// The client took the payload.
    PublishAccepted,
    /// The payload was not handed over.
    PublishFailed,
    /// The answer of the bus to a command.
    Bus(BusReply),
}

/// Where the loop stands: the action it has asked for and waits on.
#[derive(Clone, Copy, Debug, PartialEq, Eq, Structural)]
pub enum Phase {
    /// An attempt to bring the link up is under way.
    EstablishingLink,
    /// The backoff after a failed attempt is running.
    LinkBackoff,
    /// The link is up, and the channel is being opened.
    LinkUp,
    /// The status report is being published.
    ReportingStatus,
    /// A command of an acquisition is on the bus.
    SensorReadAttempt { session: BusSession },
    /// A reading is being published in this form.
    Publishing { reading: Temperature, shape: ReadingShape },
    /// The rest of the cycle's period is being slept.
    Idle,
    /// The channel could not be opened: the agent has ended.
    Halted,
}

/// The sleep that fills a cycle's period: the whole period, less the
/// conversion wait where that lies behind.
pub open spec fn idle_wait_ms(waited: bool) -> u32 {
    if waited {
        (CYCLE_PERIOD_MS - CONVERSION_DELAY_MS) as u32
    } else {
        CYCLE_PERIOD_MS
    }
}

/// The start of a cycle: a new acquisition, with its first command.
pub open spec fn cycle_start() -> (Phase, Action) {
    (
        Phase::SensorReadAttempt { session: BusSession { stage: BusStage::FirstReset } },
        Action::Bus(BusCommand::Reset),
    )
}

/// The end of a cycle without a reading.
pub open spec fn cycle_abandoned(waited: bool) -> (Phase, Action) {
    (Phase::Idle, Action::Sleep { ms: idle_wait_ms(waited) })
}

/// The phase after `event` arrives in `phase`, and the action to take.
///
/// - While the link is being established, anything but success leads to the
///   backoff and another attempt, without end.
/// - The channel is opened once the link is up. If that fails the agent
///   halts; nothing else halts it.
/// - The status report is published once. Whether it was taken or not, the
///   cycles begin.
/// - In a cycle the acquisition runs command by command. When it is given
///   up, or the scratchpad does not decode, the rest of the period is slept
///   and nothing is published. When the scratchpad decodes, the reading is
///   published plain, timestamped and canonical, in that order, each
///   whatever became of the one before; then the rest of the period is
///   slept.
/// - An event that does not answer the action asked for counts as that
///   action's failure; a sleep is over with whatever arrives next.
pub open spec fn transition(phase: Phase, event: Event) -> (Phase, Action) {
    match phase {
        Phase::EstablishingLink => match event {
            Event::LinkUp => (Phase::LinkUp, Action::OpenChannel),
            _ => (Phase::LinkBackoff, Action::Sleep { ms: LINK_RETRY_BACKOFF_MS }),
        },
        Phase::LinkBackoff => (Phase::EstablishingLink, Action::ConnectLink),
        Phase::LinkUp => match event {
            Event::ChannelOpened => (Phase::ReportingStatus, Action::Publish(Outgoing::Status)),
            _ => (Phase::Halted, Action::Halt),
        },
        Phase::ReportingStatus => cycle_start(),
        Phase::SensorReadAttempt { session } => match event {
            Event::Bus(reply) => match stage_step(session.stage, reply) {
                BusStep::Continue(s) => (
                    Phase::SensorReadAttempt { session: s },
                    Action::Bus(stage_command(s.stage)),
                ),
                BusStep::Complete(bytes) => match decoded(bytes@) {
                    Ok(reading) => (
                        Phase::Publishing { reading, shape: ReadingShape::Plain },
                        Action::Publish(
                            Outgoing::Reading { shape: ReadingShape::Plain, temperature: reading },
                        ),
                    ),
                    Err(_) => cycle_abandoned(true),
                },
                BusStep::Abort(_) => cycle_abandoned(conversion_waited(session.stage)),
            },
            _ => cycle_abandoned(conversion_waited(session.stage)),
        },
        Phase::Publishing { reading, shape } => match shape {
            ReadingShape::Plain => (
                Phase::Publishing { reading, shape: ReadingShape::Timestamped },
                Action::Publish(
                    Outgoing::Reading { shape: ReadingShape::Timestamped, temperature: reading },
                ),
            ),
            ReadingShape::Timestamped => (
                Phase::Publishing { reading, shape: ReadingShape::Canonical },
                Action::Publish(
                    Outgoing::Reading { shape: ReadingShape::Canonical, temperature: reading },
                ),
            ),
            ReadingShape::Canonical => cycle_abandoned(true),
        },
        Phase::Idle => cycle_start(),
        Phase::Halted => (Phase::Halted, Action::Halt),
    }
}

/// The acquisition loop.
#[derive(Debug)]
pub struct AcquisitionLoop {
    pub phase: Phase,
}

impl AcquisitionLoop {
    /// A loop at its start, together with its first action: to bring the
    /// link up.
    pub fn start() -> (r: (AcquisitionLoop, Action))
        ensures
            r.0.phase == Phase::EstablishingLink,
            r.1 == Action::ConnectLink,
    {
        (AcquisitionLoop { phase: Phase::EstablishingLink }, Action::ConnectLink)
    }

    /// Where the loop stands.
    pub fn phase(&self) -> (p: Phase)
        ensures
            p == self.phase,
    {
        self.phase
    }

    /// Whether the agent has ended.
    pub fn is_halted(&self) -> (b: bool)
        ensures
            b == (self.phase == Phase::Halted),
    {
        match self.phase {
            Phase::Halted => true,
            _ => false,
        }
    }

    /// Takes the outcome of the last action and returns the next one.
    pub fn step(&mut self, event: Event) -> (action: Action)
        ensures
            (final(self).phase, action) == transition(old(self).phase, event),
    {
        let (phase, action) = match self.phase {
            Phase::EstablishingLink => match event {
                Event::LinkUp => (Phase::LinkUp, Action::OpenChannel),
                _ => (Phase::LinkBackoff, Action::Sleep { ms: LINK_RETRY_BACKOFF_MS }),
            },
            Phase::LinkBackoff => (Phase::EstablishingLink, Action::ConnectLink),
            Phase::LinkUp => match event {
                Event::ChannelOpened => (
                    Phase::ReportingStatus,
                    Action::Publish(Outgoing::Status),
                ),
                _ => (Phase::Halted, Action::Halt),
            },
            Phase::ReportingStatus => begin_cycle(),
            Phase::SensorReadAttempt { session } => match event {
                Event::Bus(reply) => match session.advance(reply) {
                    BusStep::Continue(s) => (
                        Phase::SensorReadAttempt { session: s },
                        Action::Bus(s.command()),
                    ),
                    BusStep::Complete(bytes) => match decode_scratchpad(&bytes) {
                        Ok(reading) => (
                            Phase::Publishing { reading, shape: ReadingShape::Plain },
                            Action::Publish(
                                Outgoing::Reading {
                                    shape: ReadingShape::Plain,
                                    temperature: reading,
                                },
                            ),
                        ),
                        Err(_) => abandon_cycle(true),
                    },
                    BusStep::Abort(_) => abandon_cycle(session.has_waited()),
                },
                _ => abandon_cycle(session.has_waited()),
            },
            Phase::Publishing { reading, shape } => match shape {
                ReadingShape::Plain => (
                    Phase::Publishing { reading, shape: ReadingShape::Timestamped },
                    Action::Publish(
                        Outgoing::Reading {
                            shape: ReadingShape::Timestamped,
                            temperature: reading,
                        },
                    ),
                ),
                ReadingShape::Timestamped => (
                    Phase::Publishing { reading, shape: ReadingShape::Canonical },
                    Action::Publish(
                        Outgoing::Reading {
                            shape: ReadingShape::Canonical,
                            temperature: reading,
                        },
                    ),
                ),
                ReadingShape::Canonical => abandon_cycle(true),
            },
            Phase::Idle => begin_cycle(),
            Phase::Halted => (Phase::Halted, Action::Halt),
        };
        self.phase = phase;
        action
    }
}

/// Starts a cycle.
fn begin_cycle() -> (r: (Phase, Action))
    ensures
        r == cycle_start(),
{
    let session = BusSession::begin();
    (Phase::SensorReadAttempt { session }, Action::Bus(session.command()))
}

/// Ends a cycle: sleeps what is left of its period.
fn abandon_cycle(waited: bool) -> (r: (Phase, Action))
    ensures
        r == cycle_abandoned(waited),
{
    let ms: u32 = if waited {
        CYCLE_PERIOD_MS - CONVERSION_DELAY_MS
    } else {
        CYCLE_PERIOD_MS
    };
    (Phase::Idle, Action::Sleep { ms })
}

/// Where the loop begins.
pub open spec fn initial_phase() -> Phase {
    Phase::EstablishingLink
}

/// The phase that the loop is in after `events` have arrived one by one,
/// from `phase` on.
pub open spec fn run(phase: Phase, events: Seq<Event>) -> Phase
    decreases events.len(),
{
    if events.len() == 0 {
        phase
    } else {
        transition(run(phase, events.drop_last()), events.last()).0
    }
}

/// The action that answers the event at index `i` of `events`.
pub open spec fn action_at(phase: Phase, events: Seq<Event>, i: int) -> Action {
    transition(run(phase, events.take(i)), events[i]).1
}

/// The number of times that the loop asks for the channel to be opened
/// while `events` arrive, from its beginning on.
pub open spec fn channel_opens(events: Seq<Event>) -> nat
    decreases events.len(),
{
    if events.len() == 0 {
        0
    } else {
        let before = channel_opens(events.drop_last());
        if transition(run(initial_phase(), events.drop_last()), events.last()).1 == Action::OpenChannel {
            before + 1
        } else {
            before
        }
    }
}

/// Whether `event` in the acquisition `session` ends the cycle without a
/// reading: the bus gives the acquisition up, the event is no answer of the
/// bus at all, or the scratchpad that was read does not decode.
pub open spec fn fails_cycle(session: BusSession, event: Event) -> bool {
    match event {
        Event::Bus(reply) => match stage_step(session.stage, reply) {
            BusStep::Continue(_) => false,
            BusStep::Complete(bytes) => decoded(bytes@) is Err,
            BusStep::Abort(_) => true,
        },
        _ => true,
    }
}

/// Whether the loop is in its cycles: the channel is open, and the loop
/// reports, samples, publishes or sleeps.
pub open spec fn in_cycles(phase: Phase) -> bool {
    phase is ReportingStatus || phase is SensorReadAttempt || phase is Publishing || phase is Idle
}

/// A step that leaves the loop in an acquisition asks for a command on the
/// bus, never for a publish.
proof fn lemma_step_into_acquisition(phase: Phase, event: Event)
    requires
        transition(phase, event).0 is SensorReadAttempt,
    ensures
        transition(phase, event).1 is Bus,
{
}

/// The run up to and with the event at index `i` is one step on from the
/// run before it.
proof fn lemma_run_unfolds(phase: Phase, events: Seq<Event>, i: int)
    requires
        0 <= i < events.len(),
    ensures
        run(phase, events.take(i + 1)) == transition(run(phase, events.take(i)), events[i]).0,
{
    assert(events.take(i + 1).drop_last() =~= events.take(i));
    assert(events.take(i + 1).last() == events[i]);
}

/// A fault on the bus during a cycle means that nothing is published in
/// that cycle, and that the loop goes on to the next one.
///
/// `events` are those of one cycle, from its start: all but the last keep
/// the acquisition going, and the last fails it, be it at a reset, a write,
/// the wait or the read. Then none of the actions that answer them is a
/// publish, the loop is left idle, and whatever arrives next starts a new
/// cycle.
pub proof fn lemma_faulty_cycle_publishes_nothing(events: Seq<Event>)
    requires
        events.len() > 0,
        forall|i: int|
            0 <= i < events.len() ==> #[trigger] run(cycle_start().0, events.take(i))
                is SensorReadAttempt,
        fails_cycle(
            run(cycle_start().0, events.drop_last())->SensorReadAttempt_session,
            events.last(),
        ),
    ensures
        forall|i: int|
            0 <= i < events.len() ==> !(#[trigger] action_at(cycle_start().0, events, i)
                is Publish),
        run(cycle_start().0, events) == Phase::Idle,
        forall|e: Event| #[trigger] transition(run(cycle_start().0, events), e) == cycle_start(),
{
    let start = cycle_start().0;
    let n = events.len() as int;
    assert(events.take(n - 1) =~= events.drop_last());
    assert(run(start, events.take(n - 1)) is SensorReadAttempt);
    assert forall|i: int| 0 <= i < n implies !(#[trigger] action_at(start, events, i)
        is Publish) by {
        if i < n - 1 {
            lemma_run_unfolds(start, events, i);
            assert(run(start, events.take(i + 1)) is SensorReadAttempt);
            lemma_step_into_acquisition(run(start, events.take(i)), events[i]);
        }
    }
}

/// The loop asks for the channel to be opened in one situation only: when
/// an attempt to bring the link up has succeeded.
pub proof fn lemma_open_follows_link_up(phase: Phase, event: Event)
    ensures
        transition(phase, event).1 == Action::OpenChannel <==> phase == Phase::EstablishingLink && event
            == Event::LinkUp,
{
}

/// Whatever arrives, the loop asks for the channel to be opened at most
/// once: not at all while the link is not up, and once from then on.
pub proof fn lemma_channel_opened_at_most_once(events: Seq<Event>)
    ensures
        channel_opens(events) <= 1,
        channel_opens(events) == 0 <==> run(initial_phase(), events) is EstablishingLink || run(
            initial_phase(),
            events,
        ) is LinkBackoff,
    decreases events.len(),
{
    if events.len() > 0 {
        lemma_channel_opened_at_most_once(events.drop_last());
    }
}

/// Once the channel is open nothing ends the loop: from its cycles every
/// event leads back into its cycles, and never to a halt.
pub proof fn lemma_cycles_never_halt(phase: Phase, event: Event)
    requires
        in_cycles(phase),
    ensures
        in_cycles(transition(phase, event).0),
        transition(phase, event).1 != Action::Halt,
        transition(phase, event).1 != Action::OpenChannel,
        transition(phase, event).1 != Action::ConnectLink,
{
}

/// A scratchpad that decodes is published in all three forms, in the order
/// plain, timestamped, canonical, whatever becomes of each publish; after
/// the third the rest of the period is slept.
pub proof fn lemma_reading_published_in_three_forms(
    bytes: [u8; 9],
    after_plain: Event,
    after_timestamped: Event,
    after_canonical: Event,
)
    requires
        decoded(bytes@) is Ok,
    ensures
        ({
            let reading = decoded(bytes@)->Ok_0;
            let plain = Phase::Publishing { reading, shape: ReadingShape::Plain };
            let timestamped = Phase::Publishing { reading, shape: ReadingShape::Timestamped };
            let canonical = Phase::Publishing { reading, shape: ReadingShape::Canonical };
            &&& transition(
                Phase::SensorReadAttempt { session: BusSession { stage: BusStage::Scratchpad } },
                Event::Bus(BusReply::ReadDone(bytes)),
            ) == (
                plain,
                Action::Publish(
                    Outgoing::Reading { shape: ReadingShape::Plain, temperature: reading },
                ),
            )
            &&& transition(plain, after_plain) == (
                timestamped,
                Action::Publish(
                    Outgoing::Reading { shape: ReadingShape::Timestamped, temperature: reading },
                ),
            )
            &&& transition(timestamped, after_timestamped) == (
                canonical,
                Action::Publish(
                    Outgoing::Reading { shape: ReadingShape::Canonical, temperature: reading },
                ),
            )
            &&& transition(canonical, after_canonical) == (Phase::Idle, Action::Sleep { ms: 2250 })
        }),
{
}

/// A publish of a reading is asked for only with a reading that a
/// scratchpad with a matching checksum decoded to, or that is already being
/// published.
pub proof fn lemma_publish_needs_a_reading(phase: Phase, event: Event)
    requires
        transition(phase, event).1 matches Action::Publish(Outgoing::Reading { .. }),
    ensures
        phase is Publishing || (phase matches Phase::SensorReadAttempt { session }
            && !fails_cycle(session, event) && stage_step(session.stage, event->Bus_0)
            is Complete),
{
}

} // verus!
