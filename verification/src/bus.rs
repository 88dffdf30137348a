//! One acquisition on the single-wire bus: which command goes out next, and
//! what each answer of the driver means.
//!
//! The session decides; the caller drives the line. It performs the command
//! that the session asks for and hands back what the driver reported.

use vstd::prelude::*;

verus! {

/// Addresses every device on the bus at once.
pub const SKIP_ROM: u8 = 0xCC;

/// Starts a temperature conversion.
pub const CONVERT_T: u8 = 0x44;

/// Asks for the scratchpad.
pub const READ_SCRATCHPAD: u8 = 0xBE;

/// The time that the sensor is given for a conversion, in milliseconds: its
/// worst case at full resolution.
pub const CONVERSION_DELAY_MS: u32 = 750;

/// Why an acquisition was given up.
#[derive(Clone, Copy, Debug, PartialEq, Eq, Structural)]
pub enum BusFault {
    /// No device answered a reset.
    NoPresence,
    /// The line or the pin did not behave as the protocol requires.
    LineError,
}

/// The answer of a device to a reset.
#[derive(Clone, Copy, Debug, PartialEq, Eq, Structural)]
pub struct PresencePulse;

/// What the driver found when it reset the bus.
#[derive(Clone, Copy, Debug, PartialEq, Eq, Structural)]
pub enum ResetReport {
    /// A device pulled the line low in the presence window.
    Presence,
    /// The line is in order, but no device answered.
    Silence,
    /// The line did not return to high before the reset.
    WireNotHigh,
    /// The pin reported an error.
    PortError,
}

/// The function that a frame asks of the sensor.
#[derive(Clone, Copy, Debug, PartialEq, Eq, Structural)]
pub enum FunctionCommand {
    ConvertT,
    ReadScratchpad,
}

/// What the session asks the caller to do on the bus.
#[derive(Clone, Copy, Debug, PartialEq, Eq, Structural)]
pub enum BusCommand {
    /// Send a reset pulse and listen for a presence pulse.
    Reset,
    /// Write the frame of this function command.
    Write { command: FunctionCommand },
    /// Leave the bus alone for this many milliseconds.
    Wait { ms: u32 },
    /// Read the nine bytes of the scratchpad.
    ReadScratchpad,
}

/// What the caller hands back after a command.
#[derive(Clone, Copy, Debug, PartialEq, Eq)]
pub enum BusReply {
    /// The reset was made, with this finding.
    ResetDone(ResetReport),
    /// The frame was written.
    WriteDone,
    /// The wait is over.
    WaitDone,
    /// These nine bytes were read.
    ReadDone([u8; 9]),
    /// The pin reported an error during a write or a read.
    PortFailed,
}

/// The command that the session waits on.
#[derive(Clone, Copy, Debug, PartialEq, Eq, Structural)]
pub enum BusStage {
    FirstReset,
    ConvertWrite,
    Conversion,
    SecondReset,
    ReadWrite,
    Scratchpad,
}

/// One acquisition in progress. It holds nothing but its place in the
/// sequence, and ends with the acquisition.
#[derive(Clone, Copy, Debug, PartialEq, Eq, Structural)]
pub struct BusSession {
    pub stage: BusStage,
}

/// Where an answer leaves the session.
#[derive(Clone, Copy, Debug, PartialEq, Eq)]
pub enum BusStep {
    /// The sequence goes on with the command of this session.
    Continue(BusSession),
    /// The sequence is complete: the scratchpad as it was read.
    Complete([u8; 9]),
    /// The acquisition is given up.
    Abort(BusFault),
}

/// What a reset's finding means: a device is there, or the fault.
pub open spec fn reset_outcome(report: ResetReport) -> Result<PresencePulse, BusFault> {
    match report {
        ResetReport::Presence => Ok(PresencePulse),
        ResetReport::Silence => Err(BusFault::NoPresence),
        ResetReport::WireNotHigh => Err(BusFault::LineError),
        ResetReport::PortError => Err(BusFault::LineError),
    }
}

/// The command byte of a function command.
pub open spec fn function_code(command: FunctionCommand) -> u8 {
    match command {
        FunctionCommand::ConvertT => CONVERT_T,
        FunctionCommand::ReadScratchpad => READ_SCRATCHPAD,
    }
}

/// The command that a stage waits on.
pub open spec fn stage_command(stage: BusStage) -> BusCommand {
    match stage {
        BusStage::FirstReset => BusCommand::Reset,
        BusStage::ConvertWrite => BusCommand::Write { command: FunctionCommand::ConvertT },
        BusStage::Conversion => BusCommand::Wait { ms: CONVERSION_DELAY_MS },
        BusStage::SecondReset => BusCommand::Reset,
        BusStage::ReadWrite => BusCommand::Write { command: FunctionCommand::ReadScratchpad },
        BusStage::Scratchpad => BusCommand::ReadScratchpad,
    }
}

/// Where the answer `reply` to the command of `stage` leaves the session.
///
/// The answer that the stage waits for moves the session one command on, or
/// completes it after the read. A reset without a presence pulse, an error
/// of the pin, and an answer to another command than the one asked all give
/// the acquisition up: nothing is tried again within it.
pub open spec fn stage_step(stage: BusStage, reply: BusReply) -> BusStep {
    match (stage, reply) {
        (BusStage::FirstReset, BusReply::ResetDone(report)) => match reset_outcome(report) {
            Ok(_) => BusStep::Continue(BusSession { stage: BusStage::ConvertWrite }),
            Err(fault) => BusStep::Abort(fault),
        },
        (BusStage::ConvertWrite, BusReply::WriteDone) => BusStep::Continue(
            BusSession { stage: BusStage::Conversion },
        ),
        (BusStage::Conversion, BusReply::WaitDone) => BusStep::Continue(
            BusSession { stage: BusStage::SecondReset },
        ),
        (BusStage::SecondReset, BusReply::ResetDone(report)) => match reset_outcome(report) {
            Ok(_) => BusStep::Continue(BusSession { stage: BusStage::ReadWrite }),
            Err(fault) => BusStep::Abort(fault),
        },
        (BusStage::ReadWrite, BusReply::WriteDone) => BusStep::Continue(
            BusSession { stage: BusStage::Scratchpad },
        ),
        (BusStage::Scratchpad, BusReply::ReadDone(bytes)) => BusStep::Complete(bytes),
        _ => BusStep::Abort(BusFault::LineError),
    }
}

/// Whether the conversion wait lies behind a session at `stage`.
pub open spec fn conversion_waited(stage: BusStage) -> bool {
    stage == BusStage::SecondReset || stage == BusStage::ReadWrite || stage
        == BusStage::Scratchpad
}

/// Tells what a reset's finding means.
pub fn classify_reset(report: ResetReport) -> (r: Result<PresencePulse, BusFault>)
    ensures
        r == reset_outcome(report),
{
    match report {
        ResetReport::Presence => Ok(PresencePulse),
        ResetReport::Silence => Err(BusFault::NoPresence),
        ResetReport::WireNotHigh => Err(BusFault::LineError),
        ResetReport::PortError => Err(BusFault::LineError),
    }
}

impl FunctionCommand {
    /// The command byte.
    pub fn code(&self) -> (c: u8)
        ensures
            c == function_code(*self),
    {
        match self {
            FunctionCommand::ConvertT => CONVERT_T,
            FunctionCommand::ReadScratchpad => READ_SCRATCHPAD,
        }
    }

    /// The two bytes to write: skip the ROM, then the command byte.
    pub fn frame(&self) -> (bytes: [u8; 2])
        ensures
            bytes@ == seq![SKIP_ROM, function_code(*self)],
    {
        let bytes: [u8; 2] = [SKIP_ROM, self.code()];
        assert(bytes@ =~= seq![SKIP_ROM, function_code(*self)]);
        bytes
    }
}

impl BusSession {
    /// A session at its start: it waits on the first reset.
    pub fn begin() -> (s: BusSession)
        ensures
            s.stage == BusStage::FirstReset,
    {
        BusSession { stage: BusStage::FirstReset }
    }

    /// The command that the session waits on.
    pub fn command(&self) -> (c: BusCommand)
        ensures
            c == stage_command(self.stage),
    {
        match self.stage {
            BusStage::FirstReset => BusCommand::Reset,
            BusStage::ConvertWrite => BusCommand::Write { command: FunctionCommand::ConvertT },
            BusStage::Conversion => BusCommand::Wait { ms: CONVERSION_DELAY_MS },
            BusStage::SecondReset => BusCommand::Reset,
            BusStage::ReadWrite => BusCommand::Write { command: FunctionCommand::ReadScratchpad },
            BusStage::Scratchpad => BusCommand::ReadScratchpad,
        }
    }

    /// Whether the conversion wait lies behind the session.
    pub fn has_waited(&self) -> (b: bool)
        ensures
            b == conversion_waited(self.stage),
    {
        match self.stage {
            BusStage::SecondReset => true,
            BusStage::ReadWrite => true,
            BusStage::Scratchpad => true,
            _ => false,
        }
    }

    /// Takes the answer to the command that the session waits on.
    pub fn advance(self, reply: BusReply) -> (step: BusStep)
        ensures
            step == stage_step(self.stage, reply),
    {
        match self.stage {
            BusStage::FirstReset => match reply {
                BusReply::ResetDone(report) => match classify_reset(report) {
                    Ok(_) => BusStep::Continue(BusSession { stage: BusStage::ConvertWrite }),
                    Err(fault) => BusStep::Abort(fault),
                },
                _ => BusStep::Abort(BusFault::LineError),
            },
            BusStage::ConvertWrite => match reply {
                BusReply::WriteDone => BusStep::Continue(
                    BusSession { stage: BusStage::Conversion },
                ),
                _ => BusStep::Abort(BusFault::LineError),
            },
            BusStage::Conversion => match reply {
                BusReply::WaitDone => BusStep::Continue(
                    BusSession { stage: BusStage::SecondReset },
                ),
                _ => BusStep::Abort(BusFault::LineError),
            },
            BusStage::SecondReset => match reply {
                BusReply::ResetDone(report) => match classify_reset(report) {
                    Ok(_) => BusStep::Continue(BusSession { stage: BusStage::ReadWrite }),
                    Err(fault) => BusStep::Abort(fault),
                },
                _ => BusStep::Abort(BusFault::LineError),
            },
            BusStage::ReadWrite => match reply {
                BusReply::WriteDone => BusStep::Continue(
                    BusSession { stage: BusStage::Scratchpad },
                ),
                _ => BusStep::Abort(BusFault::LineError),
            },
            BusStage::Scratchpad => match reply {
                BusReply::ReadDone(bytes) => BusStep::Complete(bytes),
                _ => BusStep::Abort(BusFault::LineError),
            },
        }
    }
}

/// An acquisition in which every command succeeds runs through the fixed
/// sequence: reset, skip ROM and convert, the conversion wait, reset, skip
/// ROM and read scratchpad, and the read, which completes it with the bytes
/// that were read.
pub proof fn lemma_undisturbed_sequence(bytes: [u8; 9])
    ensures
        stage_command(BusStage::FirstReset) == BusCommand::Reset,
        stage_step(BusStage::FirstReset, BusReply::ResetDone(ResetReport::Presence))
            == BusStep::Continue(BusSession { stage: BusStage::ConvertWrite }),
        stage_command(BusStage::ConvertWrite) == (BusCommand::Write {
            command: FunctionCommand::ConvertT,
        }),
        stage_step(BusStage::ConvertWrite, BusReply::WriteDone) == BusStep::Continue(
            BusSession { stage: BusStage::Conversion },
        ),
        stage_command(BusStage::Conversion) == (BusCommand::Wait { ms: 750 }),
        stage_step(BusStage::Conversion, BusReply::WaitDone) == BusStep::Continue(
            BusSession { stage: BusStage::SecondReset },
        ),
        stage_command(BusStage::SecondReset) == BusCommand::Reset,
        stage_step(BusStage::SecondReset, BusReply::ResetDone(ResetReport::Presence))
            == BusStep::Continue(BusSession { stage: BusStage::ReadWrite }),
        stage_command(BusStage::ReadWrite) == (BusCommand::Write {
            command: FunctionCommand::ReadScratchpad,
        }),
        stage_step(BusStage::ReadWrite, BusReply::WriteDone) == BusStep::Continue(
            BusSession { stage: BusStage::Scratchpad },
        ),
        stage_command(BusStage::Scratchpad) == BusCommand::ReadScratchpad,
        stage_step(BusStage::Scratchpad, BusReply::ReadDone(bytes)) == BusStep::Complete(bytes),
{
}

/// A failed reset, and an error of the pin at any command, give the
/// acquisition up at once, whatever its stage.
pub proof fn lemma_faults_abort(stage: BusStage, report: ResetReport)
    requires
        report != ResetReport::Presence,
    ensures
        stage_step(stage, BusReply::PortFailed) == BusStep::Abort(BusFault::LineError),
        stage_step(stage, BusReply::ResetDone(report)) is Abort,
        (stage == BusStage::FirstReset || stage == BusStage::SecondReset) && report
            == ResetReport::Silence ==> stage_step(stage, BusReply::ResetDone(report))
            == BusStep::Abort(BusFault::NoPresence),
{
}

} // verus!
