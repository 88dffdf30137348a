use ds18b20_telemetry::bus::{
    classify_reset, BusCommand, BusFault, BusReply, BusSession, BusStage, BusStep,
    FunctionCommand, PresencePulse, ResetReport, CONVERSION_DELAY_MS, CONVERT_T,
    READ_SCRATCHPAD, SKIP_ROM,
};

const SCRATCHPAD: [u8; 9] = [0x50, 0x05, 0x4B, 0x46, 0x7F, 0xFF, 0x0C, 0x10, 0x1C];

fn session_at(stage: BusStage) -> BusSession {
    BusSession { stage }
}

fn all_stages() -> [BusStage; 6] {
    [
        BusStage::FirstReset,
        BusStage::ConvertWrite,
        BusStage::Conversion,
        BusStage::SecondReset,
        BusStage::ReadWrite,
        BusStage::Scratchpad,
    ]
}

#[test]
fn command_bytes() {
    assert_eq!(SKIP_ROM, 0xCC);
    assert_eq!(CONVERT_T, 0x44);
    assert_eq!(READ_SCRATCHPAD, 0xBE);
    assert_eq!(CONVERSION_DELAY_MS, 750);
    assert_eq!(FunctionCommand::ConvertT.code(), 0x44);
    assert_eq!(FunctionCommand::ReadScratchpad.code(), 0xBE);
    assert_eq!(FunctionCommand::ConvertT.frame(), [0xCC, 0x44]);
    assert_eq!(FunctionCommand::ReadScratchpad.frame(), [0xCC, 0xBE]);
}

#[test]
fn reset_findings() {
    assert_eq!(classify_reset(ResetReport::Presence), Ok(PresencePulse));
    assert_eq!(classify_reset(ResetReport::Silence), Err(BusFault::NoPresence));
    assert_eq!(classify_reset(ResetReport::WireNotHigh), Err(BusFault::LineError));
    assert_eq!(classify_reset(ResetReport::PortError), Err(BusFault::LineError));
}

#[test]
fn undisturbed_session_runs_the_fixed_sequence() {
    let mut session = BusSession::begin();
    let mut commands = vec![session.command()];
    let replies = [
        BusReply::ResetDone(ResetReport::Presence),
        BusReply::WriteDone,
        BusReply::WaitDone,
        BusReply::ResetDone(ResetReport::Presence),
        BusReply::WriteDone,
    ];
    for reply in replies {
        match session.advance(reply) {
            BusStep::Continue(next) => {
                session = next;
                commands.push(session.command());
            }
            other => panic!("gave up early: {:?}", other),
        }
    }
    assert_eq!(
        commands,
        vec![
            BusCommand::Reset,
            BusCommand::Write { command: FunctionCommand::ConvertT },
            BusCommand::Wait { ms: 750 },
            BusCommand::Reset,
            BusCommand::Write { command: FunctionCommand::ReadScratchpad },
            BusCommand::ReadScratchpad,
        ]
    );
    assert_eq!(
        session.advance(BusReply::ReadDone(SCRATCHPAD)),
        BusStep::Complete(SCRATCHPAD)
    );
}

#[test]
fn silent_reset_is_no_presence() {
    for stage in [BusStage::FirstReset, BusStage::SecondReset] {
        assert_eq!(
            session_at(stage).advance(BusReply::ResetDone(ResetReport::Silence)),
            BusStep::Abort(BusFault::NoPresence)
        );
        assert_eq!(
            session_at(stage).advance(BusReply::ResetDone(ResetReport::WireNotHigh)),
            BusStep::Abort(BusFault::LineError)
        );
        assert_eq!(
            session_at(stage).advance(BusReply::ResetDone(ResetReport::PortError)),
            BusStep::Abort(BusFault::LineError)
        );
    }
}

#[test]
fn port_failure_gives_up_at_every_stage() {
    for stage in all_stages() {
        assert_eq!(
            session_at(stage).advance(BusReply::PortFailed),
            BusStep::Abort(BusFault::LineError)
        );
    }
}

#[test]
fn answer_to_another_command_gives_up() {
    assert_eq!(
        session_at(BusStage::FirstReset).advance(BusReply::WriteDone),
        BusStep::Abort(BusFault::LineError)
    );
    assert_eq!(
        session_at(BusStage::ConvertWrite).advance(BusReply::ResetDone(ResetReport::Presence)),
        BusStep::Abort(BusFault::LineError)
    );
    assert_eq!(
        session_at(BusStage::Conversion).advance(BusReply::ReadDone(SCRATCHPAD)),
        BusStep::Abort(BusFault::LineError)
    );
    assert_eq!(
        session_at(BusStage::Scratchpad).advance(BusReply::WaitDone),
        BusStep::Abort(BusFault::LineError)
    );
}

#[test]
fn conversion_wait_lies_behind_the_later_stages() {
    assert!(!BusSession::begin().has_waited());
    assert!(!session_at(BusStage::ConvertWrite).has_waited());
    assert!(!session_at(BusStage::Conversion).has_waited());
    assert!(session_at(BusStage::SecondReset).has_waited());
    assert!(session_at(BusStage::ReadWrite).has_waited());
    assert!(session_at(BusStage::Scratchpad).has_waited());
}
