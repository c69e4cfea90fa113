use amp_mate::controller::protocol::error::{DecodeErrorKind, FrameDecodeError};
use amp_mate::controller::protocol::{
    Change, Direction, RotelCommand, RotelQuery, RotelResponse, StateToggle, Volume,
};
use amp_mate::controller::routines::{
    writer_step, Reader, ReaderAction, ReaderEvent, StopCause, WriterAction, WriterEvent,
};
use amp_mate::controller::session::{
    Routine, Session, SessionAction, SessionError, SessionEvent, SessionMode, SessionState,
    TerminationReason, QUEUE_DEPTH,
};
use amp_mate::controller::RotelController;

fn running(mode: SessionMode) -> Session {
    let mut session = Session::new(mode);
    session.step(SessionEvent::Start);
    session.step(SessionEvent::Connected);
    session.step(SessionEvent::LowLatencyApplied);
    assert_eq!(session.current(), SessionState::Running);
    session
}

fn every_event() -> Vec<SessionEvent> {
    vec![
        SessionEvent::Start,
        SessionEvent::Connected,
        SessionEvent::ConnectFailed,
        SessionEvent::LowLatencyApplied,
        SessionEvent::LowLatencyFailed,
        SessionEvent::Stopped(Routine::Reader, StopCause::QueueClosed),
        SessionEvent::Stopped(Routine::Reader, StopCause::ConnectionLost),
        SessionEvent::Stopped(Routine::Writer, StopCause::QueueClosed),
        SessionEvent::Stopped(Routine::Writer, StopCause::ConnectionLost),
        SessionEvent::Written,
        SessionEvent::WriteFailed,
    ]
}

#[test]
fn queues_hold_eight() {
    assert_eq!(QUEUE_DEPTH, 8);
}

#[test]
fn controller_keeps_its_address() {
    let controller = RotelController::new("192.168.1.20:9590".to_string());
    assert_eq!(controller.address(), "192.168.1.20:9590");
    assert_eq!(controller.run().current(), SessionState::Disconnected);
    let command = RotelCommand::Get(RotelQuery::Power);
    assert_eq!(controller.one_shot(command), Session::new(SessionMode::OneShot(command)));
    assert_eq!(controller.run(), Session::new(SessionMode::Duplex));
}

#[test]
fn reader_decodes_what_a_read_completes() {
    let mut reader = Reader::new();
    assert_eq!(
        reader.step(ReaderEvent::Read(b"power=on$volume=3")),
        ReaderAction::Deliver(vec![Ok(RotelResponse::Power(StateToggle::On))])
    );
    assert_eq!(
        reader.step(ReaderEvent::Read(b"0$mute=off$display=hello$")),
        ReaderAction::Deliver(vec![
            Ok(RotelResponse::Volume(Volume::try_from(30).unwrap())),
            Ok(RotelResponse::Mute(StateToggle::Off)),
            Ok(RotelResponse::Unknown("display=hello".to_string())),
        ])
    );
    assert_eq!(reader.step(ReaderEvent::Read(b"pow")), ReaderAction::Deliver(vec![]));
}

#[test]
fn reader_goes_on_after_a_frame_that_does_not_decode() {
    let mut reader = Reader::new();
    assert_eq!(
        reader.step(ReaderEvent::Read(b"power=banana$garbage$mute=on$")),
        ReaderAction::Deliver(vec![
            Err(FrameDecodeError {
                kind: DecodeErrorKind::InvalidValue,
                frame: b"power=banana".to_vec(),
            }),
            Err(FrameDecodeError {
                kind: DecodeErrorKind::MalformedFrame,
                frame: b"garbage".to_vec(),
            }),
            Ok(RotelResponse::Mute(StateToggle::On)),
        ])
    );
    assert_eq!(
        reader.step(ReaderEvent::Read(&[0xff, b'$', b'v', b'o', b'l'])),
        ReaderAction::Deliver(vec![Err(FrameDecodeError {
            kind: DecodeErrorKind::NotText,
            frame: vec![0xff],
        })])
    );
}

#[test]
fn reader_stops_on_a_read_of_no_bytes() {
    let mut reader = Reader::new();
    assert_eq!(reader.step(ReaderEvent::Read(b"")), ReaderAction::Stop(StopCause::ConnectionLost));
    let mut reader = Reader::new();
    reader.step(ReaderEvent::Read(b"power=o"));
    assert_eq!(reader.step(ReaderEvent::Read(&[])), ReaderAction::Stop(StopCause::ConnectionLost));
}

#[test]
fn reader_stops_on_failure_and_on_a_closed_queue() {
    let mut reader = Reader::new();
    assert_eq!(reader.step(ReaderEvent::ReadFailed), ReaderAction::Stop(StopCause::ConnectionLost));
    assert_eq!(reader.step(ReaderEvent::SinkClosed), ReaderAction::Stop(StopCause::QueueClosed));
}

#[test]
fn reader_keeps_its_bytes_when_it_stops() {
    let mut reader = Reader::new();
    reader.step(ReaderEvent::Read(b"power=o"));
    reader.step(ReaderEvent::SinkClosed);
    assert_eq!(
        reader.step(ReaderEvent::Read(b"n$")),
        ReaderAction::Deliver(vec![Ok(RotelResponse::Power(StateToggle::On))])
    );
}

#[test]
fn writer_encodes_each_command() {
    let command = RotelCommand::Apply(Change::Volume(Volume::Direction(Direction::Up)));
    assert_eq!(writer_step(WriterEvent::Command(command)), WriterAction::Write(b"vol_up!".to_vec()));
    assert_eq!(
        writer_step(WriterEvent::Command(RotelCommand::Get(RotelQuery::Volume))),
        WriterAction::Write(b"volume?".to_vec())
    );
}

#[test]
fn writer_stops_on_a_closed_queue_and_on_failure() {
    assert_eq!(writer_step(WriterEvent::SourceClosed), WriterAction::Stop(StopCause::QueueClosed));
    assert_eq!(writer_step(WriterEvent::WriteFailed), WriterAction::Stop(StopCause::ConnectionLost));
}

#[test]
fn duplex_session_runs_after_connecting_with_low_latency() {
    let mut session = Session::new(SessionMode::Duplex);
    assert_eq!(session.current(), SessionState::Disconnected);
    assert_eq!(session.outcome(), None);
    assert_eq!(session.step(SessionEvent::Start), SessionAction::Connect);
    assert_eq!(session.current(), SessionState::Connecting { established: false });
    assert_eq!(session.step(SessionEvent::Connected), SessionAction::DisableCoalescing);
    assert_eq!(session.current(), SessionState::Connecting { established: true });
    assert_eq!(session.outcome(), None);
    assert_eq!(session.step(SessionEvent::LowLatencyApplied), SessionAction::StartRoutines);
    assert_eq!(session.current(), SessionState::Running);
    assert_eq!(session.outcome(), None);
}

#[test]
fn session_does_not_run_before_low_latency_is_applied() {
    let mut session = Session::new(SessionMode::Duplex);
    assert_eq!(session.step(SessionEvent::LowLatencyApplied), SessionAction::Nothing);
    assert_eq!(session.current(), SessionState::Disconnected);
    session.step(SessionEvent::Start);
    assert_eq!(session.step(SessionEvent::LowLatencyApplied), SessionAction::Nothing);
    assert_eq!(session.current(), SessionState::Connecting { established: false });
    assert_eq!(
        session.step(SessionEvent::Stopped(Routine::Reader, StopCause::ConnectionLost)),
        SessionAction::Nothing
    );
    assert_eq!(session.current(), SessionState::Connecting { established: false });
}

#[test]
fn failed_connection_is_a_connect_error() {
    let mut session = Session::new(SessionMode::Duplex);
    session.step(SessionEvent::Start);
    assert_eq!(session.step(SessionEvent::ConnectFailed), SessionAction::Nothing);
    assert_eq!(session.current(), SessionState::Terminated(TerminationReason::ConnectError));
    assert_eq!(session.outcome(), Some(Err(SessionError::ConnectError)));

    let mut session = Session::new(SessionMode::Duplex);
    session.step(SessionEvent::Start);
    session.step(SessionEvent::Connected);
    assert_eq!(session.step(SessionEvent::LowLatencyFailed), SessionAction::Nothing);
    assert_eq!(session.outcome(), Some(Err(SessionError::ConnectError)));
}

#[test]
fn zero_length_read_ends_the_session() {
    let mut reader = Reader::new();
    let cause = match reader.step(ReaderEvent::Read(&[])) {
        ReaderAction::Stop(cause) => cause,
        other => panic!("unexpected {:?}", other),
    };
    let mut session = running(SessionMode::Duplex);
    assert_eq!(
        session.step(SessionEvent::Stopped(Routine::Reader, cause)),
        SessionAction::Cancel(Routine::Writer)
    );
    assert_eq!(session.current(), SessionState::Terminated(TerminationReason::ConnectionLost));
    assert_eq!(session.outcome(), Some(Err(SessionError::ConnectionLost)));
    for event in every_event() {
        assert_eq!(session.step(event), SessionAction::Nothing);
        assert_eq!(session.current(), SessionState::Terminated(TerminationReason::ConnectionLost));
    }
}

#[test]
fn first_routine_to_stop_decides_the_end() {
    let mut session = running(SessionMode::Duplex);
    assert_eq!(
        session.step(SessionEvent::Stopped(Routine::Writer, StopCause::QueueClosed)),
        SessionAction::Cancel(Routine::Reader)
    );
    assert_eq!(session.outcome(), Some(Ok(())));
    assert_eq!(
        session.step(SessionEvent::Stopped(Routine::Reader, StopCause::ConnectionLost)),
        SessionAction::Nothing
    );
    assert_eq!(session.outcome(), Some(Ok(())));

    let mut session = running(SessionMode::Duplex);
    assert_eq!(
        session.step(SessionEvent::Stopped(Routine::Writer, StopCause::ConnectionLost)),
        SessionAction::Cancel(Routine::Reader)
    );
    assert_eq!(session.outcome(), Some(Err(SessionError::ConnectionLost)));

    let mut session = running(SessionMode::Duplex);
    assert_eq!(
        session.step(SessionEvent::Stopped(Routine::Reader, StopCause::QueueClosed)),
        SessionAction::Cancel(Routine::Writer)
    );
    assert_eq!(session.current(), SessionState::Terminated(TerminationReason::GracefulClose));
}

#[test]
fn one_shot_sends_its_command_and_ends() {
    let command = RotelCommand::Apply(Change::Mute(StateToggle::On));
    let mut session = Session::new(SessionMode::OneShot(command));
    assert_eq!(session.step(SessionEvent::Start), SessionAction::Connect);
    assert_eq!(session.step(SessionEvent::Connected), SessionAction::DisableCoalescing);
    assert_eq!(session.step(SessionEvent::LowLatencyApplied), SessionAction::Send(command));
    assert_eq!(
        session.step(SessionEvent::Stopped(Routine::Reader, StopCause::ConnectionLost)),
        SessionAction::Nothing
    );
    assert_eq!(session.current(), SessionState::Running);
    assert_eq!(session.step(SessionEvent::Written), SessionAction::Nothing);
    assert_eq!(session.outcome(), Some(Ok(())));

    let mut session = running(SessionMode::OneShot(command));
    assert_eq!(session.step(SessionEvent::WriteFailed), SessionAction::Nothing);
    assert_eq!(session.outcome(), Some(Err(SessionError::ConnectionLost)));
}

#[test]
fn duplex_session_ignores_one_shot_events() {
    let mut session = running(SessionMode::Duplex);
    assert_eq!(session.step(SessionEvent::Written), SessionAction::Nothing);
    assert_eq!(session.step(SessionEvent::WriteFailed), SessionAction::Nothing);
    assert_eq!(session.step(SessionEvent::Start), SessionAction::Nothing);
    assert_eq!(session.step(SessionEvent::Connected), SessionAction::Nothing);
    assert_eq!(session.current(), SessionState::Running);
}
