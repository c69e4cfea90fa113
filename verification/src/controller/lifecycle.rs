//! What holds of every session, whatever is reported to it.

use super::routines::{reader_stop, ReaderEvent, StopCause};
use super::session::{
    outcome_of, session_step, Routine, SessionAction, SessionError, SessionEvent, SessionMode,
    SessionState, TerminationReason,
};
use vstd::prelude::*;

verus! {

/// The state of a session to which `events` were reported in order.
pub open spec fn state_after(mode: SessionMode, events: Seq<SessionEvent>) -> SessionState
    decreases events.len(),
{
    if events.len() == 0 {
        SessionState::Disconnected
    } else {
        session_step(mode, state_after(mode, events.drop_last()), events.last()).0
    }
}

/// What a session to which `events` were reported asked for last.
pub open spec fn last_action(mode: SessionMode, events: Seq<SessionEvent>) -> SessionAction
    recommends
        events.len() > 0,
{
    session_step(mode, state_after(mode, events.drop_last()), events.last()).1
}

/// True when `events` report, in this order, that the connection was
/// established and that write coalescing was switched off on it.
pub open spec fn connected_with_low_latency(events: Seq<SessionEvent>) -> bool {
    exists|i: int, j: int|
        0 <= i < j < events.len() && events[i] == SessionEvent::Connected && events[j]
            == SessionEvent::LowLatencyApplied
}

/// True when `events` report that the connection was established.
pub open spec fn connected(events: Seq<SessionEvent>) -> bool {
    exists|i: int| 0 <= i < events.len() && events[i] == SessionEvent::Connected
}

/// Once a session is over it stays as it is and asks for nothing more,
/// whatever is reported to it.
pub proof fn lemma_terminated_is_final(
    mode: SessionMode,
    reason: TerminationReason,
    event: SessionEvent,
)
    ensures
        session_step(mode, SessionState::Terminated(reason), event) == (
            SessionState::Terminated(reason),
            SessionAction::Nothing,
        ),
{
}

/// A session runs only after the connection was established and write
/// coalescing was switched off on it, in this order; and it ends for any
/// reason but a failure to connect only after it ran.
pub proof fn lemma_running_needs_low_latency(mode: SessionMode, events: Seq<SessionEvent>)
    ensures
        state_after(mode, events) == (SessionState::Connecting { established: true })
            ==> connected(events),
        state_after(mode, events) == SessionState::Running ==> connected_with_low_latency(
            events,
        ),
        state_after(mode, events) == SessionState::Terminated(TerminationReason::GracefulClose)
            ==> connected_with_low_latency(events),
        state_after(mode, events) == SessionState::Terminated(TerminationReason::ConnectionLost)
            ==> connected_with_low_latency(events),
    decreases events.len(),
{
    if events.len() > 0 {
        let before = events.drop_last();
        lemma_running_needs_low_latency(mode, before);
        if connected(before) {
            let i = choose|i: int| 0 <= i < before.len() && before[i] == SessionEvent::Connected;
            assert(events[i] == SessionEvent::Connected);
        }
        if connected_with_low_latency(before) {
            let (i, j) = choose|i: int, j: int|
                0 <= i < j < before.len() && before[i] == SessionEvent::Connected && before[j]
                    == SessionEvent::LowLatencyApplied;
            assert(events[i] == SessionEvent::Connected && events[j]
                == SessionEvent::LowLatencyApplied);
        }
    }
}

/// A read of no bytes ends the whole session: the reader stops for a lost
/// connection; a running duplex session whose reader stopped so is over with
/// `ConnectionLost` and has the writer cancelled; and whatever is reported to
/// it afterwards, it stays over and asks for nothing, so that no command
/// which waited unsent is sent.
pub proof fn lemma_zero_length_read_ends_session(
    chunk: &[u8],
    before: Seq<SessionEvent>,
    later: Seq<SessionEvent>,
)
    requires
        chunk@.len() == 0,
        state_after(SessionMode::Duplex, before) == SessionState::Running,
    ensures
        reader_stop(ReaderEvent::Read(chunk)) == Some(StopCause::ConnectionLost),
        last_action(
            SessionMode::Duplex,
            before.push(SessionEvent::Stopped(Routine::Reader, StopCause::ConnectionLost)),
        ) == SessionAction::Cancel(Routine::Writer),
        state_after(
            SessionMode::Duplex,
            before.push(SessionEvent::Stopped(Routine::Reader, StopCause::ConnectionLost)) + later,
        ) == SessionState::Terminated(TerminationReason::ConnectionLost),
        outcome_of(
            state_after(
                SessionMode::Duplex,
                before.push(SessionEvent::Stopped(Routine::Reader, StopCause::ConnectionLost))
                    + later,
            ),
        ) == Some(Err::<(), SessionError>(SessionError::ConnectionLost)),
        later.len() > 0 ==> last_action(
            SessionMode::Duplex,
            before.push(SessionEvent::Stopped(Routine::Reader, StopCause::ConnectionLost)) + later,
        ) == SessionAction::Nothing,
    decreases later.len(),
{
    let stopped = before.push(
        SessionEvent::Stopped(Routine::Reader, StopCause::ConnectionLost),
    );
    assert(stopped.drop_last() =~= before);
    if later.len() > 0 {
        lemma_zero_length_read_ends_session(chunk, before, later.drop_last());
        assert((stopped + later).drop_last() =~= stopped + later.drop_last());
        lemma_terminated_is_final(
            SessionMode::Duplex,
            TerminationReason::ConnectionLost,
            later.last(),
        );
    }
}

} // verus!
