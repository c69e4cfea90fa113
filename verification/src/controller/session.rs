//! The life of a session, from the first connection attempt to its end.
//!
//! The session owns one connection. It is told what happened and answers with
//! what to do next; connecting, starting and cancelling the routines are left
//! to the caller.

use super::protocol::RotelCommand;
use super::routines::StopCause;
use vstd::prelude::*;

verus! {

/// Number of commands, and of responses, that may wait in a queue of the
/// session before whoever fills it has to wait.
pub const QUEUE_DEPTH: usize = 8;

/// Why a session could not do what it was asked.
#[derive(Debug, Clone, Copy, PartialEq, Eq, Structural)]
pub enum SessionError {
    /// The connection could not be established.
    ConnectError,
    /// The stream was closed, or reading or writing it failed.
    ConnectionLost,
}

/// Why a session ended.
#[derive(Debug, Clone, Copy, PartialEq, Eq, Structural)]
pub enum TerminationReason {
    /// The work was done: a queue was closed, or the one command was written.
    GracefulClose,
    /// The stream was closed, or reading or writing it failed.
    ConnectionLost,
    /// The connection could not be established.
    ConnectError,
}

/// What a session is for.
#[derive(Debug, Clone, Copy, PartialEq, Eq, Structural)]
pub enum SessionMode {
    /// Pump commands to the amplifier and responses back until either side ends.
    Duplex,
    /// Write this one command and end, without waiting for a reply.
    OneShot(RotelCommand),
}

/// Where a session stands.
#[derive(Debug, Clone, Copy, PartialEq, Eq, Structural)]
pub enum SessionState {
    /// Nothing has been attempted.
    Disconnected,
    /// A connection is being opened; `established` once it stands and only
    /// write coalescing remains to be switched off.
    Connecting { established: bool },
    /// The connection is in use.
    Running,
    /// The session is over.
    Terminated(TerminationReason),
}

/// One of the two routines of a running duplex session.
#[derive(Debug, Clone, Copy, PartialEq, Eq, Structural)]
pub enum Routine {
    Reader,
    Writer,
}

/// What happened since the session's last decision.
#[derive(Debug, Clone, Copy, PartialEq, Eq, Structural)]
pub enum SessionEvent {
    /// The caller asks the session to begin.
    Start,
    /// The connection was established.
    Connected,
    /// The connection attempt failed.
    ConnectFailed,
    /// Write coalescing was switched off on the connection.
    LowLatencyApplied,
    /// Write coalescing could not be switched off.
    LowLatencyFailed,
    /// A routine stopped of its own accord.
    Stopped(Routine, StopCause),
    /// The one command was written.
    Written,
    /// Writing the one command failed.
    WriteFailed,
}

/// What the caller is to do next.
#[derive(Debug, Clone, Copy, PartialEq, Eq, Structural)]
pub enum SessionAction {
    /// Open the connection.
    Connect,
    /// Switch off write coalescing, so that every command leaves as soon as
    /// it is written.
    DisableCoalescing,
    /// Start the reader and the writer together.
    StartRoutines,
    /// Write this command.
    Send(RotelCommand),
    /// Cancel this routine; whatever it had in flight is dropped.
    Cancel(Routine),
    /// Nothing.
    Nothing,
}

/// The routine that runs beside `routine`.
pub open spec fn sibling(routine: Routine) -> Routine {
    match routine {
        Routine::Reader => Routine::Writer,
        Routine::Writer => Routine::Reader,
    }
}

/// The reason with which a session ends when a routine stops for `cause`.
pub open spec fn reason_of(cause: StopCause) -> TerminationReason {
    match cause {
        StopCause::QueueClosed => TerminationReason::GracefulClose,
        StopCause::ConnectionLost => TerminationReason::ConnectionLost,
    }
}

/// What the caller of a session is told, once the session is over.
pub open spec fn outcome_of(state: SessionState) -> Option<Result<(), SessionError>> {
    match state {
        SessionState::Terminated(TerminationReason::GracefulClose) => Some(Ok(())),
        SessionState::Terminated(TerminationReason::ConnectionLost) => Some(
            Err(SessionError::ConnectionLost),
        ),
        SessionState::Terminated(TerminationReason::ConnectError) => Some(
            Err(SessionError::ConnectError),
        ),
        _ => None,
    }
}

/// The state that follows `state` on `event`, and what is to be done.
///
/// An event that the state does not wait for changes nothing.
pub open spec fn session_step(mode: SessionMode, state: SessionState, event: SessionEvent) -> (
    SessionState,
    SessionAction,
) {
    match (state, event) {
        (SessionState::Disconnected, SessionEvent::Start) => (
            SessionState::Connecting { established: false },
            SessionAction::Connect,
        ),
        (SessionState::Connecting { established: false }, SessionEvent::Connected) => (
            SessionState::Connecting { established: true },
            SessionAction::DisableCoalescing,
        ),
        (SessionState::Connecting { established: false }, SessionEvent::ConnectFailed) => (
            SessionState::Terminated(TerminationReason::ConnectError),
            SessionAction::Nothing,
        ),
        (SessionState::Connecting { established: true }, SessionEvent::LowLatencyApplied) => (
            SessionState::Running,
            match mode {
                SessionMode::Duplex => SessionAction::StartRoutines,
                SessionMode::OneShot(command) => SessionAction::Send(command),
            },
        ),
        (SessionState::Connecting { established: true }, SessionEvent::LowLatencyFailed) => (
            SessionState::Terminated(TerminationReason::ConnectError),
            SessionAction::Nothing,
        ),
        (SessionState::Running, SessionEvent::Stopped(routine, cause)) => match mode {
            SessionMode::Duplex => (
                SessionState::Terminated(reason_of(cause)),
                SessionAction::Cancel(sibling(routine)),
            ),
            SessionMode::OneShot(_) => (state, SessionAction::Nothing),
        },
        (SessionState::Running, SessionEvent::Written) => match mode {
            SessionMode::OneShot(_) => (
                SessionState::Terminated(TerminationReason::GracefulClose),
                SessionAction::Nothing,
            ),
            SessionMode::Duplex => (state, SessionAction::Nothing),
        },
        (SessionState::Running, SessionEvent::WriteFailed) => match mode {
            SessionMode::OneShot(_) => (
                SessionState::Terminated(TerminationReason::ConnectionLost),
                SessionAction::Nothing,
            ),
            SessionMode::Duplex => (state, SessionAction::Nothing),
        },
        _ => (state, SessionAction::Nothing),
    }
}

/// One session over one connection.
#[derive(Debug, Clone, Copy, PartialEq, Eq, Structural)]
pub struct Session {
    mode: SessionMode,
    state: SessionState,
}

impl Session {
    /// What the session is for.
    pub closed spec fn mode(&self) -> SessionMode {
        self.mode
    }

    /// Where the session stands.
    pub closed spec fn state(&self) -> SessionState {
        self.state
    }

    /// A session that has attempted nothing yet.
    pub fn new(mode: SessionMode) -> (session: Session)
        ensures
            session.mode() == mode,
            session.state() == SessionState::Disconnected,
    {
        Session { mode, state: SessionState::Disconnected }
    }

    /// Where the session stands.
    pub fn current(&self) -> (state: SessionState)
        ensures
            state == self.state(),
    {
        self.state
    }

    /// What the caller is told: nothing while the session lasts, then
    /// success after a graceful close, and the error after any other end.
    pub fn outcome(&self) -> (r: Option<Result<(), SessionError>>)
        ensures
            r == outcome_of(self.state()),
    {
        match self.state {
            SessionState::Terminated(TerminationReason::GracefulClose) => Some(Ok(())),
            SessionState::Terminated(TerminationReason::ConnectionLost) => Some(
                Err(SessionError::ConnectionLost),
            ),
            SessionState::Terminated(TerminationReason::ConnectError) => Some(
                Err(SessionError::ConnectError),
            ),
            _ => None,
        }
    }

    /// Takes the session from its state to the next on `event` and says
    /// what is to be done.
    pub fn step(&mut self, event: SessionEvent) -> (action: SessionAction)
        ensures
            final(self).mode() == old(self).mode(),
            (final(self).state(), action) == session_step(
                old(self).mode(),
                old(self).state(),
                event,
            ),
    {
        let (next, action) = match (self.state, event) {
            (SessionState::Disconnected, SessionEvent::Start) => (
                SessionState::Connecting { established: false },
                SessionAction::Connect,
            ),
            (SessionState::Connecting { established: false }, SessionEvent::Connected) => (
                SessionState::Connecting { established: true },
                SessionAction::DisableCoalescing,
            ),
            (SessionState::Connecting { established: false }, SessionEvent::ConnectFailed) => (
                SessionState::Terminated(TerminationReason::ConnectError),
                SessionAction::Nothing,
            ),
            (SessionState::Connecting { established: true }, SessionEvent::LowLatencyApplied) => {
                match self.mode {
                    SessionMode::Duplex => (SessionState::Running, SessionAction::StartRoutines),
                    SessionMode::OneShot(command) => (
                        SessionState::Running,
                        SessionAction::Send(command),
                    ),
                }
            },
            (SessionState::Connecting { established: true }, SessionEvent::LowLatencyFailed) => (
                SessionState::Terminated(TerminationReason::ConnectError),
                SessionAction::Nothing,
            ),
            (SessionState::Running, SessionEvent::Stopped(routine, cause)) => match self.mode {
                SessionMode::Duplex => {
                    let reason = match cause {
                        StopCause::QueueClosed => TerminationReason::GracefulClose,
                        StopCause::ConnectionLost => TerminationReason::ConnectionLost,
                    };
                    let other = match routine {
                        Routine::Reader => Routine::Writer,
                        Routine::Writer => Routine::Reader,
                    };
                    (SessionState::Terminated(reason), SessionAction::Cancel(other))
                },
                SessionMode::OneShot(_) => (self.state, SessionAction::Nothing),
            },
            (SessionState::Running, SessionEvent::Written) => match self.mode {
                SessionMode::OneShot(_) => (
                    SessionState::Terminated(TerminationReason::GracefulClose),
                    SessionAction::Nothing,
                ),
                SessionMode::Duplex => (self.state, SessionAction::Nothing),
            },
            (SessionState::Running, SessionEvent::WriteFailed) => match self.mode {
                SessionMode::OneShot(_) => (
                    SessionState::Terminated(TerminationReason::ConnectionLost),
                    SessionAction::Nothing,
                ),
                SessionMode::Duplex => (self.state, SessionAction::Nothing),
            },
            _ => (self.state, SessionAction::Nothing),
        };
        self.state = next;
        action
    }
}

} // verus!
