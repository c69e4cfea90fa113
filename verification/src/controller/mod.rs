//! The amplifier controller: the protocol it speaks and the sessions it opens.

use self::protocol::RotelCommand;
use self::session::{Session, SessionMode, SessionState};
use vstd::prelude::*;
use vstd::string::*;

pub mod framing;
pub mod lifecycle;
pub mod protocol;
pub mod routines;
pub mod session;

verus! {

/// A controller for the amplifier at one address.
pub struct RotelController {
    address: String,
}

impl View for RotelController {
    type V = Seq<char>;

    closed spec fn view(&self) -> Seq<char> {
        self.address@
    }
}

impl RotelController {
    /// A controller for the amplifier at `address`.
    pub fn new(address: String) -> (controller: Self)
        ensures
            controller@ == address@,
    {
        Self { address }
    }

    /// The address of the amplifier.
    pub fn address(&self) -> (address: &str)
        ensures
            address@ == self@,
    {
        self.address.as_str()
    }

    /// Opens a session that sends one command to the amp and ends without
    /// waiting for a reply.
    pub fn one_shot(&self, command: RotelCommand) -> (session: Session)
        ensures
            session.mode() == SessionMode::OneShot(command),
            session.state() == SessionState::Disconnected,
    {
        Session::new(SessionMode::OneShot(command))
    }

    /// Opens a session that pumps commands to the amp and responses back.
    pub fn run(&self) -> (session: Session)
        ensures
            session.mode() == SessionMode::Duplex,
            session.state() == SessionState::Disconnected,
    {
        Session::new(SessionMode::Duplex)
    }
}

} // verus!
