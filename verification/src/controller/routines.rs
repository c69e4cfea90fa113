//! The two routines of a running session, as decisions.
//!
//! The reader turns what arrives from the amplifier into responses; the
//! writer turns commands into what is sent. Each is told what happened and
//! answers with what to do next; reading, writing and queueing are left to
//! the caller.

use super::framing::{complete_frames, frame_bytes, unfinished, FrameBuffer};
use super::protocol::error::FrameDecodeError;
use super::protocol::response::decodes_to;
use super::protocol::{RotelCommand, RotelResponse};
use vstd::prelude::*;

verus! {

/// Why a routine stops.
#[derive(Debug, Clone, Copy, PartialEq, Eq, Structural)]
pub enum StopCause {
    /// The queue on the routine's other side was closed.
    QueueClosed,
    /// The stream was closed by the peer, or reading or writing it failed.
    ConnectionLost,
}

/// What happened to the reader since its last decision.
#[derive(Debug, Clone, Copy, PartialEq, Eq)]
pub enum ReaderEvent<'a> {
    /// A read returned these bytes; none at all when the peer closed the stream.
    Read(&'a [u8]),
    /// A read failed.
    ReadFailed,
    /// The queue of responses no longer takes any.
    SinkClosed,
}

/// What the reader is to do next.
#[derive(Debug, Clone, PartialEq, Eq)]
pub enum ReaderAction {
    /// Go through the list in order, then read again: queue each response,
    /// report each error and drop its frame.
    Deliver(Vec<Result<RotelResponse, FrameDecodeError>>),
    /// Stop reading.
    Stop(StopCause),
}

/// The reader of a session: it holds what has been read of a frame that has
/// not ended yet.
pub struct Reader {
    buffer: FrameBuffer,
}

impl View for Reader {
    type V = Seq<u8>;

    closed spec fn view(&self) -> Seq<u8> {
        self.buffer@
    }
}

/// True when `items` are, one for one and in order, what decoding `frames` gives.
pub open spec fn decoded_frames(
    frames: Seq<Seq<u8>>,
    items: Seq<Result<RotelResponse, FrameDecodeError>>,
) -> bool {
    &&& items.len() == frames.len()
    &&& forall|i: int| 0 <= i < frames.len() ==> decodes_to(frames[i], #[trigger] items[i])
}

/// The cause for which the reader stops on an event, if it stops.
///
/// A read of no bytes means that the peer closed the stream; that and a
/// failed read lose the connection.
pub open spec fn reader_stop(event: ReaderEvent) -> Option<StopCause> {
    match event {
        ReaderEvent::Read(chunk) => if chunk@.len() == 0 {
            Some(StopCause::ConnectionLost)
        } else {
            None
        },
        ReaderEvent::ReadFailed => Some(StopCause::ConnectionLost),
        ReaderEvent::SinkClosed => Some(StopCause::QueueClosed),
    }
}

impl Reader {
    /// A reader that has read nothing yet.
    pub fn new() -> (reader: Reader)
        ensures
            reader@ == Seq::<u8>::empty(),
    {
        Reader { buffer: FrameBuffer::new() }
    }

    /// Decides what the reader does after `event`.
    ///
    /// Bytes that were read are added to the stream. Every frame that they
    /// complete is decoded, and the results are handed out in the order of
    /// the stream; a frame that does not decode does not stop the reader.
    /// On any other event the reader stops and keeps what it held.
    pub fn step(&mut self, event: ReaderEvent) -> (action: ReaderAction)
        ensures
            match reader_stop(event) {
                Some(cause) => action matches ReaderAction::Stop(c) && c == cause && final(self)@
                    == old(self)@,
                None => action matches ReaderAction::Deliver(items) && decoded_frames(
                    complete_frames(old(self)@ + event->Read_0@),
                    items@,
                ) && final(self)@ == unfinished(old(self)@ + event->Read_0@),
            },
    {
        match event {
            ReaderEvent::Read(chunk) => {
                if chunk.len() == 0 {
                    return ReaderAction::Stop(StopCause::ConnectionLost);
                }
                let frames = self.buffer.push(chunk);
                let mut items: Vec<Result<RotelResponse, FrameDecodeError>> = Vec::new();
                let mut i: usize = 0;
                while i < frames.len()
                    invariant
                        0 <= i <= frames.len(),
                        items@.len() == i,
                        forall|j: int|
                            0 <= j < i ==> decodes_to(frame_bytes(frames@)[j], #[trigger] items@[j]),
                    decreases frames.len() - i,
                {
                    let item = RotelResponse::try_from(frames[i].as_slice());
                    items.push(item);
                    i += 1;
                }
                ReaderAction::Deliver(items)
            },
            ReaderEvent::ReadFailed => ReaderAction::Stop(StopCause::ConnectionLost),
            ReaderEvent::SinkClosed => ReaderAction::Stop(StopCause::QueueClosed),
        }
    }
}

/// What happened to the writer since its last decision.
#[derive(Debug, Clone, Copy, PartialEq, Eq, Structural)]
pub enum WriterEvent {
    /// The queue of commands handed out this one.
    Command(RotelCommand),
    /// The queue of commands is closed and holds no more.
    SourceClosed,
    /// Writing to the stream failed.
    WriteFailed,
}

/// What the writer is to do next.
#[derive(Debug, Clone, PartialEq, Eq)]
pub enum WriterAction {
    /// Write these bytes to the stream at once, then take the next command.
    Write(Vec<u8>),
    /// Stop writing.
    Stop(StopCause),
}

/// True when `action` is what the writer does after `event`: a command is
/// encoded and written, a closed queue ends the routine in order, and a
/// failed write loses the connection.
pub open spec fn writer_decision(event: WriterEvent, action: WriterAction) -> bool {
    match event {
        WriterEvent::Command(command) => action matches WriterAction::Write(bytes) && bytes@
            == command.wire_bytes(),
        WriterEvent::SourceClosed => action == WriterAction::Stop(StopCause::QueueClosed),
        WriterEvent::WriteFailed => action == WriterAction::Stop(StopCause::ConnectionLost),
    }
}

/// Decides what the writer does after `event`.
pub fn writer_step(event: WriterEvent) -> (action: WriterAction)
    ensures
        writer_decision(event, action),
{
    match event {
        WriterEvent::Command(command) => WriterAction::Write(command.encode()),
        WriterEvent::SourceClosed => WriterAction::Stop(StopCause::QueueClosed),
        WriterEvent::WriteFailed => WriterAction::Stop(StopCause::ConnectionLost),
    }
}

} // verus!
