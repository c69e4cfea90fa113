//! Cutting the byte stream from the amplifier into frames.

use super::protocol::constants::FRAME_TERMINATOR;
use super::protocol::text::{first_index, lemma_first_index, lemma_first_index_bounds};
use vstd::prelude::*;

verus! {

/// The frames that a stretch of the stream holds in full, in order, each
/// without its terminator.
pub open spec fn complete_frames(stream: Seq<u8>) -> Seq<Seq<u8>>
    decreases stream.len(),
{
    let at = first_index(stream, FRAME_TERMINATOR);
    if 0 <= at < stream.len() {
        seq![stream.subrange(0, at)] + complete_frames(stream.subrange(at + 1, stream.len() as int))
    } else {
        seq![]
    }
}

/// What follows the last terminator of a stretch of the stream: the start
/// of a frame that has not ended yet.
pub open spec fn unfinished(stream: Seq<u8>) -> Seq<u8>
    decreases stream.len(),
{
    let at = first_index(stream, FRAME_TERMINATOR);
    if 0 <= at < stream.len() {
        unfinished(stream.subrange(at + 1, stream.len() as int))
    } else {
        stream
    }
}

/// The byte strings that a list of frames holds.
pub open spec fn frame_bytes(frames: Seq<Vec<u8>>) -> Seq<Seq<u8>> {
    Seq::new(frames.len(), |i: int| frames[i]@)
}

/// True when no byte of `s` is the terminator.
pub open spec fn unterminated(s: Seq<u8>) -> bool {
    forall|i: int| 0 <= i < s.len() ==> #[trigger] s[i] != FRAME_TERMINATOR
}

/// A stretch without a terminator holds no frame in full and is unfinished as a whole.
pub proof fn lemma_unterminated(s: Seq<u8>)
    requires
        unterminated(s),
    ensures
        complete_frames(s) == Seq::<Seq<u8>>::empty(),
        unfinished(s) == s,
{
    lemma_first_index(s, FRAME_TERMINATOR, s.len() as int);
}

/// Where the first terminator of a stretch stands at `at`, the first frame is
/// what stands before it, and the rest is cut out of what follows it.
pub proof fn lemma_cut_first(s: Seq<u8>, at: int)
    requires
        0 <= at < s.len(),
        s[at] == FRAME_TERMINATOR,
        unterminated(s.subrange(0, at)),
    ensures
        complete_frames(s) == seq![s.subrange(0, at)] + complete_frames(
            s.subrange(at + 1, s.len() as int),
        ),
        unfinished(s) == unfinished(s.subrange(at + 1, s.len() as int)),
{
    assert forall|j: int| 0 <= j < at implies s[j] != FRAME_TERMINATOR by {
        assert(s.subrange(0, at)[j] == s[j]);
    }
    lemma_first_index(s, FRAME_TERMINATOR, at);
}

/// The unfinished part of any stretch holds no terminator.
pub proof fn lemma_unfinished_unterminated(s: Seq<u8>)
    ensures
        unterminated(unfinished(s)),
    decreases s.len(),
{
    lemma_first_index_bounds(s, FRAME_TERMINATOR);
    let at = first_index(s, FRAME_TERMINATOR);
    if 0 <= at < s.len() {
        lemma_unfinished_unterminated(s.subrange(at + 1, s.len() as int));
    }
}

/// No frame holds a terminator.
pub proof fn lemma_frames_unterminated(s: Seq<u8>)
    ensures
        forall|k: int| 0 <= k < complete_frames(s).len() ==> unterminated(
            #[trigger] complete_frames(s)[k],
        ),
    decreases s.len(),
{
    lemma_first_index_bounds(s, FRAME_TERMINATOR);
    let at = first_index(s, FRAME_TERMINATOR);
    if 0 <= at < s.len() {
        let rest = s.subrange(at + 1, s.len() as int);
        lemma_frames_unterminated(rest);
        assert forall|k: int| 0 <= k < complete_frames(s).len() implies unterminated(
            #[trigger] complete_frames(s)[k],
        ) by {
            if k == 0 {
            } else {
                assert(complete_frames(s)[k] == complete_frames(rest)[k - 1]);
            }
        }
    }
}

/// The frames of a stream do not depend on how the stream is cut into reads:
/// reading `a` and then `b` gives the frames of `a`, then the frames of what
/// `a` left unfinished followed by `b`, and leaves unfinished what `a + b` does.
pub proof fn lemma_frames_of_concat(a: Seq<u8>, b: Seq<u8>)
    ensures
        complete_frames(a + b) == complete_frames(a) + complete_frames(unfinished(a) + b),
        unfinished(a + b) == unfinished(unfinished(a) + b),
    decreases a.len(),
{
    lemma_first_index_bounds(a, FRAME_TERMINATOR);
    let at = first_index(a, FRAME_TERMINATOR);
    if 0 <= at < a.len() {
        let rest = a.subrange(at + 1, a.len() as int);
        assert forall|j: int| 0 <= j < at implies (a + b)[j] != FRAME_TERMINATOR by {
        }
        lemma_first_index(a + b, FRAME_TERMINATOR, at);
        assert((a + b).subrange(0, at) =~= a.subrange(0, at));
        assert((a + b).subrange(at + 1, (a + b).len() as int) =~= rest + b);
        lemma_frames_of_concat(rest, b);
        assert(complete_frames(a + b) =~= complete_frames(a) + complete_frames(
            unfinished(a) + b,
        ));
    } else {
        assert(complete_frames(a + b) =~= complete_frames(a) + complete_frames(
            unfinished(a) + b,
        ));
    }
}

/// The bytes received so far that belong to a frame whose terminator has not
/// arrived yet.
pub struct FrameBuffer {
    pending: Vec<u8>,
}

impl View for FrameBuffer {
    type V = Seq<u8>;

    closed spec fn view(&self) -> Seq<u8> {
        self.pending@
    }
}

impl FrameBuffer {
    #[verifier::type_invariant]
    spec fn holds_no_terminator(self) -> bool {
        unterminated(self.pending@)
    }

    /// A buffer that holds nothing.
    pub fn new() -> (buffer: FrameBuffer)
        ensures
            buffer@ == Seq::<u8>::empty(),
    {
        FrameBuffer { pending: Vec::new() }
    }

    /// Takes the bytes of one read and hands out the frames that they complete.
    ///
    /// The frames come in the order of the stream, each without its
    /// terminator; the first of them starts with what the buffer held. What
    /// follows the last terminator stays in the buffer.
    pub fn push(&mut self, chunk: &[u8]) -> (frames: Vec<Vec<u8>>)
        ensures
            frame_bytes(frames@) == complete_frames(old(self)@ + chunk@),
            final(self)@ == unfinished(old(self)@ + chunk@),
    {
        proof {
            use_type_invariant(&*self);
        }
        let ghost stream = self@ + chunk@;
        let mut pending: Vec<u8> = Vec::new();
        std::mem::swap(&mut pending, &mut self.pending);
        let mut frames: Vec<Vec<u8>> = Vec::new();
        let mut i: usize = 0;
        assert(pending@ + chunk@.subrange(0, chunk@.len() as int) =~= stream);
        while i < chunk.len()
            invariant
                0 <= i <= chunk.len(),
                unterminated(pending@),
                complete_frames(stream) == frame_bytes(frames@) + complete_frames(
                    pending@ + chunk@.subrange(i as int, chunk@.len() as int),
                ),
                unfinished(stream) == unfinished(
                    pending@ + chunk@.subrange(i as int, chunk@.len() as int),
                ),
            decreases chunk.len() - i,
        {
            let b: u8 = chunk[i];
            let ghost rest = pending@ + chunk@.subrange(i as int, chunk@.len() as int);
            let ghost after = chunk@.subrange(i + 1, chunk@.len() as int);
            if b == FRAME_TERMINATOR {
                proof {
                    assert(rest.subrange(0, pending@.len() as int) =~= pending@);
                    assert(rest.subrange(pending@.len() as int + 1, rest.len() as int) =~= after);
                    lemma_cut_first(rest, pending@.len() as int);
                }
                let mut frame: Vec<u8> = Vec::new();
                std::mem::swap(&mut frame, &mut pending);
                frames.push(frame);
            } else {
                pending.push(b);
                proof {
                    assert(pending@ + after =~= rest);
                }
            }
            i += 1;
        }
        proof {
            lemma_unterminated(pending@);
        }
        self.pending = pending;
        frames
    }
}

} // verus!
