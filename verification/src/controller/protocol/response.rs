//! Status frames of the amplifier, and how they are decoded.

use super::constants::KEY_SEPARATOR;
use super::error::{DecodeErrorKind, FrameDecodeError};
use super::text::{bytes_equal, find_byte, first_index, lemma_first_index_bounds};
use super::{toggle_of, volume_of, StateToggle, Volume, VolumeModel};
use vstd::prelude::*;
use vstd::slice::{slice_subrange, slice_to_vec};
use vstd::string::*;
use vstd::utf8::{decode_utf8, encode_utf8_decode_utf8, valid_utf8};

verus! {

/// What a response stands for.
pub enum ResponseModel {
    /// The power state.
    Power(StateToggle),
    /// The volume.
    Volume(VolumeModel),
    /// The mute state.
    Mute(StateToggle),
    /// A frame with a key that is not decoded further, as text.
    Unknown(Seq<char>),
}

/// Messages received from the amp
#[derive(Debug, Clone, PartialEq, Eq)]
pub enum RotelResponse {
    Power(StateToggle),
    Volume(Volume),
    Mute(StateToggle),
    Unknown(String),
}

impl View for RotelResponse {
    type V = ResponseModel;

    open spec fn view(&self) -> ResponseModel {
        match self {
            RotelResponse::Power(state) => ResponseModel::Power(*state),
            RotelResponse::Volume(volume) => ResponseModel::Volume(volume@),
            RotelResponse::Mute(state) => ResponseModel::Mute(*state),
            RotelResponse::Unknown(text) => ResponseModel::Unknown(text@),
        }
    }
}

/// The part of a frame before its first `=`.
pub open spec fn frame_key(frame: Seq<u8>) -> Seq<u8> {
    frame.subrange(0, first_index(frame, KEY_SEPARATOR))
}

/// The part of a frame after its first `=`.
pub open spec fn frame_value(frame: Seq<u8>) -> Seq<u8>
    recommends
        first_index(frame, KEY_SEPARATOR) < frame.len(),
{
    frame.subrange(first_index(frame, KEY_SEPARATOR) + 1, frame.len() as int)
}

/// What a frame, taken without its terminator, decodes to.
///
/// A frame that is not UTF-8 is no text, and one without `=` is malformed.
/// The keys `volume`, `power` and `mute` each ask for a value of their kind;
/// a frame with any other key is passed on whole as text.
pub open spec fn decode_frame(frame: Seq<u8>) -> Result<ResponseModel, DecodeErrorKind> {
    if !valid_utf8(frame) {
        Err(DecodeErrorKind::NotText)
    } else if first_index(frame, KEY_SEPARATOR) == frame.len() {
        Err(DecodeErrorKind::MalformedFrame)
    } else if frame_key(frame) == "volume".spec_bytes() {
        match volume_of(frame_value(frame)) {
            Ok(volume) => Ok(ResponseModel::Volume(volume)),
            Err(_) => Err(DecodeErrorKind::InvalidValue),
        }
    } else if frame_key(frame) == "power".spec_bytes() {
        match toggle_of(frame_value(frame)) {
            Some(state) => Ok(ResponseModel::Power(state)),
            None => Err(DecodeErrorKind::InvalidValue),
        }
    } else if frame_key(frame) == "mute".spec_bytes() {
        match toggle_of(frame_value(frame)) {
            Some(state) => Ok(ResponseModel::Mute(state)),
            None => Err(DecodeErrorKind::InvalidValue),
        }
    } else {
        Ok(ResponseModel::Unknown(decode_utf8(frame)))
    }
}

/// True when the key of a frame is one whose value is decoded.
pub open spec fn known_key(key: Seq<u8>) -> bool {
    key == "volume".spec_bytes() || key == "power".spec_bytes() || key == "mute".spec_bytes()
}

/// When decoding fails and when it cannot: a frame is no text exactly when
/// it is not UTF-8, and malformed exactly when it is text without `=`; a
/// value is invalid only under a known key; and a frame that is text with
/// any other key before its first `=` decodes to itself, whatever it holds.
pub proof fn lemma_decode_outcomes(frame: Seq<u8>)
    ensures
        decode_frame(frame) == Err::<ResponseModel, DecodeErrorKind>(DecodeErrorKind::NotText)
            <==> !valid_utf8(frame),
        decode_frame(frame) == Err::<ResponseModel, DecodeErrorKind>(
            DecodeErrorKind::MalformedFrame,
        ) <==> valid_utf8(frame) && !frame.contains(KEY_SEPARATOR),
        decode_frame(frame) == Err::<ResponseModel, DecodeErrorKind>(
            DecodeErrorKind::InvalidValue,
        ) ==> valid_utf8(frame) && frame.contains(KEY_SEPARATOR) && known_key(frame_key(frame)),
        valid_utf8(frame) && frame.contains(KEY_SEPARATOR) && !known_key(frame_key(frame))
            ==> decode_frame(frame) == Ok::<ResponseModel, DecodeErrorKind>(
            ResponseModel::Unknown(decode_utf8(frame)),
        ),
{
    lemma_first_index_bounds(frame, KEY_SEPARATOR);
}

/// True when `result` is what decoding `frame` gives: the response that
/// the frame stands for, or an error with the reason and the frame itself.
pub open spec fn decodes_to(frame: Seq<u8>, result: Result<RotelResponse, FrameDecodeError>) -> bool {
    match result {
        Ok(response) => decode_frame(frame) == Ok::<ResponseModel, DecodeErrorKind>(response@),
        Err(e) => decode_frame(frame) == Err::<ResponseModel, DecodeErrorKind>(e.kind) && e.frame@
            == frame,
    }
}

/// Calls `core::str::from_utf8`.
///
/// Not proved: that the call gives a text exactly when the bytes are valid
/// UTF-8, and that the bytes of that text are the bytes given.
#[verifier::external_body]
fn utf8_text(bytes: &[u8]) -> (r: Option<&str>)
    ensures
        r is Some <==> valid_utf8(bytes@),
        r is Some ==> r->Some_0.spec_bytes() == bytes@,
{
    match core::str::from_utf8(bytes) {
        Ok(text) => Some(text),
        Err(_) => None,
    }
}

/// Makes the error for a frame that could not be decoded.
fn rejected(kind: DecodeErrorKind, frame: &[u8]) -> (e: FrameDecodeError)
    ensures
        e.kind == kind,
        e.frame@ == frame@,
{
    FrameDecodeError { kind, frame: slice_to_vec(frame) }
}

impl RotelResponse {
    /// Decodes one frame, taken without its terminator.
    ///
    /// An error names the reason and holds the frame as it was received.
    pub fn try_from(in_msg: &[u8]) -> (r: Result<RotelResponse, FrameDecodeError>)
        ensures
            decodes_to(in_msg@, r),
    {
        let msg = match utf8_text(in_msg) {
            Some(msg) => msg,
            None => {
                return Err(rejected(DecodeErrorKind::NotText, in_msg));
            },
        };
        let at = match find_byte(in_msg, KEY_SEPARATOR) {
            Some(at) => at,
            None => {
                return Err(rejected(DecodeErrorKind::MalformedFrame, in_msg));
            },
        };
        let end = in_msg.len();
        let cmd = slice_subrange(in_msg, 0, at);
        let value = slice_subrange(in_msg, at + 1, end);
        if bytes_equal(cmd, "volume".as_bytes()) {
            match Volume::from_bytes(value) {
                Ok(volume) => Ok(RotelResponse::Volume(volume)),
                Err(_) => Err(rejected(DecodeErrorKind::InvalidValue, in_msg)),
            }
        } else if bytes_equal(cmd, "power".as_bytes()) {
            match StateToggle::from_bytes(value) {
                Ok(state) => Ok(RotelResponse::Power(state)),
                Err(_) => Err(rejected(DecodeErrorKind::InvalidValue, in_msg)),
            }
        } else if bytes_equal(cmd, "mute".as_bytes()) {
            match StateToggle::from_bytes(value) {
                Ok(state) => Ok(RotelResponse::Mute(state)),
                Err(_) => Err(rejected(DecodeErrorKind::InvalidValue, in_msg)),
            }
        } else {
            proof {
                encode_utf8_decode_utf8(msg@);
            }
            Ok(RotelResponse::Unknown(String::from_str(msg)))
        }
    }
}

} // verus!
