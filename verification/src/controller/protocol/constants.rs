//! Limits of the device and fixed bytes of its wire format.

use vstd::prelude::*;

verus! {

/// Highest absolute volume level the amplifier accepts.
pub const MAX_VOLUME: u8 = 96;

/// Highest display dimmer level the amplifier accepts.
pub const MAX_DIMMER: u8 = 6;

/// The byte `$`, which ends every frame on the wire.
pub const FRAME_TERMINATOR: u8 = 36;

/// The byte `=`, which parts the key of a status frame from its value.
pub const KEY_SEPARATOR: u8 = 61;

} // verus!
