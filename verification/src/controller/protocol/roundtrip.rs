//! What is written reads back: how writing a value and reading it agree.

use super::constants::{KEY_SEPARATOR, MAX_VOLUME};
use super::digits::{decimal_text, digit_char, two_digits};
use super::error::{DecodeErrorKind, ValidationError};
use super::response::{decode_frame, frame_key, frame_value, ResponseModel};
use super::text::{decimal_value, is_numeral, lemma_first_index, lowered, numeral_value};
use super::{direction_of, toggle_of, volume_of, Direction, StateToggle, Volume, VolumeModel};
use vstd::prelude::*;
use vstd::string::*;
use vstd::utf8::{encode_utf8, encode_utf8_valid_utf8, is_ascii_chars_encode_utf8};

verus! {

/// The bytes of a level written in two digits are a numeral for that level.
pub proof fn lemma_two_digits_numeral(v: nat, bytes: Seq<u8>)
    requires
        v < 100,
        bytes.len() == 2,
        bytes[0] == digit_char(v / 10) as u8,
        bytes[1] == digit_char(v % 10) as u8,
    ensures
        is_numeral(bytes),
        numeral_value(bytes) == v,
{
    assert(decimal_value(bytes.drop_last().drop_last()) == 0);
    assert(decimal_value(bytes.drop_last()) == v / 10);
}

/// For every level `v` up to `MAX_VOLUME`, the status frame that reads
/// `volume=` followed by `v` in two digits decodes to the absolute volume `v`.
pub proof fn lemma_volume_frame_decodes(v: nat)
    requires
        v <= MAX_VOLUME,
    ensures
        decode_frame(encode_utf8("volume="@ + two_digits(v))) == Ok::<
            ResponseModel,
            DecodeErrorKind,
        >(ResponseModel::Volume(VolumeModel::Value(v))),
{
    let text = "volume="@ + two_digits(v);
    let frame = encode_utf8(text);
    reveal_strlit("volume=");
    reveal_strlit("volume");
    is_ascii_chars_encode_utf8(text);
    encode_utf8_valid_utf8(text);
    lemma_first_index(frame, KEY_SEPARATOR, 6);
    is_ascii_chars_encode_utf8("volume"@);
    assert(frame_key(frame) =~= "volume".spec_bytes());
    lemma_two_digits_numeral(v, frame_value(frame));
}

/// The word that is written for a state reads back as that state.
pub proof fn lemma_toggle_reads_back(state: StateToggle)
    ensures
        toggle_of(encode_utf8(state.text())) == Some(state),
{
    reveal_strlit("on");
    reveal_strlit("off");
    is_ascii_chars_encode_utf8("on"@);
    is_ascii_chars_encode_utf8("off"@);
    assert(lowered("off".spec_bytes()).len() != lowered("on".spec_bytes()).len());
}

/// The word that is written for a direction reads back as that direction.
pub proof fn lemma_direction_reads_back(direction: Direction)
    ensures
        direction_of(encode_utf8(direction.text())) == Some(direction),
{
    reveal_strlit("up");
    reveal_strlit("down");
    is_ascii_chars_encode_utf8("up"@);
    is_ascii_chars_encode_utf8("down"@);
    assert(lowered("down".spec_bytes()).len() != lowered("up".spec_bytes()).len());
}

/// A valid volume, written as a user reads it, reads back as that volume.
pub proof fn lemma_volume_reads_back(volume: Volume)
    requires
        volume.is_valid(),
    ensures
        volume_of(encode_utf8(volume.text())) == Ok::<VolumeModel, ValidationError>(volume@),
{
    let text = volume.text();
    let bytes = encode_utf8(text);
    match volume {
        Volume::Value(level) => {
            reveal_with_fuel(decimal_text, 2);
            is_ascii_chars_encode_utf8(text);
            if level@ < 10 {
                assert(decimal_value(bytes.drop_last()) == 0);
            } else {
                lemma_two_digits_numeral(level@, bytes);
            }
        },
        Volume::Direction(direction) => {
            reveal_strlit("up");
            reveal_strlit("down");
            is_ascii_chars_encode_utf8(text);
            lemma_direction_reads_back(direction);
        },
    }
}

} // verus!
