//! What holds of every command as it stands on the wire.

use super::constants::FRAME_TERMINATOR;
use super::{Change, RotelCommand, RotelQuery, StateToggle, ToRotel, Volume};
use vstd::prelude::*;
use vstd::string::*;
use vstd::utf8::is_ascii_chars_encode_utf8;

verus! {

/// True when every character is ASCII and none is `$`.
pub open spec fn is_plain(text: Seq<char>) -> bool {
    forall|i: int| 0 <= i < text.len() ==> '\0' <= #[trigger] text[i] <= '\u{7f}' && text[i] != '$'
}

/// The word for a state is plain text.
pub proof fn lemma_toggle_is_plain(state: StateToggle)
    ensures
        is_plain(state.text()),
{
    reveal_strlit("on");
    reveal_strlit("off");
}

/// A query is plain text.
pub proof fn lemma_query_is_plain(query: RotelQuery)
    ensures
        is_plain(query.rotel_text()),
{
    reveal_strlit("power?");
    reveal_strlit("volume?");
    reveal_strlit("source?");
    reveal_strlit("mute?");
    reveal_strlit("freq?");
    reveal_strlit("speaker?");
    reveal_strlit("dimmer?");
    reveal_strlit("version?");
    reveal_strlit("model?");
}

/// A valid volume is plain text on the wire.
pub proof fn lemma_volume_is_plain(volume: Volume)
    requires
        volume.is_valid(),
    ensures
        is_plain(volume.rotel_text()),
{
    reveal_strlit("vol_");
    reveal_strlit("vol_dwn");
    reveal_strlit("vol_up");
}

/// Every valid command is ASCII on the wire, one byte for each character of
/// its text, and holds no frame terminator.
pub proof fn lemma_command_is_plain(command: RotelCommand)
    requires
        command.is_valid(),
    ensures
        is_plain(command.rotel_text()),
        command.wire_bytes().len() == command.rotel_text().len(),
        forall|i: int|
            0 <= i < command.rotel_text().len() ==> #[trigger] command.wire_bytes()[i]
                == command.rotel_text()[i] as u8,
        forall|i: int|
            0 <= i < command.wire_bytes().len() ==> #[trigger] command.wire_bytes()[i] < 128
                && command.wire_bytes()[i] != FRAME_TERMINATOR,
{
    reveal_strlit("mute_");
    reveal_strlit("power_");
    reveal_strlit("!");
    match command {
        RotelCommand::Get(query) => {
            lemma_query_is_plain(query);
        },
        RotelCommand::Apply(Change::Mute(state)) => {
            lemma_toggle_is_plain(state);
        },
        RotelCommand::Apply(Change::Power(state)) => {
            lemma_toggle_is_plain(state);
        },
        RotelCommand::Apply(Change::Volume(volume)) => {
            lemma_volume_is_plain(volume);
        },
    }
    is_ascii_chars_encode_utf8(command.rotel_text());
}

} // verus!
