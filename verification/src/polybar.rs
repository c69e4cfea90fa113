//! Status lines for a desktop status bar.
//!
//! The state of the amplifier is followed through its responses, and each
//! change of volume or mute gives one line: the volume between the two halves
//! of a format, one format for a muted amplifier and one for an unmuted one.

use crate::controller::protocol::{
    RotelCommand, RotelQuery, RotelResponse, StateToggle, Volume,
};
use vstd::prelude::*;
use vstd::string::*;
use vstd::utf8::{
    decode_utf8_split, encode_utf8, encode_utf8_decode_utf8, encode_utf8_valid_utf8,
    is_ascii_chars_encode_utf8, is_char_boundary, is_char_boundary_iff_is_leading_byte,
    is_char_boundary_start_end_of_seq, valid_utf8, valid_utf8_split,
};

verus! {

/// True when `pattern` stands in `s` at `i`.
pub open spec fn occurs_at(s: Seq<u8>, pattern: Seq<u8>, i: int) -> bool {
    0 <= i && i + pattern.len() <= s.len() && s.subrange(i, i + pattern.len()) == pattern
}

/// True when `pattern` stands in `s` at `i` and nowhere before.
pub open spec fn first_occurrence(s: Seq<u8>, pattern: Seq<u8>, i: int) -> bool {
    occurs_at(s, pattern, i) && forall|j: int| 0 <= j < i ==> !occurs_at(s, pattern, j)
}

/// True when `pattern` stands somewhere in `s`.
pub open spec fn occurs(s: Seq<u8>, pattern: Seq<u8>) -> bool {
    exists|i: int| occurs_at(s, pattern, i)
}

/// Tells whether `pattern` stands in `s` at `i`.
fn matches_at(s: &[u8], pattern: &[u8], i: usize) -> (r: bool)
    requires
        i + pattern@.len() <= s@.len(),
    ensures
        r == occurs_at(s@, pattern@, i as int),
{
    let mut k: usize = 0;
    while k < pattern.len()
        invariant
            0 <= k <= pattern.len(),
            i + pattern.len() <= s.len(),
            forall|j: int| 0 <= j < k ==> s@[i + j] == pattern@[j],
        decreases pattern.len() - k,
    {
        if s[i + k] != pattern[k] {
            return false;
        }
        k += 1;
    }
    assert(s@.subrange(i as int, i + pattern@.len()) =~= pattern@);
    true
}

/// Finds the first place at which `pattern` stands in `s`.
pub fn find_bytes(s: &[u8], pattern: &[u8]) -> (r: Option<usize>)
    ensures
        match r {
            Some(i) => first_occurrence(s@, pattern@, i as int),
            None => !occurs(s@, pattern@),
        },
{
    if pattern.len() > s.len() {
        return None;
    }
    let last: usize = s.len() - pattern.len();
    let mut i: usize = 0;
    while i < last
        invariant
            0 <= i <= last,
            last == s.len() - pattern.len(),
            forall|j: int| 0 <= j < i ==> !occurs_at(s@, pattern@, j),
        decreases last - i,
    {
        if matches_at(s, pattern, i) {
            return Some(i);
        }
        i += 1;
    }
    if matches_at(s, pattern, last) {
        Some(last)
    } else {
        None
    }
}

/// In valid UTF-8, a run of bytes that begins and ends with an ASCII byte
/// begins and ends where a character does.
proof fn lemma_ascii_run_boundaries(bytes: Seq<u8>, i: int, n: int)
    requires
        valid_utf8(bytes),
        0 <= i,
        0 < n,
        i + n <= bytes.len(),
        bytes[i] < 128,
        bytes[i + n - 1] < 128,
    ensures
        is_char_boundary(bytes, i),
        is_char_boundary(bytes, i + n),
{
    is_char_boundary_iff_is_leading_byte(bytes, i);
    let k = i + n - 1;
    is_char_boundary_iff_is_leading_byte(bytes, k);
    valid_utf8_split(bytes, k);
    let tail = bytes.subrange(k, bytes.len() as int);
    let rest = bytes.subrange(k + 1, bytes.len() as int);
    assert(tail.subrange(1, tail.len() as int) =~= rest);
    assert(valid_utf8(rest));
    if k + 1 == bytes.len() {
        is_char_boundary_start_end_of_seq(bytes);
    } else {
        is_char_boundary_iff_is_leading_byte(bytes, k + 1);
    }
}

/// Why a text is no format.
#[derive(Debug, Clone, Copy, PartialEq, Eq, Structural)]
pub enum FormatError {
    /// The text does not hold `{value}`.
    MissingPlaceholder,
}

/// A format for one value: what is written before the value and what after it.
#[derive(Debug, Clone, PartialEq, Eq)]
pub struct OutputFormatter {
    pub before: String,
    pub after: String,
}

impl OutputFormatter {
    /// Writes `value` between the two halves of the format.
    pub fn format(self, value: &str) -> (r: String)
        ensures
            r@ == self.before@ + value@ + self.after@,
    {
        self.before.concat(value).concat(self.after.as_str())
    }

    /// Reads a format: the text before the first `{value}` and the text after it.
    ///
    /// A text without `{value}` is no format.
    pub fn from_str(input: &str) -> (r: Result<OutputFormatter, FormatError>)
        ensures
            match r {
                Ok(formatter) => {
                    &&& exists|i: int|
                        {
                            &&& first_occurrence(
                                input.spec_bytes(),
                                "{value}".spec_bytes(),
                                i,
                            )
                            &&& encode_utf8(formatter.before@) == input.spec_bytes().subrange(
                                0,
                                i,
                            )
                            &&& encode_utf8(formatter.after@) == input.spec_bytes().subrange(
                                i + "{value}".spec_bytes().len(),
                                input.spec_bytes().len() as int,
                            )
                        }
                    &&& formatter.before@ + "{value}"@ + formatter.after@ == input@
                },
                Err(e) => !occurs(input.spec_bytes(), "{value}".spec_bytes()),
            },
    {
        let bytes = input.as_bytes();
        let pattern = "{value}".as_bytes();
        match find_bytes(bytes, pattern) {
            None => Err(FormatError::MissingPlaceholder),
            Some(at) => {
                let ghost whole = input.spec_bytes();
                let ghost width = pattern@.len() as int;
                proof {
                    reveal_strlit("{value}");
                    is_ascii_chars_encode_utf8("{value}"@);
                    assert(pattern@[0] < 128 && pattern@[6] < 128);
                    encode_utf8_valid_utf8(input@);
                    lemma_ascii_run_boundaries(whole, at as int, width);
                }
                let (before, rest) = input.split_at(at);
                proof {
                    valid_utf8_split(whole, at as int);
                    assert(rest.spec_bytes().subrange(0, width) =~= whole.subrange(
                        at as int,
                        at + width,
                    ));
                    lemma_ascii_run_boundaries(rest.spec_bytes(), 0, width);
                }
                let (placeholder, after) = rest.split_at(pattern.len());
                proof {
                    assert(after.spec_bytes() =~= whole.subrange(
                        at + width,
                        whole.len() as int,
                    ));
                    decode_utf8_split(whole, at as int);
                    decode_utf8_split(rest.spec_bytes(), width);
                    encode_utf8_decode_utf8(input@);
                    encode_utf8_decode_utf8(before@);
                    encode_utf8_decode_utf8(after@);
                    encode_utf8_decode_utf8("{value}"@);
                }
                Ok(OutputFormatter { before: before.to_owned(), after: after.to_owned() })
            },
        }
    }
}

/// The line for a status: the volume as a user reads it, between the halves
/// of the mute format where the amplifier is muted, and of the volume format
/// where it is not.
pub open spec fn status_text(
    mute: StateToggle,
    volume: Volume,
    volume_formatter: OutputFormatter,
    mute_formatter: OutputFormatter,
) -> Seq<char> {
    if mute == StateToggle::On {
        mute_formatter.before@ + volume.text() + mute_formatter.after@
    } else {
        volume_formatter.before@ + volume.text() + volume_formatter.after@
    }
}

/// The status of the amplifier as far as its responses have told it, and the
/// two formats for its line on the bar.
pub struct PolybarOutput {
    mute: Option<StateToggle>,
    volume: Option<Volume>,
    volume_formatter: OutputFormatter,
    mute_formatter: OutputFormatter,
}

impl PolybarOutput {
    /// The mute state, once a response has told it.
    pub closed spec fn mute(&self) -> Option<StateToggle> {
        self.mute
    }

    /// The volume, once a response has told it.
    pub closed spec fn volume(&self) -> Option<Volume> {
        self.volume
    }

    /// The format of the line for an unmuted amplifier.
    pub closed spec fn volume_formatter(&self) -> OutputFormatter {
        self.volume_formatter
    }

    /// The format of the line for a muted amplifier.
    pub closed spec fn mute_formatter(&self) -> OutputFormatter {
        self.mute_formatter
    }

    /// The line for the status, once both the mute state and the volume are known.
    pub open spec fn line(&self) -> Option<Seq<char>> {
        match (self.mute(), self.volume()) {
            (Some(mute), Some(volume)) => Some(
                status_text(mute, volume, self.volume_formatter(), self.mute_formatter()),
            ),
            _ => None,
        }
    }

    /// An output that knows nothing of the amplifier yet.
    pub fn new(volume_formatter: OutputFormatter, mute_formatter: OutputFormatter) -> (output:
        Self)
        ensures
            output.mute() is None,
            output.volume() is None,
            output.volume_formatter() == volume_formatter,
            output.mute_formatter() == mute_formatter,
    {
        Self { mute: None, volume: None, volume_formatter, mute_formatter }
    }

    /// The commands that ask the amplifier for the status: first the volume,
    /// then the mute state.
    pub fn query_status(&self) -> (commands: Vec<RotelCommand>)
        ensures
            commands@ == seq![
                RotelCommand::Get(RotelQuery::Volume),
                RotelCommand::Get(RotelQuery::Mute),
            ],
    {
        let mut commands: Vec<RotelCommand> = Vec::new();
        commands.push(RotelCommand::Get(RotelQuery::Volume));
        commands.push(RotelCommand::Get(RotelQuery::Mute));
        assert(commands@ =~= seq![
            RotelCommand::Get(RotelQuery::Volume),
            RotelCommand::Get(RotelQuery::Mute),
        ]);
        commands
    }

    /// Writes the line for the status, once both the mute state and the
    /// volume are known.
    pub fn print_status(&self) -> (r: Option<String>)
        ensures
            match r {
                Some(text) => self.line() == Some(text@),
                None => self.line() is None,
            },
    {
        match (self.mute, self.volume) {
            (Some(mute), Some(volume)) => {
                let formatter = if mute == StateToggle::On {
                    &self.mute_formatter
                } else {
                    &self.volume_formatter
                };
                let text = String::from_str(formatter.before.as_str()).concat(
                    volume.to_string().as_str(),
                ).concat(formatter.after.as_str());
                Some(text)
            },
            _ => None,
        }
    }

    /// Takes one response of the amplifier and hands out the line to print,
    /// if there is one.
    ///
    /// A volume or a mute state replaces what was known of it, and gives a
    /// line as soon as both are known. Any other response changes nothing and
    /// gives no line.
    pub fn update(&mut self, response: &RotelResponse) -> (r: Option<String>)
        ensures
            final(self).volume_formatter() == old(self).volume_formatter(),
            final(self).mute_formatter() == old(self).mute_formatter(),
            final(self).mute() == match response {
                RotelResponse::Mute(mute) => Some(*mute),
                _ => old(self).mute(),
            },
            final(self).volume() == match response {
                RotelResponse::Volume(volume) => Some(*volume),
                _ => old(self).volume(),
            },
            match r {
                Some(text) => (response is Volume || response is Mute) && final(self).line()
                    == Some(text@),
                None => !(response is Volume || response is Mute) || final(self).line() is None,
            },
    {
        match response {
            RotelResponse::Volume(volume) => {
                self.volume = Some(*volume);
            },
            RotelResponse::Mute(mute) => {
                self.mute = Some(*mute);
            },
            _ => {
                return None;
            },
        }
        self.print_status()
    }
}

} // verus!
