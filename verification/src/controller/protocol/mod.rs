//! Rotel line protocol
//!
//! This module implements the rotel IP/RS232 ASCII protocol version 2.
//! It is based and tested on the RA-1572.
//! Behaviour should be similar on other models of the same family.

use self::constants::{MAX_DIMMER, MAX_VOLUME};
use self::digits::{decimal_string, decimal_text, two_digit_string, two_digits};
use self::error::ValidationError;
use self::text::{equal_ignoring_case, numeral_within, read_numeral, same_ignoring_case, Numeral};
use vstd::prelude::*;
use vstd::string::*;
use vstd::utf8::encode_utf8;

pub mod constants;
pub mod digits;
pub mod error;
pub mod response;
pub mod roundtrip;
pub mod text;
pub mod wire;

pub use self::response::{ResponseModel, RotelResponse};

verus! {

/// A value that has a form on the wire from the controller to the amplifier.
pub trait ToRotel {
    /// The text that stands for the value on the wire.
    spec fn rotel_text(&self) -> Seq<char>;

    /// Writes the value as it stands on the wire.
    fn to_rotel(&self) -> (r: String)
        ensures
            r@ == self.rotel_text(),
    ;
}

/// One step of the volume, up or down.
#[derive(Debug, Clone, Copy, PartialEq, Eq, Structural)]
pub enum Direction {
    Up,
    Down,
}

/// The direction that a text names: `up` or `down`, in any mix of upper and lower case.
pub open spec fn direction_of(text: Seq<u8>) -> Option<Direction> {
    if same_ignoring_case(text, "up".spec_bytes()) {
        Some(Direction::Up)
    } else if same_ignoring_case(text, "down".spec_bytes()) {
        Some(Direction::Down)
    } else {
        None
    }
}

impl Direction {
    /// The word for the direction: `up` or `down`.
    pub open spec fn text(self) -> Seq<char> {
        match self {
            Direction::Up => "up"@,
            Direction::Down => "down"@,
        }
    }

    /// Reads a direction from the bytes of a text.
    pub fn from_bytes(text: &[u8]) -> (r: Result<Direction, ValidationError>)
        ensures
            r == match direction_of(text@) {
                Some(d) => Ok::<Direction, ValidationError>(d),
                None => Err(ValidationError::Unrecognized),
            },
    {
        if equal_ignoring_case(text, "up".as_bytes()) {
            Ok(Direction::Up)
        } else if equal_ignoring_case(text, "down".as_bytes()) {
            Ok(Direction::Down)
        } else {
            Err(ValidationError::Unrecognized)
        }
    }

    /// Reads a direction from a text.
    pub fn from_str(s: &str) -> (r: Result<Direction, ValidationError>)
        ensures
            r == match direction_of(s.spec_bytes()) {
                Some(d) => Ok::<Direction, ValidationError>(d),
                None => Err(ValidationError::Unrecognized),
            },
    {
        Direction::from_bytes(s.as_bytes())
    }

    /// Writes the word for the direction.
    pub fn to_string(&self) -> (r: String)
        ensures
            r@ == self.text(),
    {
        match self {
            Direction::Up => String::from_str("up"),
            Direction::Down => String::from_str("down"),
        }
    }
}

/// A binary state of the device.
#[derive(Debug, Clone, Copy, PartialEq, Eq, Structural)]
pub enum StateToggle {
    On,
    Off,
}

/// The state that a text names: `on` or `off`, in any mix of upper and lower case.
pub open spec fn toggle_of(text: Seq<u8>) -> Option<StateToggle> {
    if same_ignoring_case(text, "on".spec_bytes()) {
        Some(StateToggle::On)
    } else if same_ignoring_case(text, "off".spec_bytes()) {
        Some(StateToggle::Off)
    } else {
        None
    }
}

impl StateToggle {
    /// The word for the state, as it is written on the wire: `on` or `off`.
    pub open spec fn text(self) -> Seq<char> {
        match self {
            StateToggle::On => "on"@,
            StateToggle::Off => "off"@,
        }
    }

    /// Reads a state from the bytes of a text.
    pub fn from_bytes(text: &[u8]) -> (r: Result<StateToggle, ValidationError>)
        ensures
            r == match toggle_of(text@) {
                Some(t) => Ok::<StateToggle, ValidationError>(t),
                None => Err(ValidationError::Unrecognized),
            },
    {
        if equal_ignoring_case(text, "on".as_bytes()) {
            Ok(StateToggle::On)
        } else if equal_ignoring_case(text, "off".as_bytes()) {
            Ok(StateToggle::Off)
        } else {
            Err(ValidationError::Unrecognized)
        }
    }

    /// Reads a state from a text.
    pub fn from_str(s: &str) -> (r: Result<StateToggle, ValidationError>)
        ensures
            r == match toggle_of(s.spec_bytes()) {
                Some(t) => Ok::<StateToggle, ValidationError>(t),
                None => Err(ValidationError::Unrecognized),
            },
    {
        StateToggle::from_bytes(s.as_bytes())
    }

    /// The word for the state.
    pub fn as_str(&self) -> (r: &'static str)
        ensures
            r@ == self.text(),
    {
        match self {
            StateToggle::On => "on",
            StateToggle::Off => "off",
        }
    }

    /// Writes the word for the state.
    pub fn to_string(&self) -> (r: String)
        ensures
            r@ == self.text(),
    {
        String::from_str(self.as_str())
    }
}

/// An absolute volume level. No level is above `MAX_VOLUME`.
#[derive(Debug, Clone, Copy, PartialEq, Eq, Structural)]
pub struct Level {
    value: u8,
}

impl View for Level {
    type V = nat;

    closed spec fn view(&self) -> nat {
        self.value as nat
    }
}

impl Level {
    #[verifier::type_invariant]
    spec fn within_limit(self) -> bool {
        self.value <= MAX_VOLUME
    }

    /// True of every level that a program holds: it is not above `MAX_VOLUME`.
    pub open spec fn is_valid(self) -> bool {
        self@ <= MAX_VOLUME
    }

    /// Makes a level of a number, which must not be above `MAX_VOLUME`.
    pub fn try_from(value: u8) -> (r: Result<Level, ValidationError>)
        ensures
            value <= MAX_VOLUME ==> r is Ok && r->Ok_0@ == value,
            value > MAX_VOLUME ==> r == Err::<Level, ValidationError>(ValidationError::OutOfRange),
    {
        if value > MAX_VOLUME {
            Err(ValidationError::OutOfRange)
        } else {
            Ok(Level { value })
        }
    }

    /// The level as a number.
    pub fn value(&self) -> (v: u8)
        ensures
            v == self@,
            self.is_valid(),
    {
        proof {
            use_type_invariant(self);
        }
        self.value
    }

    /// Two levels that stand for one number are one level.
    pub proof fn lemma_view_injective(self, other: Level)
        requires
            self@ == other@,
        ensures
            self == other,
    {
    }
}

/// What a volume value stands for: a level, or one step.
pub enum VolumeModel {
    /// An absolute level.
    Value(nat),
    /// One step up or down.
    Direction(Direction),
}

/// A volume: an absolute level, or one step up or down.
#[derive(Debug, Clone, Copy, PartialEq, Eq, Structural)]
pub enum Volume {
    Value(Level),
    Direction(Direction),
}

impl View for Volume {
    type V = VolumeModel;

    open spec fn view(&self) -> VolumeModel {
        match self {
            Volume::Value(level) => VolumeModel::Value(level@),
            Volume::Direction(direction) => VolumeModel::Direction(*direction),
        }
    }
}

/// The volume that a text names, or why it names none.
///
/// A numeral names a level where it is not above `MAX_VOLUME`; `up` and
/// `down`, in any mix of upper and lower case, name the steps.
pub open spec fn volume_of(text: Seq<u8>) -> Result<VolumeModel, ValidationError> {
    match numeral_within(text, MAX_VOLUME) {
        Numeral::Within(value) => Ok(VolumeModel::Value(value as nat)),
        Numeral::AboveLimit => Err(ValidationError::OutOfRange),
        Numeral::Malformed => match direction_of(text) {
            Some(direction) => Ok(VolumeModel::Direction(direction)),
            None => Err(ValidationError::Unrecognized),
        },
    }
}

impl Volume {
    /// True of every volume that a program holds: its level, if it is one, is
    /// not above `MAX_VOLUME`.
    pub open spec fn is_valid(self) -> bool {
        match self {
            Volume::Value(level) => level.is_valid(),
            Volume::Direction(_) => true,
        }
    }

    /// The volume as a user reads it: the level in decimal, or `up` or `down`.
    pub open spec fn text(self) -> Seq<char> {
        match self {
            Volume::Value(level) => decimal_text(level@),
            Volume::Direction(direction) => direction.text(),
        }
    }

    /// Makes an absolute volume of a number, which must not be above `MAX_VOLUME`.
    pub fn try_from(value: u8) -> (r: Result<Volume, ValidationError>)
        ensures
            value <= MAX_VOLUME ==> r is Ok && r->Ok_0@ == VolumeModel::Value(value as nat),
            value > MAX_VOLUME ==> r == Err::<Volume, ValidationError>(
                ValidationError::OutOfRange,
            ),
    {
        match Level::try_from(value) {
            Ok(level) => Ok(Volume::Value(level)),
            Err(e) => Err(e),
        }
    }

    /// Reads a volume from the bytes of a text.
    pub fn from_bytes(text: &[u8]) -> (r: Result<Volume, ValidationError>)
        ensures
            match r {
                Ok(volume) => volume_of(text@) == Ok::<VolumeModel, ValidationError>(volume@),
                Err(e) => volume_of(text@) == Err::<VolumeModel, ValidationError>(e),
            },
    {
        match read_numeral(text, MAX_VOLUME) {
            Numeral::Within(value) => Volume::try_from(value),
            Numeral::AboveLimit => Err(ValidationError::OutOfRange),
            Numeral::Malformed => match Direction::from_bytes(text) {
                Ok(direction) => Ok(Volume::Direction(direction)),
                Err(e) => Err(e),
            },
        }
    }

    /// Reads a volume from a text.
    pub fn from_str(s: &str) -> (r: Result<Volume, ValidationError>)
        ensures
            match r {
                Ok(volume) => volume_of(s.spec_bytes()) == Ok::<VolumeModel, ValidationError>(
                    volume@,
                ),
                Err(e) => volume_of(s.spec_bytes()) == Err::<VolumeModel, ValidationError>(e),
            },
    {
        Volume::from_bytes(s.as_bytes())
    }

    /// Writes the volume as a user reads it.
    pub fn to_string(&self) -> (r: String)
        ensures
            r@ == self.text(),
    {
        match self {
            Volume::Value(level) => decimal_string(level.value()),
            Volume::Direction(direction) => direction.to_string(),
        }
    }
}

impl ToRotel for Volume {
    /// `vol_` and the level in two digits, or `vol_up`, or `vol_dwn`.
    open spec fn rotel_text(&self) -> Seq<char> {
        match self {
            Volume::Value(level) => "vol_"@ + two_digits(level@),
            Volume::Direction(Direction::Down) => "vol_dwn"@,
            Volume::Direction(Direction::Up) => "vol_up"@,
        }
    }

    fn to_rotel(&self) -> (r: String) {
        match self {
            Volume::Value(level) => String::from_str("vol_").concat(
                two_digit_string(level.value()).as_str(),
            ),
            Volume::Direction(Direction::Down) => String::from_str("vol_dwn"),
            Volume::Direction(Direction::Up) => String::from_str("vol_up"),
        }
    }
}

/// A brightness of the display. No dimmer value is above `MAX_DIMMER`.
#[derive(Debug, Clone, Copy, PartialEq, Eq, Structural)]
pub struct Dimmer(u8);

impl View for Dimmer {
    type V = nat;

    closed spec fn view(&self) -> nat {
        self.0 as nat
    }
}

/// The dimmer value that a text names, or why it names none.
pub open spec fn dimmer_of(text: Seq<u8>) -> Result<nat, ValidationError> {
    match numeral_within(text, MAX_DIMMER) {
        Numeral::Within(value) => Ok(value as nat),
        Numeral::AboveLimit => Err(ValidationError::OutOfRange),
        Numeral::Malformed => Err(ValidationError::Unrecognized),
    }
}

impl Dimmer {
    #[verifier::type_invariant]
    spec fn within_limit(self) -> bool {
        self.0 <= MAX_DIMMER
    }

    /// Makes a dimmer value of a number, which must not be above `MAX_DIMMER`.
    pub fn try_from(value: u8) -> (r: Result<Dimmer, ValidationError>)
        ensures
            value <= MAX_DIMMER ==> r is Ok && r->Ok_0@ == value,
            value > MAX_DIMMER ==> r == Err::<Dimmer, ValidationError>(
                ValidationError::OutOfRange,
            ),
    {
        if value > MAX_DIMMER {
            Err(ValidationError::OutOfRange)
        } else {
            Ok(Dimmer(value))
        }
    }

    /// The dimmer value as a number.
    pub fn value(&self) -> (v: u8)
        ensures
            v == self@,
            v <= MAX_DIMMER,
    {
        proof {
            use_type_invariant(self);
        }
        self.0
    }

    /// Reads a dimmer value from a text.
    pub fn from_str(s: &str) -> (r: Result<Dimmer, ValidationError>)
        ensures
            match r {
                Ok(dimmer) => dimmer_of(s.spec_bytes()) == Ok::<nat, ValidationError>(dimmer@),
                Err(e) => dimmer_of(s.spec_bytes()) == Err::<nat, ValidationError>(e),
            },
    {
        match read_numeral(s.as_bytes(), MAX_DIMMER) {
            Numeral::Within(value) => Dimmer::try_from(value),
            Numeral::AboveLimit => Err(ValidationError::OutOfRange),
            Numeral::Malformed => Err(ValidationError::Unrecognized),
        }
    }

    /// Writes the dimmer value in decimal.
    pub fn to_string(&self) -> (r: String)
        ensures
            r@ == decimal_text(self@),
    {
        decimal_string(self.value())
    }

    /// Two dimmer values that stand for one number are one value.
    pub proof fn lemma_view_injective(self, other: Dimmer)
        requires
            self@ == other@,
        ensures
            self == other,
    {
    }
}

impl From<Dimmer> for u8 {
    fn from(volume: Dimmer) -> (r: u8) {
        volume.value()
    }
}

impl vstd::std_specs::convert::FromSpecImpl<Dimmer> for u8 {
    open spec fn obeys_from_spec() -> bool {
        true
    }

    /// The number that the dimmer value stands for.
    open spec fn from_spec(v: Dimmer) -> u8 {
        v@ as u8
    }
}

/// Feedback request commands
///
/// These commands are used to query the state of the amp. They do not change the state.
#[derive(Debug, Clone, Copy, PartialEq, Eq, Structural)]
pub enum RotelQuery {
    Power,
    Volume,
    Source,
    Mute,
    Frequency,
    Speaker,
    Dimmer,
    Version,
    Model,
}

impl RotelQuery {
    /// The request for the value, ready for the wire.
    pub fn as_str(&self) -> (r: &'static str)
        ensures
            r@ == self.rotel_text(),
    {
        match self {
            RotelQuery::Power => "power?",
            RotelQuery::Volume => "volume?",
            RotelQuery::Source => "source?",
            RotelQuery::Mute => "mute?",
            RotelQuery::Frequency => "freq?",
            RotelQuery::Speaker => "speaker?",
            RotelQuery::Dimmer => "dimmer?",
            RotelQuery::Version => "version?",
            RotelQuery::Model => "model?",
        }
    }
}

impl ToRotel for RotelQuery {
    /// The name of the value that is asked for, and `?`.
    open spec fn rotel_text(&self) -> Seq<char> {
        match self {
            RotelQuery::Power => "power?"@,
            RotelQuery::Volume => "volume?"@,
            RotelQuery::Source => "source?"@,
            RotelQuery::Mute => "mute?"@,
            RotelQuery::Frequency => "freq?"@,
            RotelQuery::Speaker => "speaker?"@,
            RotelQuery::Dimmer => "dimmer?"@,
            RotelQuery::Version => "version?"@,
            RotelQuery::Model => "model?"@,
        }
    }

    fn to_rotel(&self) -> (r: String) {
        String::from_str(self.as_str())
    }
}

/// Control commands
///
/// These commands are used to change the state of the amp.
#[derive(Debug, Clone, Copy, PartialEq, Eq, Structural)]
pub enum Change {
    Mute(StateToggle),
    Power(StateToggle),
    Volume(Volume),
}

impl Change {
    /// True of every change that a program holds: its volume, if it sets one,
    /// is valid.
    pub open spec fn is_valid(&self) -> bool {
        match self {
            Change::Volume(volume) => volume.is_valid(),
            _ => true,
        }
    }

    /// The change on the wire: what is set and the value it is set to, joined
    /// by `_`, and `!` at the end.
    pub open spec fn rotel_text(&self) -> Seq<char> {
        match self {
            Change::Mute(value) => "mute_"@ + value.text() + "!"@,
            Change::Power(value) => "power_"@ + value.text() + "!"@,
            Change::Volume(volume) => volume.rotel_text() + "!"@,
        }
    }

    /// The change as a user reads it.
    pub open spec fn text(&self) -> Seq<char> {
        "Change: "@ + match self {
            Change::Mute(mute) => "Mute: "@ + mute.text(),
            Change::Power(power) => "Power: "@ + power.text(),
            Change::Volume(volume) => "Volume: "@ + volume.text(),
        }
    }

    /// Writes the change as it stands on the wire.
    pub fn to_rotel(&self) -> (r: String)
        ensures
            r@ == self.rotel_text(),
    {
        let body = match self {
            Change::Mute(value) => String::from_str("mute_").concat(value.as_str()),
            Change::Power(value) => String::from_str("power_").concat(value.as_str()),
            Change::Volume(volume) => volume.to_rotel(),
        };
        body.concat("!")
    }

    /// Writes the change as a user reads it.
    pub fn to_string(&self) -> (r: String)
        ensures
            r@ == self.text(),
    {
        let msg = match self {
            Change::Mute(mute) => String::from_str("Mute: ").concat(mute.as_str()),
            Change::Power(power) => String::from_str("Power: ").concat(power.as_str()),
            Change::Volume(volume) => String::from_str("Volume: ").concat(
                volume.to_string().as_str(),
            ),
        };
        String::from_str("Change: ").concat(msg.as_str())
    }
}

/// What the controller sends to the amplifier.
#[derive(Debug, Clone, Copy, PartialEq, Eq, Structural)]
pub enum RotelCommand {
    /// Changes the state of the amplifier.
    Apply(Change),
    /// Asks the amplifier for a value.
    Get(RotelQuery),
}

impl RotelCommand {
    /// True of every command that a program holds: its change, if it makes
    /// one, is valid.
    pub open spec fn is_valid(&self) -> bool {
        match self {
            RotelCommand::Apply(change) => change.is_valid(),
            RotelCommand::Get(_) => true,
        }
    }

    /// The command on the wire, as text.
    pub open spec fn rotel_text(&self) -> Seq<char> {
        match self {
            RotelCommand::Apply(change) => change.rotel_text(),
            RotelCommand::Get(query) => query.rotel_text(),
        }
    }

    /// The command on the wire, as bytes.
    pub open spec fn wire_bytes(&self) -> Seq<u8> {
        encode_utf8(self.rotel_text())
    }

    /// Writes the command as it stands on the wire.
    pub fn to_rotel(&self) -> (r: String)
        ensures
            r@ == self.rotel_text(),
    {
        match self {
            RotelCommand::Apply(change) => change.to_rotel(),
            RotelCommand::Get(query) => query.to_rotel(),
        }
    }

    /// Encodes the command into the bytes that are sent to the amplifier.
    ///
    /// The command that is encoded is valid, so that the bytes are ASCII and
    /// hold no frame terminator (`wire::lemma_command_is_plain`).
    pub fn encode(&self) -> (r: Vec<u8>)
        ensures
            r@ == self.wire_bytes(),
            self.is_valid(),
    {
        proof {
            match self {
                RotelCommand::Apply(Change::Volume(Volume::Value(level))) => {
                    use_type_invariant(level);
                },
                _ => {},
            }
        }
        self.to_rotel().as_str().as_bytes_vec()
    }
}

} // verus!
