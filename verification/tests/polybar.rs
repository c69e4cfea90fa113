use amp_mate::controller::protocol::{
    Direction, RotelCommand, RotelQuery, RotelResponse, StateToggle, Volume,
};
use amp_mate::polybar::{find_bytes, FormatError, OutputFormatter, PolybarOutput};

fn formatter(text: &str) -> OutputFormatter {
    OutputFormatter::from_str(text).unwrap()
}

#[test]
fn finds_first_occurrence() {
    assert_eq!(find_bytes(b"a{value}b{value}", b"{value}"), Some(1));
    assert_eq!(find_bytes(b"{value}", b"{value}"), Some(0));
    assert_eq!(find_bytes(b"{valu{value}", b"{value}"), Some(5));
    assert_eq!(find_bytes(b"{value", b"{value}"), None);
    assert_eq!(find_bytes(b"", b"{value}"), None);
    assert_eq!(find_bytes(b"abc", b""), Some(0));
}

#[test]
fn format_is_cut_at_the_first_placeholder() {
    assert_eq!(
        OutputFormatter::from_str("vol {value}%"),
        Ok(OutputFormatter { before: "vol ".to_string(), after: "%".to_string() })
    );
    assert_eq!(
        OutputFormatter::from_str("{value}"),
        Ok(OutputFormatter { before: String::new(), after: String::new() })
    );
    assert_eq!(
        OutputFormatter::from_str("a{value}b{value}c"),
        Ok(OutputFormatter { before: "a".to_string(), after: "b{value}c".to_string() })
    );
    assert_eq!(
        OutputFormatter::from_str("\u{1f50a} {value}\u{e9}"),
        Ok(OutputFormatter { before: "\u{1f50a} ".to_string(), after: "\u{e9}".to_string() })
    );
}

#[test]
fn format_needs_a_placeholder() {
    assert_eq!(OutputFormatter::from_str("volume"), Err(FormatError::MissingPlaceholder));
    assert_eq!(OutputFormatter::from_str(""), Err(FormatError::MissingPlaceholder));
    assert_eq!(OutputFormatter::from_str("{value"), Err(FormatError::MissingPlaceholder));
    assert_eq!(OutputFormatter::from_str("{Value}"), Err(FormatError::MissingPlaceholder));
}

#[test]
fn formats_a_value() {
    assert_eq!(formatter("vol {value}%").format("42"), "vol 42%");
    assert_eq!(formatter("{value}").format("up"), "up");
}

#[test]
fn asks_for_volume_then_mute() {
    let output = PolybarOutput::new(formatter("{value}"), formatter("{value}"));
    assert_eq!(
        output.query_status(),
        vec![RotelCommand::Get(RotelQuery::Volume), RotelCommand::Get(RotelQuery::Mute)]
    );
}

#[test]
fn prints_once_volume_and_mute_are_known() {
    let mut output = PolybarOutput::new(formatter("vol {value}"), formatter("muted ({value})"));
    assert_eq!(output.print_status(), None);
    assert_eq!(output.update(&RotelResponse::Power(StateToggle::On)), None);
    assert_eq!(output.update(&RotelResponse::Volume(Volume::try_from(24).unwrap())), None);
    assert_eq!(output.update(&RotelResponse::Unknown("source=cd".to_string())), None);
    assert_eq!(
        output.update(&RotelResponse::Mute(StateToggle::Off)),
        Some("vol 24".to_string())
    );
    assert_eq!(output.print_status(), Some("vol 24".to_string()));
    assert_eq!(
        output.update(&RotelResponse::Volume(Volume::try_from(7).unwrap())),
        Some("vol 7".to_string())
    );
    assert_eq!(
        output.update(&RotelResponse::Mute(StateToggle::On)),
        Some("muted (7)".to_string())
    );
    assert_eq!(output.update(&RotelResponse::Power(StateToggle::Off)), None);
    assert_eq!(
        output.update(&RotelResponse::Volume(Volume::Direction(Direction::Up))),
        Some("muted (up)".to_string())
    );
}

#[test]
fn mute_first_then_volume() {
    let mut output = PolybarOutput::new(formatter("{value}"), formatter("M{value}"));
    assert_eq!(output.update(&RotelResponse::Mute(StateToggle::On)), None);
    assert_eq!(
        output.update(&RotelResponse::Volume(Volume::try_from(96).unwrap())),
        Some("M96".to_string())
    );
}
