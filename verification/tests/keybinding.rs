use webkitten::keybinding::{parse, KeyMask, ParseErrorReason};

#[test]
fn parse_invalid_modifier_reason() {
    let chord = parse("Hyper 7");
    assert_eq!(ParseErrorReason::ModifierNotFound, chord.err().unwrap().reason);
}

#[test]
fn parse_invalid_modifier_modifier() {
    let chord = parse("Hyper 7");
    assert!(chord.err().unwrap().message.contains("Hyper"));
}

#[test]
fn parse_too_many_characters_reason() {
    let chord = parse("Ctrl Alt d a");
    assert_eq!(ParseErrorReason::TooManyKeysSpecified, chord.err().unwrap().reason);
}

#[test]
fn parse_no_modifier_reason() {
    let chord = parse("a");
    assert_eq!(ParseErrorReason::NoModifierSpecified, chord.err().unwrap().reason);
}

#[test]
fn parse_no_key_reason() {
    let chord = parse("Ctrl Alt");
    assert_eq!(ParseErrorReason::NoKeySpecified, chord.err().unwrap().reason);
}

#[test]
fn parse_case_insensitive_modifiers() {
    let chord1 = parse("CTRL OPTION a");
    let chord2 = parse("Ctrl option a");
    assert_eq!(chord1, chord2);

    let value = chord1.ok().unwrap();
    assert_eq!('a', value.0);
    assert_eq!(KeyMask::Control.mask() | KeyMask::Alternate.mask(), value.1);
}

#[test]
fn parse_alt_option_modifiers() {
    let chord1 = parse("Option b");
    let chord2 = parse("Alt b");
    assert_eq!(chord1, chord2);

    let value = chord1.ok().unwrap();
    assert_eq!('b', value.0);
    assert_eq!(KeyMask::Alternate.mask(), value.1);
}

#[test]
fn parse_command_modifier() {
    assert_eq!(KeyMask::Super.mask(), parse("cmd 1").ok().unwrap().1);
    assert_eq!(KeyMask::Super.mask(), parse("command 1").ok().unwrap().1);
    assert_eq!(KeyMask::Super.mask(), parse("super 1").ok().unwrap().1);
}

#[test]
fn parse_alt_modifier() {
    assert_eq!(KeyMask::Alternate.mask(), parse("alt 1").ok().unwrap().1);
    assert_eq!(KeyMask::Alternate.mask(), parse("opt 1").ok().unwrap().1);
    assert_eq!(KeyMask::Alternate.mask(), parse("option 1").ok().unwrap().1);
}

#[test]
fn parse_function_modifier() {
    assert_eq!(KeyMask::Function.mask(), parse("fn 1").ok().unwrap().1);
    assert_eq!(KeyMask::Function.mask(), parse("function 1").ok().unwrap().1);
}

#[test]
fn parse_control_modifier() {
    assert_eq!(KeyMask::Control.mask(), parse("ctrl 1").ok().unwrap().1);
    assert_eq!(KeyMask::Control.mask(), parse("control 1").ok().unwrap().1);
}

#[test]
fn parse_space_key() {
    assert_eq!(' ', parse("space control").ok().unwrap().0);
}

#[test]
fn parse_shift_modifier() {
    assert_eq!(KeyMask::Shift.mask(), parse("shift 1").ok().unwrap().1);
}

#[test]
fn parse_mask_values() {
    assert_eq!(0x10000, KeyMask::Shift.mask());
    assert_eq!(0x40000, KeyMask::Control.mask());
    assert_eq!(0x80000, KeyMask::Alternate.mask());
    assert_eq!(0x100000, KeyMask::Super.mask());
    assert_eq!(0x800000, KeyMask::Function.mask());
}

#[test]
fn parse_round_trip_any_order() {
    assert_eq!(
        ('d', KeyMask::Control.mask() | KeyMask::Alternate.mask()),
        parse("Ctrl Alt d").ok().unwrap()
    );
    assert_eq!(
        ('d', KeyMask::Control.mask() | KeyMask::Alternate.mask()),
        parse("d Alt Ctrl").ok().unwrap()
    );
    assert_eq!(
        ('d', KeyMask::Alternate.mask() | KeyMask::Control.mask()),
        parse("Alt d Ctrl").ok().unwrap()
    );
}

#[test]
fn parse_error_messages() {
    assert_eq!("No key specified in chord", parse("ctrl alt").err().unwrap().message);
    assert_eq!("No modifier specified in chord", parse("z").err().unwrap().message);
    assert_eq!("Modifier not found for 'Hyper'", parse("Hyper 7").err().unwrap().message);
    assert_eq!(
        "Too many keys specified in chord: d a",
        parse("Ctrl Alt d a").err().unwrap().message
    );
}

#[test]
fn parse_empty_chord() {
    let err = parse("").err().unwrap();
    assert_eq!(ParseErrorReason::ModifierNotFound, err.reason);
    assert_eq!("Modifier not found for ''", err.message);
}

#[test]
fn parse_double_space_chord() {
    // A doubled space yields an empty token, which names no modifier.
    let err = parse("ctrl  a").err().unwrap();
    assert_eq!(ParseErrorReason::ModifierNotFound, err.reason);
}
