use hdrify::wide::{from_wide, to_wide};

#[test]
fn zero_at_the_end() {
    assert_eq!(to_wide(""), [0]);
    assert_eq!(to_wide("Hi"), [0x48, 0x69, 0]);
    assert_eq!(to_wide("\u{2014}"), [0x2014, 0]);
}

#[test]
fn higher_planes_take_two_units() {
    assert_eq!(to_wide("\u{1f600}"), [0xd83d, 0xde00, 0]);
    assert_eq!(to_wide("\u{10000}"), [0xd800, 0xdc00, 0]);
    assert_eq!(to_wide("\u{10ffff}"), [0xdbff, 0xdfff, 0]);
    assert_eq!(to_wide("\u{ffff}"), [0xffff, 0]);
}

#[test]
fn text_survives_the_round_trip() {
    for s in ["", "game.exe", "\u{fc}ber \u{1f3ae}.exe", "\u{ffff}\u{10000}\u{d7ff}\u{e000}"] {
        let w = to_wide(s);
        assert_eq!(from_wide(&w, w.len() - 1), s);
        let expected: Vec<u16> = s.encode_utf16().chain(std::iter::once(0)).collect();
        assert_eq!(w, expected);
    }
}

#[test]
fn lone_surrogates_are_replaced() {
    for units in [
        vec![0xd800u16],
        vec![0xdc00],
        vec![0xd800, 0x41],
        vec![0xd800, 0xd800, 0xdc00],
        vec![0xdc00, 0xd800],
        vec![0x41, 0xdbff, 0xdfff, 0xdfff, 0x42],
        vec![],
    ] {
        assert_eq!(from_wide(&units, units.len()), String::from_utf16_lossy(&units));
    }
    assert_eq!(from_wide(&vec![0xd800, 0x41], 2), "\u{fffd}A");
}

#[test]
fn only_the_first_units_count() {
    assert_eq!(from_wide(&vec![0x41, 0x42, 0], 1), "A");
    assert_eq!(from_wide(&vec![0xd83d, 0xde00], 1), "\u{fffd}");
}
