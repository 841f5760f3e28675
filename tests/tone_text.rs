use pitched::tone::{parse_octave, Tone, ToneError};

fn note(s: &str) -> u8 {
    Tone::parse(s).unwrap().0
}

#[test]
fn parses_plain_names() {
    assert_eq!(note("c4"), 72);
    assert_eq!(note("d4"), 74);
    assert_eq!(note("e4"), 76);
    assert_eq!(note("f4"), 77);
    assert_eq!(note("g4"), 79);
    assert_eq!(note("a4"), 81);
    assert_eq!(note("h4"), 83);
    assert_eq!(note("C4"), 72);
    assert_eq!(note("H3"), 71);
}

#[test]
fn b_and_h_are_synonyms() {
    assert_eq!(Tone::parse("b4"), Tone::parse("h4"));
    assert_eq!(note("b4"), 83);
    assert_eq!(Tone::parse("b4").unwrap().tone(), 11);
}

#[test]
fn sharp_and_flat_spellings() {
    assert_eq!(Tone::parse("cis4"), Tone::parse("c#4"));
    assert_eq!(note("cis4"), 73);
    assert_eq!(note("des4"), 73);
    assert_eq!(note("db4"), 73);
    assert_eq!(note("ces4"), note("c4") - 1);
    assert_eq!(note("es4"), 75);
    assert_eq!(note("as4"), 80);
    assert_eq!(note("eis4"), 77);
    assert_eq!(note("hb4"), 82);
}

#[test]
fn octave_defaults_to_four() {
    let a = Tone::parse("a").unwrap();
    assert_eq!(a.octave(), 4);
    assert_eq!(a.0, 81);
    assert_eq!(note("e"), 76);
    assert_eq!(note("es"), 75);
    assert_eq!(note("c-"), 72);
}

#[test]
fn negative_octaves() {
    assert_eq!(note("c-1"), 12);
    assert_eq!(note("c-2"), 0);
    assert_eq!(note("h-2"), 11);
    assert_eq!(Tone::parse("c-3"), Err(ToneError::OutOfRange("c-3".to_string())));
    assert_eq!(Tone::parse("ces-2"), Err(ToneError::OutOfRange("ces-2".to_string())));
}

#[test]
fn range_boundary() {
    assert_eq!(note("g8"), 127);
    assert_eq!(Tone::parse("gis8"), Err(ToneError::OutOfRange("gis8".to_string())));
    assert_eq!(Tone::parse("as8"), Err(ToneError::OutOfRange("as8".to_string())));
    assert_eq!(Tone::parse("c127"), Err(ToneError::OutOfRange("c127".to_string())));
    assert_eq!(Tone::parse("c-128"), Err(ToneError::OutOfRange("c-128".to_string())));
}

#[test]
fn malformed_input() {
    assert_eq!(Tone::parse(""), Err(ToneError::MissingToneName));
    assert_eq!(Tone::parse("x4"), Err(ToneError::InvalidToneName('x')));
    assert_eq!(Tone::parse("cxx4"), Err(ToneError::InvalidModifier("xx".to_string())));
    assert_eq!(Tone::parse("ce4"), Err(ToneError::InvalidModifier("e".to_string())));
    assert_eq!(Tone::parse("c--4"), Err(ToneError::InvalidModifier("-".to_string())));
    assert_eq!(Tone::parse("cx"), Err(ToneError::InvalidModifier("x".to_string())));
    assert_eq!(Tone::parse("cx-"), Err(ToneError::InvalidModifier("x-".to_string())));
    assert_eq!(Tone::parse("cisx-12"), Err(ToneError::InvalidModifier("x".to_string())));
    assert_eq!(Tone::parse("c4.5"), Err(ToneError::InvalidOctave("4.5".to_string())));
    assert_eq!(Tone::parse("c200"), Err(ToneError::InvalidOctave("200".to_string())));
    assert_eq!(Tone::parse("c-129"), Err(ToneError::InvalidOctave("-129".to_string())));
}

#[test]
fn octave_numbers() {
    assert_eq!(parse_octave("4"), Some(4));
    assert_eq!(parse_octave("007"), Some(7));
    assert_eq!(parse_octave("-128"), Some(-128));
    assert_eq!(parse_octave("127"), Some(127));
    assert_eq!(parse_octave("128"), None);
    assert_eq!(parse_octave("-129"), None);
    assert_eq!(parse_octave(""), None);
    assert_eq!(parse_octave("-"), None);
    assert_eq!(parse_octave("4.5"), None);
}

#[test]
fn formats_canonical_names() {
    assert_eq!(Tone(72).format(), "c4");
    assert_eq!(Tone(73).format(), "cis4");
    assert_eq!(Tone(82).format(), "ais4");
    assert_eq!(Tone(83).format(), "h4");
    assert_eq!(Tone(0).format(), "c-2");
    assert_eq!(Tone(11).format(), "h-2");
    assert_eq!(Tone(12).format(), "c-1");
    assert_eq!(Tone(127).format(), "g8");
    assert_eq!(Tone(59).format(), "h2");
}

#[test]
fn parse_of_format_is_identity() {
    for n in 0..=127u8 {
        let t = Tone(n);
        assert_eq!(Tone::parse(&t.format()), Ok(t));
    }
}

#[test]
fn new_and_accessors() {
    assert_eq!(Tone::new(0, 4), Tone(72));
    assert_eq!(Tone::new(9, 4).0, 81);
    assert_eq!(Tone::new(0, 3), Tone(60));
    assert_eq!(Tone(61).tone(), 1);
    assert_eq!(Tone(61).octave(), 3);
    assert_eq!(Tone(73).octave(), 4);
    assert_eq!(Tone(0).octave(), -2);
    assert_eq!(Tone(127).tone(), 7);
}

#[test]
fn wire_encoding() {
    assert_eq!(Tone(60).press(0, 127), [0x90, 60, 127]);
    assert_eq!(Tone(60).release(1, 200), [0x81, 60, 72]);
    assert_eq!(Tone(60).press(0x13, 0x80), [0x93, 60, 0]);
    assert_eq!(Tone(200).press(0, 1), [0x90, 72, 1]);
    assert_eq!(Tone(60)._instrument(2, 0x85), [0xd2, 5]);
    assert_eq!(Tone(60)._instrument(0x20, 7), [0xf0, 7]);
}
