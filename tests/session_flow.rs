use pitched::args::{Args, ArgsError};
use pitched::port::choose_port;
use pitched::session::{guess_matches, judge, octave_matters, pick_tone, Reply};
use pitched::text::same_text;
use pitched::tone::{Tone, ToneError};

fn strings(v: &[&str]) -> Vec<String> {
    v.iter().map(|s| s.to_string()).collect()
}

#[test]
fn equivalent_spelling_is_a_success() {
    let range = Tone(48)..Tone(60);
    let check = octave_matters(&range);
    assert!(!check);
    let target = Tone(49);
    assert_eq!(target.format(), "cis2");
    assert_eq!(judge("des3", target, check), Reply::Success);
    assert_eq!(judge("cis3", target, check), Reply::Success);
    assert_eq!(judge("des5", target, check), Reply::Success);
    assert_eq!(judge("des2", target, check), Reply::Success);
    assert_eq!(judge("d3", target, check), Reply::Failure(target, Tone(62)));
}

#[test]
fn octave_counts_over_wide_ranges() {
    assert!(octave_matters(&(Tone(48)..Tone(61))));
    assert!(!octave_matters(&(Tone(48)..Tone(60))));
    assert!(guess_matches(Tone(61), Tone(61), true));
    assert!(!guess_matches(Tone(49), Tone(61), true));
    assert!(guess_matches(Tone(49), Tone(61), false));
    assert_eq!(judge("des5", Tone(49), true), Reply::Failure(Tone(49), Tone(85)));
    assert_eq!(judge("des2", Tone(49), true), Reply::Success);
    assert_eq!(judge("des3", Tone(49), true), Reply::Failure(Tone(49), Tone(61)));
}

#[test]
fn commands_of_the_session() {
    let t = Tone(60);
    assert_eq!(judge("q", t, false), Reply::Quit);
    assert_eq!(judge("quit", t, false), Reply::Quit);
    assert_eq!(judge("?", t, false), Reply::Help);
    assert_eq!(judge("help", t, false), Reply::Help);
    assert_eq!(judge("", t, false), Reply::Replay);
    assert_eq!(judge("x", t, false), Reply::Unreadable(ToneError::InvalidToneName('x')));
}

#[test]
fn drawn_tones_stay_in_range() {
    assert_eq!(pick_tone(&(Tone(10)..Tone(11))), Tone(10));
    let range = Tone(48)..Tone(60);
    let mut seen_other = false;
    for _ in 0..500 {
        let t = pick_tone(&range);
        assert!(t.0 >= 48 && t.0 < 60);
        if t.0 != 48 {
            seen_other = true;
        }
    }
    assert!(seen_other);
}

#[test]
fn default_options() {
    let a = Args::parse(&Vec::new()).unwrap();
    assert_eq!(a.midi_port, None);
    assert!(!a.helped);
    assert_eq!(a.tone_range, Tone(60)..Tone(72));
    assert!(a.run());
    let d = Args::default();
    assert_eq!(d.tone_range, Tone(60)..Tone(72));
}

#[test]
fn options_are_read() {
    let a = Args::parse(&strings(&["-p", "dev", "--range", "c3..c5"])).unwrap();
    assert_eq!(a.midi_port, Some("dev".to_string()));
    assert_eq!(a.tone_range, Tone(60)..Tone(84));
    let h = Args::parse(&strings(&["--help"])).unwrap();
    assert!(h.helped);
    assert!(!h.run());
    let hp = Args::parse(&strings(&["-?", "--port", "x"])).unwrap();
    assert!(hp.run());
}

#[test]
fn option_errors() {
    assert_eq!(
        Args::parse(&strings(&["-r", "c4..c3"])).unwrap_err(),
        ArgsError::EmptyRange(Tone(72), Tone(60))
    );
    assert_eq!(
        Args::parse(&strings(&["-r", "c4..c4"])).unwrap_err(),
        ArgsError::EmptyRange(Tone(72), Tone(72))
    );
    assert_eq!(
        Args::parse(&strings(&["-r", "c4"])).unwrap_err(),
        ArgsError::InvalidRange("c4".to_string())
    );
    assert_eq!(
        Args::parse(&strings(&["-r", "x..c3"])).unwrap_err(),
        ArgsError::InvalidTone(ToneError::InvalidToneName('x'))
    );
    assert_eq!(
        Args::parse(&strings(&["-r", "c3...c4"])).unwrap_err(),
        ArgsError::InvalidTone(ToneError::InvalidToneName('.'))
    );
    assert_eq!(
        Args::parse(&strings(&["-p"])).unwrap_err(),
        ArgsError::MissingValue("-p".to_string())
    );
    assert_eq!(
        Args::parse(&strings(&["--bogus"])).unwrap_err(),
        ArgsError::UnknownArgument("--bogus".to_string())
    );
}

#[test]
fn port_choice() {
    let ids = strings(&["a", "b", "a"]);
    assert_eq!(choose_port(&ids, &Some("a".to_string())), Some(0));
    assert_eq!(choose_port(&ids, &Some("b".to_string())), Some(1));
    assert_eq!(choose_port(&ids, &Some("c".to_string())), None);
    assert_eq!(choose_port(&ids, &None), Some(2));
    assert_eq!(choose_port(&Vec::new(), &None), None);
}

#[test]
fn text_equality() {
    assert!(same_text("abc", "abc"));
    assert!(!same_text("abc", "abd"));
    assert!(!same_text("ab", "abc"));
    assert!(same_text("", ""));
}
