//! A tone is a MIDI note number. This module converts between the number and
//! the spelling a person types (`cis4`, `b3`, `a#`), and encodes the MIDI
//! messages that sound it.

use vstd::prelude::*;

verus! {

/// Number of semitones in one octave.
pub const TONE_CNT: u8 = 12;

/// Offset between the octave a person names and the octave the note number
/// lies in: `c4` is note 72.
pub const OCTAVE_SHIFT: u8 = 2;

/// Largest MIDI note number.
pub const MAX_NOTE: u8 = 127;

/// A MIDI note number. A valid tone holds a value in `0..=127`.
#[derive(Clone, Copy, Debug, PartialEq, Eq, PartialOrd, Ord, Hash, Structural)]
pub struct Tone(pub u8);

/// The note number of a pitch class (`0..12`) in an octave as a person names it.
pub open spec fn note_of(pitch_class: int, octave: int) -> int {
    pitch_class + (octave + OCTAVE_SHIFT as int) * TONE_CNT as int
}

impl Tone {
    /// The tone is a MIDI note.
    pub open spec fn wf(self) -> bool {
        self.0 <= MAX_NOTE
    }

    /// Pitch class of the tone: 0 for `c` up to 11 for `h`.
    pub open spec fn pitch_class(self) -> int {
        self.0 as int % TONE_CNT as int
    }

    /// Octave of the tone as a person names it.
    pub open spec fn octave_of(self) -> int {
        self.0 as int / TONE_CNT as int - OCTAVE_SHIFT as int
    }

    /// The tone of pitch class `tone` in octave `octave`.
    pub fn new(tone: u8, octave: u8) -> (r: Self)
        requires
            note_of(tone as int, octave as int) <= u8::MAX,
        ensures
            r.0 == note_of(tone as int, octave as int),
    {
        Tone(tone + (octave + OCTAVE_SHIFT) * TONE_CNT)
    }

    /// MIDI note-on message for this tone on `channel` with `velocity`.
    pub fn press(&self, channel: u8, velocity: u8) -> (r: [u8; 3])
        ensures
            r@ == seq![0x90u8 | (channel & 0x0f), self.0 & 0x7f, velocity & 0x7f],
    {
        [0x90 | (channel & 0x0f), self.0 & 0x7f, velocity & 0x7f]
    }

    /// MIDI note-off message for this tone on `channel` with `velocity`.
    pub fn release(&self, channel: u8, velocity: u8) -> (r: [u8; 3])
        ensures
            r@ == seq![0x80u8 | (channel & 0x0f), self.0 & 0x7f, velocity & 0x7f],
    {
        [0x80 | (channel & 0x0f), self.0 & 0x7f, velocity & 0x7f]
    }

    /// MIDI message with status `0xd0 | channel` and data byte `instrument`.
    pub fn _instrument(&self, channel: u8, instrument: u8) -> (r: [u8; 2])
        ensures
            r@ == seq![0xd0u8 | channel, instrument & 0x7f],
    {
        [0xd0 | channel, instrument & 0x7f]
    }

    /// Pitch class of the tone: 0 for `c` up to 11 for `h`.
    pub fn tone(&self) -> (r: u8)
        ensures
            r == self.pitch_class(),
            r < TONE_CNT,
    {
        self.0 % TONE_CNT
    }

    /// Octave of the tone as a person names it; `c4` is in octave 4.
    pub fn octave(&self) -> (r: i8)
        ensures
            r == self.octave_of(),
    {
        (self.0 / TONE_CNT) as i8 - OCTAVE_SHIFT as i8
    }
}

/// Why a text is not the spelling of a tone.
#[derive(Clone, Debug, PartialEq, Eq)]
pub enum ToneError {
    /// The text is empty.
    MissingToneName,
    /// The first character is no note letter.
    InvalidToneName(char),
    /// Text after the note letter that is no modifier; it holds that text up
    /// to a trailing octave number (an optional `-` and digits), or to the end
    /// where there is none.
    InvalidModifier(String),
    /// The octave is no number in the range of `i8`; it holds the octave text.
    InvalidOctave(String),
    /// The spelling names no MIDI note; it holds the whole text.
    OutOfRange(String),
}

/// What parsing a text yields, stated over plain values.
pub enum ParseOutcome {
    Note(int),
    MissingToneName,
    InvalidToneName(char),
    InvalidModifier(Seq<char>),
    InvalidOctave(Seq<char>),
    OutOfRange(Seq<char>),
}

/// The outcome that a parse result stands for.
pub open spec fn outcome_of(r: Result<Tone, ToneError>) -> ParseOutcome {
    match r {
        Ok(t) => ParseOutcome::Note(t.0 as int),
        Err(ToneError::MissingToneName) => ParseOutcome::MissingToneName,
        Err(ToneError::InvalidToneName(c)) => ParseOutcome::InvalidToneName(c),
        Err(ToneError::InvalidModifier(m)) => ParseOutcome::InvalidModifier(m@),
        Err(ToneError::InvalidOctave(o)) => ParseOutcome::InvalidOctave(o@),
        Err(ToneError::OutOfRange(s)) => ParseOutcome::OutOfRange(s@),
    }
}

/// Pitch class of a note letter, in either case; `b` and `h` name the same one.
pub open spec fn letter_value(c: char) -> Option<int> {
    if c == 'c' || c == 'C' {
        Some(0)
    } else if c == 'd' || c == 'D' {
        Some(2)
    } else if c == 'e' || c == 'E' {
        Some(4)
    } else if c == 'f' || c == 'F' {
        Some(5)
    } else if c == 'g' || c == 'G' {
        Some(7)
    } else if c == 'a' || c == 'A' {
        Some(9)
    } else if c == 'b' || c == 'B' || c == 'h' || c == 'H' {
        Some(11)
    } else {
        None
    }
}

/// Number of characters at the start of `s` that form a modifier:
/// `s`, `b` and `#`, or `es` and `is`. A lone `e` or `i` is no modifier.
pub open spec fn modifier_len(s: Seq<char>) -> int {
    if s.len() >= 1 && (s[0] == 's' || s[0] == 'b' || s[0] == '#') {
        1
    } else if s.len() >= 2 && (s[0] == 'e' || s[0] == 'i') && s[1] == 's' {
        2
    } else {
        0
    }
}

/// Semitones that the modifier at the start of `s` adds: -1 for a flat,
/// +1 for a sharp, 0 where there is none.
pub open spec fn modifier_delta(s: Seq<char>) -> int {
    if modifier_len(s) == 0 {
        0
    } else if s[0] == '#' || s[0] == 'i' {
        1
    } else {
        -1
    }
}

pub open spec fn is_digit(c: char) -> bool {
    '0' <= c && c <= '9'
}

pub open spec fn all_digits(s: Seq<char>) -> bool {
    forall|i: int| 0 <= i < s.len() ==> is_digit(#[trigger] s[i])
}

/// The number that a string of decimal digits spells.
pub open spec fn digits_value(s: Seq<char>) -> int
    decreases s.len(),
{
    if s.len() == 0 {
        0
    } else {
        digits_value(s.drop_last()) * 10 + (s.last() as int - '0' as int)
    }
}

/// Number of decimal digits at the end of `r`.
pub open spec fn trailing_digits(r: Seq<char>) -> int
    decreases r.len(),
{
    if r.len() > 0 && is_digit(r.last()) {
        1 + trailing_digits(r.drop_last())
    } else {
        0
    }
}

/// `r` without a trailing octave number: an optional `-` and one or more
/// digits at its end. All of `r` where it has no such ending.
pub open spec fn bad_modifier(r: Seq<char>) -> Seq<char> {
    let j = r.len() - trailing_digits(r);
    if trailing_digits(r) > 0 && j > 0 && r[j - 1] == '-' {
        r.take(j - 1)
    } else {
        r.take(j)
    }
}

/// `r` begins with an octave number: a digit, or `-` and a digit.
pub open spec fn starts_octave(r: Seq<char>) -> bool {
    r.len() >= 1 && (is_digit(r[0]) || (r[0] == '-' && r.len() >= 2 && is_digit(r[1])))
}

/// The digits of an octave text, without its sign.
pub open spec fn octave_digits(r: Seq<char>) -> Seq<char> {
    if r.len() >= 1 && r[0] == '-' {
        r.drop_first()
    } else {
        r
    }
}

/// The number an octave text spells.
pub open spec fn octave_value(r: Seq<char>) -> int {
    if r.len() >= 1 && r[0] == '-' {
        -digits_value(r.drop_first())
    } else {
        digits_value(r)
    }
}

/// `r` is an optional `-` and one or more digits, with a value that fits `i8`.
pub open spec fn octave_text_ok(r: Seq<char>) -> bool {
    octave_digits(r).len() > 0 && all_digits(octave_digits(r)) && i8::MIN <= octave_value(r)
        <= i8::MAX
}

/// The tone of a letter, a modifier and an octave, if it is a MIDI note.
/// `text` is the whole spelling.
pub open spec fn combine(base: int, delta: int, octave: int, text: Seq<char>) -> ParseOutcome {
    let n = note_of(base, octave) + delta;
    if octave + OCTAVE_SHIFT as int >= 0 && 0 <= n <= MAX_NOTE as int {
        ParseOutcome::Note(n)
    } else {
        ParseOutcome::OutOfRange(text)
    }
}

/// What the spelling `s` denotes: a note letter, an optional modifier, and an
/// optional octave that is 4 where it is missing (a lone `-` counts as missing).
pub open spec fn parse_outcome(s: Seq<char>) -> ParseOutcome {
    if s.len() == 0 {
        ParseOutcome::MissingToneName
    } else if letter_value(s[0]) is None {
        ParseOutcome::InvalidToneName(s[0])
    } else {
        let base = letter_value(s[0])->0;
        let rest = s.drop_first();
        let delta = modifier_delta(rest);
        let r = rest.skip(modifier_len(rest));
        if r.len() == 0 || r =~= seq!['-'] {
            combine(base, delta, 4, s)
        } else if !starts_octave(r) {
            ParseOutcome::InvalidModifier(bad_modifier(r))
        } else if !octave_text_ok(r) {
            ParseOutcome::InvalidOctave(r)
        } else {
            combine(base, delta, octave_value(r), s)
        }
    }
}

fn letter_of(c: char) -> (r: Option<u8>)
    ensures
        r matches Some(v) ==> letter_value(c) == Some(v as int),
        r is None ==> letter_value(c) is None,
{
    if c == 'c' || c == 'C' {
        Some(0)
    } else if c == 'd' || c == 'D' {
        Some(2)
    } else if c == 'e' || c == 'E' {
        Some(4)
    } else if c == 'f' || c == 'F' {
        Some(5)
    } else if c == 'g' || c == 'G' {
        Some(7)
    } else if c == 'a' || c == 'A' {
        Some(9)
    } else if c == 'b' || c == 'B' || c == 'h' || c == 'H' {
        Some(11)
    } else {
        None
    }
}

/// The text of `r` that is reported as no modifier: `r` without a trailing
/// octave number.
fn modifier_text(r: &str) -> (t: String)
    ensures
        t@ == bad_modifier(r@),
{
    let n = r.unicode_len();
    let mut j: usize = n;
    assert(r@.take(n as int) =~= r@);
    while j > 0 && '0' <= r.get_char(j - 1) && r.get_char(j - 1) <= '9'
        invariant
            j <= n,
            n == r@.len(),
            trailing_digits(r@) == trailing_digits(r@.take(j as int)) + (n - j),
        decreases j,
    {
        assert(r@.take(j as int).drop_last() =~= r@.take(j - 1));
        j = j - 1;
    }
    assert(trailing_digits(r@.take(j as int)) == 0);
    let end: usize = if j < n && j > 0 && r.get_char(j - 1) == '-' {
        j - 1
    } else {
        j
    };
    r.substring_char(0, end).to_owned()
}

/// Reads an octave number: an optional `-` and decimal digits, up to the end
/// of `r`. `None` where `r` is no such number or it does not fit `i8`.
pub fn parse_octave(r: &str) -> (o: Option<i8>)
    ensures
        o is Some <==> octave_text_ok(r@),
        o matches Some(v) ==> v == octave_value(r@),
{
    let n = r.unicode_len();
    if n == 0 {
        return None;
    }
    let neg = r.get_char(0) == '-';
    let start: usize = if neg { 1 } else { 0 };
    if start == n {
        return None;
    }
    let ghost d = octave_digits(r@);
    assert(d =~= r@.subrange(start as int, n as int));
    // `val` saturates at 1000, far above any value that fits `i8`.
    let mut val: u16 = 0;
    let mut i: usize = start;
    while i < n
        invariant
            start <= i <= n,
            n == r@.len(),
            d =~= r@.subrange(start as int, n as int),
            d == octave_digits(r@),
            all_digits(r@.subrange(start as int, i as int)),
            val as int == if digits_value(r@.subrange(start as int, i as int)) < 1000 {
                digits_value(r@.subrange(start as int, i as int))
            } else {
                1000
            },
            digits_value(r@.subrange(start as int, i as int)) >= 0,
        decreases n - i,
    {
        let c = r.get_char(i);
        if !('0' <= c && c <= '9') {
            assert(!is_digit(d[i - start]));
            return None;
        }
        let ghost prev = r@.subrange(start as int, i as int);
        let ghost next = r@.subrange(start as int, i + 1);
        assert(next.drop_last() =~= prev);
        let dv: u16 = (c as u32 - '0' as u32) as u16;
        assert(digits_value(next) == digits_value(prev) * 10 + dv);
        if val < 1000 {
            let t: u16 = val * 10 + dv;
            val = if t > 1000 { 1000 } else { t };
        } else {
            assert(digits_value(next) >= 1000) by (nonlinear_arith)
                requires digits_value(prev) >= 1000, dv >= 0,
                    digits_value(next) == digits_value(prev) * 10 + dv;
        }
        i = i + 1;
    }
    if neg {
        if val <= 128 {
            Some((0 - val as i16) as i8)
        } else {
            None
        }
    } else {
        if val <= 127 {
            Some(val as i8)
        } else {
            None
        }
    }
}

impl Tone {
    /// Reads the spelling of a tone: a note letter (`c d e f g a h`, or `b`
    /// for `h`, in either case), an optional modifier (`#` or `is` raises a
    /// semitone, `s`, `es` or `b` lowers one), and an optional octave that is
    /// 4 where it is missing. `c4` is note 72.
    pub fn parse(s: &str) -> (r: Result<Tone, ToneError>)
        ensures
            outcome_of(r) == parse_outcome(s@),
            r matches Ok(t) ==> t.wf(),
    {
        let n = s.unicode_len();
        if n == 0 {
            return Err(ToneError::MissingToneName);
        }
        let c = s.get_char(0);
        let base = match letter_of(c) {
            Some(b) => b,
            None => return Err(ToneError::InvalidToneName(c)),
        };
        let ghost rest = s@.drop_first();
        let mut mlen: usize = 0;
        let mut delta: i8 = 0;
        if n >= 2 {
            let c1 = s.get_char(1);
            if c1 == 's' || c1 == 'b' {
                mlen = 1;
                delta = -1;
            } else if c1 == '#' {
                mlen = 1;
                delta = 1;
            } else if n >= 3 && (c1 == 'e' || c1 == 'i') && s.get_char(2) == 's' {
                mlen = 2;
                delta = if c1 == 'e' { -1 } else { 1 };
            }
        }
        assert(mlen == modifier_len(rest) && delta == modifier_delta(rest));
        let at = 1 + mlen;
        let r = s.substring_char(at, n);
        assert(r@ =~= rest.skip(modifier_len(rest)));
        let octave: i8 = if at == n || (at + 1 == n && s.get_char(at) == '-') {
            assert(r@.len() == 0 || r@ =~= seq!['-']);
            4
        } else {
            let c2 = s.get_char(at);
            let digit_at = |k: usize| -> (b: bool)
                requires k < n,
                ensures b == is_digit(s@[k as int]),
                { let ck = s.get_char(k); '0' <= ck && ck <= '9' };
            if !(digit_at(at) || (c2 == '-' && at + 1 < n && digit_at(at + 1))) {
                return Err(ToneError::InvalidModifier(modifier_text(r)));
            }
            match parse_octave(r) {
                Some(o) => o,
                None => return Err(ToneError::InvalidOctave(r.to_owned())),
            }
        };
        let out_of_range = ToneError::OutOfRange(s.to_owned());
        let shifted = match OCTAVE_SHIFT.checked_add_signed(octave) {
            Some(v) => v,
            None => return Err(out_of_range),
        };
        let scaled = match TONE_CNT.checked_mul(shifted) {
            Some(v) => v,
            None => return Err(out_of_range),
        };
        let plain = match scaled.checked_add(base) {
            Some(v) => v,
            None => return Err(out_of_range),
        };
        let note = match plain.checked_add_signed(delta) {
            Some(v) => v,
            None => return Err(out_of_range),
        };
        if note > MAX_NOTE {
            return Err(out_of_range);
        }
        Ok(Tone(note))
    }
}

/// Canonical name of a pitch class: sharps only, and `h` rather than `b`.
pub open spec fn class_name(pc: int) -> Seq<char> {
    if pc == 0 {
        seq!['c']
    } else if pc == 1 {
        seq!['c', 'i', 's']
    } else if pc == 2 {
        seq!['d']
    } else if pc == 3 {
        seq!['d', 'i', 's']
    } else if pc == 4 {
        seq!['e']
    } else if pc == 5 {
        seq!['f']
    } else if pc == 6 {
        seq!['f', 'i', 's']
    } else if pc == 7 {
        seq!['g']
    } else if pc == 8 {
        seq!['g', 'i', 's']
    } else if pc == 9 {
        seq!['a']
    } else if pc == 10 {
        seq!['a', 'i', 's']
    } else {
        seq!['h']
    }
}

/// The decimal digit of `d` in `0..10`.
pub open spec fn digit_char(d: int) -> char {
    if d == 0 {
        '0'
    } else if d == 1 {
        '1'
    } else if d == 2 {
        '2'
    } else if d == 3 {
        '3'
    } else if d == 4 {
        '4'
    } else if d == 5 {
        '5'
    } else if d == 6 {
        '6'
    } else if d == 7 {
        '7'
    } else if d == 8 {
        '8'
    } else {
        '9'
    }
}

/// Decimal digits of `n`, without leading zeros.
pub open spec fn digits_text(n: nat) -> Seq<char>
    decreases n,
{
    if n < 10 {
        seq![digit_char(n as int)]
    } else {
        digits_text(n / 10) + seq![digit_char(n as int % 10)]
    }
}

/// Decimal text of `i`, with `-` in front of a negative number.
pub open spec fn int_text(i: int) -> Seq<char> {
    if i < 0 {
        seq!['-'] + digits_text((-i) as nat)
    } else {
        digits_text(i as nat)
    }
}

/// Canonical spelling of a tone: its class name, then its octave.
pub open spec fn tone_text(t: Tone) -> Seq<char> {
    class_name(t.pitch_class()) + int_text(t.octave_of())
}

fn class_text(pc: u8) -> (r: &'static str)
    ensures
        r@ == class_name(pc as int),
{
    if pc == 0 {
        proof { reveal_strlit("c"); }
        "c"
    } else if pc == 1 {
        proof { reveal_strlit("cis"); }
        "cis"
    } else if pc == 2 {
        proof { reveal_strlit("d"); }
        "d"
    } else if pc == 3 {
        proof { reveal_strlit("dis"); }
        "dis"
    } else if pc == 4 {
        proof { reveal_strlit("e"); }
        "e"
    } else if pc == 5 {
        proof { reveal_strlit("f"); }
        "f"
    } else if pc == 6 {
        proof { reveal_strlit("fis"); }
        "fis"
    } else if pc == 7 {
        proof { reveal_strlit("g"); }
        "g"
    } else if pc == 8 {
        proof { reveal_strlit("gis"); }
        "gis"
    } else if pc == 9 {
        proof { reveal_strlit("a"); }
        "a"
    } else if pc == 10 {
        proof { reveal_strlit("ais"); }
        "ais"
    } else {
        proof { reveal_strlit("h"); }
        "h"
    }
}

fn digit_text(d: u8) -> (r: &'static str)
    requires
        d < 10,
    ensures
        r@ == seq![digit_char(d as int)],
{
    if d == 0 {
        proof { reveal_strlit("0"); }
        "0"
    } else if d == 1 {
        proof { reveal_strlit("1"); }
        "1"
    } else if d == 2 {
        proof { reveal_strlit("2"); }
        "2"
    } else if d == 3 {
        proof { reveal_strlit("3"); }
        "3"
    } else if d == 4 {
        proof { reveal_strlit("4"); }
        "4"
    } else if d == 5 {
        proof { reveal_strlit("5"); }
        "5"
    } else if d == 6 {
        proof { reveal_strlit("6"); }
        "6"
    } else if d == 7 {
        proof { reveal_strlit("7"); }
        "7"
    } else if d == 8 {
        proof { reveal_strlit("8"); }
        "8"
    } else {
        proof { reveal_strlit("9"); }
        "9"
    }
}

impl Tone {
    /// Canonical spelling of the tone, such as `cis4`, `a-1` or `h3`.
    pub fn format(&self) -> (r: String)
        ensures
            r@ == tone_text(*self),
    {
        let mut r = String::new();
        r.append(class_text(self.tone()));
        let o = self.octave();
        let mag: u8 = if o < 0 {
            proof { reveal_strlit("-"); }
            r.append("-");
            (0 - o as i16) as u8
        } else {
            o as u8
        };
        assert(mag < 100);
        if mag >= 10 {
            r.append(digit_text(mag / 10));
            assert(digits_text((mag / 10) as nat) == seq![digit_char((mag / 10) as int)]);
        }
        r.append(digit_text(mag % 10));
        assert(r@ =~= tone_text(*self));
        r
    }
}

proof fn lemma_octave_text(o: int)
    requires
        -9 <= o <= 9,
    ensures
        int_text(o).len() >= 1,
        !(int_text(o) =~= seq!['-']),
        starts_octave(int_text(o)),
        octave_text_ok(int_text(o)),
        octave_value(int_text(o)) == o,
        int_text(o)[0] == '-' || is_digit(int_text(o)[0]),
{
    let m: int = if o < 0 { -o } else { o };
    let d = seq![digit_char(m)];
    assert(digits_text(m as nat) == d);
    assert(d.drop_last() =~= Seq::<char>::empty());
    assert(digit_char(m) as int == '0' as int + m);
    assert(digits_value(d.drop_last()) == 0);
    assert(digits_value(d) == m);
    if o < 0 {
        assert(int_text(o).drop_first() =~= d);
        assert(int_text(o)[1] == d[0]);
    }
    assert(octave_digits(int_text(o)) =~= d);
}

/// Reading the canonical spelling of a valid tone gives back the same tone.
pub proof fn lemma_parse_format(t: Tone)
    requires
        t.wf(),
    ensures
        parse_outcome(tone_text(t)) == ParseOutcome::Note(t.0 as int),
{
    let pc = t.pitch_class();
    let o = t.octave_of();
    let name = class_name(pc);
    let r = int_text(o);
    let s = tone_text(t);
    lemma_octave_text(o);
    assert(s =~= name + r);
    assert(s[0] == name[0]);
    let rest = s.drop_first();
    if name.len() == 3 {
        assert(rest =~= seq!['i', 's'] + r);
        assert(rest.skip(2) =~= r);
        assert(letter_value(s[0]) == Some(pc - 1));
    } else {
        assert(rest =~= r);
        assert(rest.skip(0) =~= r);
        assert(letter_value(s[0]) == Some(pc));
    }
    assert(t.0 as int == pc + (o + 2) * 12);
}

} // verus!
