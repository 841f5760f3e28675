//! Decisions of a guessing session: what a line typed by the player asks
//! for, whether a guess is right, and which tone comes next.

use std::ops::Range;

use rand::Rng;
use vstd::prelude::*;

use crate::text::same_text;
use crate::tone::{outcome_of, parse_outcome, ParseOutcome, Tone, ToneError, TONE_CNT};

verus! {

/// What the session does after the player typed a line.
#[derive(Clone, Debug, PartialEq, Eq)]
pub enum Reply {
    /// End the session.
    Quit,
    /// Show the help text.
    Help,
    /// Play the current tone again.
    Replay,
    /// The line is no tone; show why.
    Unreadable(ToneError),
    /// The guess names the current tone.
    Success,
    /// The guess is wrong: the tone that sounded, then the guess.
    Failure(Tone, Tone),
}

pub open spec fn is_quit(line: Seq<char>) -> bool {
    line == seq!['q'] || line == seq!['q', 'u', 'i', 't']
}

pub open spec fn is_help(line: Seq<char>) -> bool {
    line == seq!['?'] || line == seq!['h', 'e', 'l', 'p']
}

/// Whether guessing over `range` must name the octave too: only where the
/// range spans more than an octave.
pub open spec fn octave_counts(range: Range<Tone>) -> bool {
    range.end.0 as int - range.start.0 as int > TONE_CNT as int
}

/// Whether `guess` is right for `target`: the same note where the octave
/// counts, else the same pitch class.
pub open spec fn guess_is_right(guess: Tone, target: Tone, octave_check: bool) -> bool {
    if octave_check {
        guess.0 == target.0
    } else {
        guess.pitch_class() == target.pitch_class()
    }
}

/// Whether guessing over `range` must name the octave too.
pub fn octave_matters(range: &Range<Tone>) -> (r: bool)
    ensures
        r == octave_counts(*range),
{
    range.end.0 > range.start.0 && range.end.0 - range.start.0 > TONE_CNT
}

/// Whether `guess` is right for `target`. Tones are compared by note number,
/// not by spelling.
pub fn guess_matches(guess: Tone, target: Tone, octave_check: bool) -> (r: bool)
    ensures
        r == guess_is_right(guess, target, octave_check),
{
    if octave_check {
        guess.0 == target.0
    } else {
        guess.tone() == target.tone()
    }
}

/// What the session does with the line `line` while `target` sounds.
pub fn judge(line: &str, target: Tone, octave_check: bool) -> (r: Reply)
    ensures
        is_quit(line@) ==> r == Reply::Quit,
        is_help(line@) ==> r == Reply::Help,
        line@.len() == 0 ==> r == Reply::Replay,
        !is_quit(line@) && !is_help(line@) && line@.len() > 0 ==> match r {
            Reply::Success => exists|g: Tone|
                parse_outcome(line@) == ParseOutcome::Note(g.0 as int)
                    && guess_is_right(g, target, octave_check),
            Reply::Failure(t, g) => t == target && parse_outcome(line@) == ParseOutcome::Note(
                g.0 as int,
            ) && !guess_is_right(g, target, octave_check),
            Reply::Unreadable(e) => outcome_of(Err(e)) == parse_outcome(line@),
            _ => false,
        },
{
    proof {
        reveal_strlit("q");
        reveal_strlit("quit");
        reveal_strlit("?");
        reveal_strlit("help");
        assert("q"@ =~= seq!['q']);
        assert("quit"@ =~= seq!['q', 'u', 'i', 't']);
        assert("?"@ =~= seq!['?']);
        assert("help"@ =~= seq!['h', 'e', 'l', 'p']);
    }
    if same_text(line, "q") || same_text(line, "quit") {
        return Reply::Quit;
    }
    if same_text(line, "?") || same_text(line, "help") {
        return Reply::Help;
    }
    if line.unicode_len() == 0 {
        return Reply::Replay;
    }
    match Tone::parse(line) {
        Ok(g) => {
            if guess_matches(g, target, octave_check) {
                Reply::Success
            } else {
                Reply::Failure(target, g)
            }
        },
        Err(e) => Reply::Unreadable(e),
    }
}

/// Relies on rand::Rng::random_range, called on the thread-local generator
/// of rand::rng: a value in `lo..hi`, which must not be empty.
#[verifier::external_body]
fn random_in(lo: u8, hi: u8) -> (r: u8)
    requires
        lo < hi,
    ensures
        lo <= r < hi,
{
    rand::rng().random_range(lo..hi)
}

/// A tone drawn at random from `range`, which must not be empty.
pub fn pick_tone(range: &Range<Tone>) -> (r: Tone)
    requires
        range.start.0 < range.end.0,
    ensures
        range.start.0 <= r.0 < range.end.0,
{
    Tone(random_in(range.start.0, range.end.0))
}

} // verus!
