//! Command-line options: which MIDI port to use and which tones to draw from.

use std::ops::Range;

use vstd::prelude::*;

use crate::text::same_text;
use crate::tone::{outcome_of, parse_outcome, ParseOutcome, Tone, ToneError};

verus! {

/// Note number of `c3`, where the default range starts.
pub const DEFAULT_START: u8 = 60;

/// Note number of `c4`, where the default range ends.
pub const DEFAULT_END: u8 = 72;

/// Options of a session.
#[derive(Debug)]
pub struct Args {
    /// Id of the MIDI port to play on; the last port where there is none.
    pub midi_port: Option<String>,
    /// The help text was asked for.
    pub helped: bool,
    /// Tones to draw from: the start is included, the end is not.
    pub tone_range: Range<Tone>,
}

/// Why the command line is refused.
#[derive(Clone, Debug, PartialEq, Eq)]
pub enum ArgsError {
    /// An argument that is no option.
    UnknownArgument(String),
    /// An option that needs a value is the last argument.
    MissingValue(String),
    /// A range without `..` between its ends.
    InvalidRange(String),
    /// An end of a range is no tone.
    InvalidTone(ToneError),
    /// A range whose start is not below its end.
    EmptyRange(Tone, Tone),
}

/// Options as plain values.
pub struct ArgsModel {
    pub midi_port: Option<Seq<char>>,
    pub helped: bool,
    pub start: u8,
    pub end: u8,
}

/// What reading a command line yields, stated over plain values.
pub enum ArgsOutcome {
    Done(ArgsModel),
    UnknownArgument(Seq<char>),
    MissingValue(Seq<char>),
    InvalidRange(Seq<char>),
    InvalidTone(ParseOutcome),
    EmptyRange(u8, u8),
}

impl Args {
    pub open spec fn model(self) -> ArgsModel {
        ArgsModel {
            midi_port: match self.midi_port {
                Some(p) => Some(p@),
                None => None,
            },
            helped: self.helped,
            start: self.tone_range.start.0,
            end: self.tone_range.end.0,
        }
    }
}

/// The outcome that a result of reading a command line stands for.
pub open spec fn args_outcome_of(r: Result<Args, ArgsError>) -> ArgsOutcome {
    match r {
        Ok(a) => ArgsOutcome::Done(a.model()),
        Err(ArgsError::UnknownArgument(a)) => ArgsOutcome::UnknownArgument(a@),
        Err(ArgsError::MissingValue(a)) => ArgsOutcome::MissingValue(a@),
        Err(ArgsError::InvalidRange(a)) => ArgsOutcome::InvalidRange(a@),
        Err(ArgsError::InvalidTone(e)) => ArgsOutcome::InvalidTone(outcome_of(Err(e))),
        Err(ArgsError::EmptyRange(s, e)) => ArgsOutcome::EmptyRange(s.0, e.0),
    }
}

/// The options before any argument is read: no port, no help, `c3..c4`.
pub open spec fn default_model() -> ArgsModel {
    ArgsModel { midi_port: None, helped: false, start: 60, end: 72 }
}

pub open spec fn is_help_flag(a: Seq<char>) -> bool {
    a == seq!['-', 'h'] || a == seq!['-', '?'] || a == seq!['-', '-', 'h', 'e', 'l', 'p']
}

pub open spec fn is_port_flag(a: Seq<char>) -> bool {
    a == seq!['-', 'p'] || a == seq!['-', '-', 'p', 'o', 'r', 't']
}

pub open spec fn is_range_flag(a: Seq<char>) -> bool {
    a == seq!['-', 'r'] || a == seq!['-', '-', 'r', 'a', 'n', 'g', 'e']
}

/// Index of the first `..` in `t` at or after `k`, or -1 where there is none.
pub open spec fn separator_from(t: Seq<char>, k: int) -> int
    decreases t.len() - k,
{
    if k < 0 || k + 1 >= t.len() {
        -1
    } else if t[k] == '.' && t[k + 1] == '.' {
        k
    } else {
        separator_from(t, k + 1)
    }
}

/// What a range text `start..end` denotes: the two notes, or why it is none.
pub open spec fn range_outcome(t: Seq<char>) -> ArgsOutcome {
    let k = separator_from(t, 0);
    if k < 0 {
        ArgsOutcome::InvalidRange(t)
    } else {
        let a = parse_outcome(t.subrange(0, k));
        let b = parse_outcome(t.subrange(k + 2, t.len() as int));
        match (a, b) {
            (ParseOutcome::Note(s), ParseOutcome::Note(e)) => if s < e {
                ArgsOutcome::Done(ArgsModel { midi_port: None, helped: false, start: s as u8, end: e as u8 })
            } else {
                ArgsOutcome::EmptyRange(s as u8, e as u8)
            },
            (ParseOutcome::Note(_), _) => ArgsOutcome::InvalidTone(b),
            _ => ArgsOutcome::InvalidTone(a),
        }
    }
}

/// What the arguments from index `i` on make of the options `m`.
pub open spec fn scan(args: Seq<Seq<char>>, i: int, m: ArgsModel) -> ArgsOutcome
    decreases args.len() - i,
{
    if i < 0 || i >= args.len() {
        ArgsOutcome::Done(m)
    } else if is_help_flag(args[i]) {
        scan(args, i + 1, ArgsModel { helped: true, ..m })
    } else if is_port_flag(args[i]) {
        if i + 1 >= args.len() {
            ArgsOutcome::MissingValue(args[i])
        } else {
            scan(args, i + 2, ArgsModel { midi_port: Some(args[i + 1]), ..m })
        }
    } else if is_range_flag(args[i]) {
        if i + 1 >= args.len() {
            ArgsOutcome::MissingValue(args[i])
        } else {
            match range_outcome(args[i + 1]) {
                ArgsOutcome::Done(r) => scan(
                    args,
                    i + 2,
                    ArgsModel { start: r.start, end: r.end, ..m },
                ),
                other => other,
            }
        }
    } else {
        ArgsOutcome::UnknownArgument(args[i])
    }
}

/// The characters of each argument.
pub open spec fn texts(args: Seq<String>) -> Seq<Seq<char>> {
    args.map_values(|a: String| a@)
}

/// Reads a range `start..end` of two tone spellings.
pub fn parse_range(t: &str) -> (r: Result<Range<Tone>, ArgsError>)
    ensures
        match r {
            Ok(range) => range_outcome(t@) == ArgsOutcome::Done(
                ArgsModel { midi_port: None, helped: false, start: range.start.0, end: range.end.0 },
            ),
            Err(e) => range_outcome(t@) == args_outcome_of(Err(e)),
        },
{
    let n = t.unicode_len();
    let mut k: usize = 0;
    while k < n && !(k + 1 < n && t.get_char(k) == '.' && t.get_char(k + 1) == '.')
        invariant
            k <= n,
            n == t@.len(),
            separator_from(t@, 0) == separator_from(t@, k as int),
        decreases n - k,
    {
        k = k + 1;
    }
    if k >= n || k + 1 == n {
        return Err(ArgsError::InvalidRange(t.to_owned()));
    }
    let start = match Tone::parse(t.substring_char(0, k)) {
        Ok(s) => s,
        Err(e) => return Err(ArgsError::InvalidTone(e)),
    };
    let end = match Tone::parse(t.substring_char(k + 2, n)) {
        Ok(s) => s,
        Err(e) => return Err(ArgsError::InvalidTone(e)),
    };
    if start.0 >= end.0 {
        return Err(ArgsError::EmptyRange(start, end));
    }
    Ok(start..end)
}


fn help_flag(a: &str) -> (r: bool)
    ensures
        r == is_help_flag(a@),
{
    proof {
        reveal_strlit("-h");
        reveal_strlit("-?");
        reveal_strlit("--help");
        assert("-h"@ =~= seq!['-', 'h']);
        assert("-?"@ =~= seq!['-', '?']);
        assert("--help"@ =~= seq!['-', '-', 'h', 'e', 'l', 'p']);
    }
    same_text(a, "-h") || same_text(a, "-?") || same_text(a, "--help")
}

fn port_flag(a: &str) -> (r: bool)
    ensures
        r == is_port_flag(a@),
{
    proof {
        reveal_strlit("-p");
        reveal_strlit("--port");
        assert("-p"@ =~= seq!['-', 'p']);
        assert("--port"@ =~= seq!['-', '-', 'p', 'o', 'r', 't']);
    }
    same_text(a, "-p") || same_text(a, "--port")
}

fn range_flag(a: &str) -> (r: bool)
    ensures
        r == is_range_flag(a@),
{
    proof {
        reveal_strlit("-r");
        reveal_strlit("--range");
        assert("-r"@ =~= seq!['-', 'r']);
        assert("--range"@ =~= seq!['-', '-', 'r', 'a', 'n', 'g', 'e']);
    }
    same_text(a, "-r") || same_text(a, "--range")
}

impl Default for Args {
    /// No port, no help, and the tones from `c3` up to `c4`.
    fn default() -> (r: Self)
        ensures
            r.model() == default_model(),
    {
        Args { midi_port: None, helped: false, tone_range: Tone(DEFAULT_START)..Tone(DEFAULT_END) }
    }
}

impl Args {
    /// Reads the options from the command-line arguments `args` (without the
    /// program name): `-h`, `-?` or `--help` asks for help, `-p` or `--port`
    /// takes the id of a MIDI port, and `-r` or `--range` takes a range
    /// `start..end` of tones whose start is below its end.
    pub fn parse(args: &Vec<String>) -> (r: Result<Args, ArgsError>)
        ensures
            args_outcome_of(r) == scan(texts(args@), 0, default_model()),
    {
        let ghost all = texts(args@);
        let mut res = Args::default();
        let n = args.len();
        let mut i: usize = 0;
        while i < n
            invariant
                i <= n,
                n == args@.len(),
                all == texts(args@),
                scan(all, 0, default_model()) == scan(all, i as int, res.model()),
            decreases n - i,
        {
            let a = args[i].as_str();
            assert(all[i as int] == a@);
            if help_flag(a) {
                res.helped = true;
                i = i + 1;
            } else if port_flag(a) {
                if i + 1 >= n {
                    return Err(ArgsError::MissingValue(args[i].clone()));
                }
                assert(all[i + 1] == args@[i + 1]@);
                res.midi_port = Some(args[i + 1].clone());
                i = i + 2;
            } else if range_flag(a) {
                if i + 1 >= n {
                    return Err(ArgsError::MissingValue(args[i].clone()));
                }
                assert(all[i + 1] == args@[i + 1]@);
                match parse_range(args[i + 1].as_str()) {
                    Ok(range) => {
                        res.tone_range = range;
                    },
                    Err(e) => {
                        return Err(e);
                    },
                }
                i = i + 2;
            } else {
                return Err(ArgsError::UnknownArgument(args[i].clone()));
            }
        }
        Ok(res)
    }

    /// Whether a session is to be played: not where only help was asked for.
    pub fn run(&self) -> (r: bool)
        ensures
            r == (!self.helped || self.midi_port is Some),
    {
        !self.helped || self.midi_port.is_some()
    }
}

} // verus!
