//! Songs: notes with a duration, and the text format they are written in.
//!
//! A song file is plain text with one note per line and the fields of a line
//! separated by single spaces:
//!
//! ```text
//! S <duration_ms>
//! <NOTE> <octave> <duration_ms>
//! ```
//!
//! `<NOTE>` is one of `A Af B C Cs D Ds E F Fs G`, `<octave>` a signed and
//! `<duration_ms>` an unsigned decimal literal. Fields after the last one
//! that a line needs are ignored. Lines end in `\n` or `\r\n`; the last line
//! need not be terminated.

use crate::decimal::{i32_of, parse_i32, parse_u64, u64_of};
use crate::octave;
use crate::octave::{freq_of, Frequency};
use vstd::prelude::*;
use vstd::slice::slice_subrange;

verus! {

pub const NEWLINE: u8 = 10;

pub const RETURN: u8 = 13;

pub const SPACE: u8 = 32;

/// One entry of a song: a frequency to sound, or silence, for a duration in
/// milliseconds.
#[derive(Clone, Copy, Debug, PartialEq, Eq)]
pub struct Note {
    pub freq: Option<Frequency>,
    pub duration: u64,
}

impl Note {
    pub fn new(freq: Option<Frequency>, duration: u64) -> (n: Note)
        ensures
            n == (Note { freq, duration }),
    {
        Note { freq, duration }
    }

    /// A sounding note: `freq` of the scale in `octave`.
    pub fn some(freq: octave::Note, octave: i32, duration: u64) -> (n: Note)
        ensures
            n == (Note { freq: Some(freq_of(freq, octave)), duration }),
    {
        Note::new(Some(octave::freq(freq, octave)), duration)
    }

    /// A rest.
    pub fn silence(duration: u64) -> (n: Note)
        ensures
            n == (Note { freq: None, duration }),
    {
        Note::new(None, duration)
    }
}

/// What the first field of a line asks for.
#[derive(Clone, Copy, Debug, PartialEq, Eq)]
pub enum Symbol {
    Rest,
    Tone(octave::Note),
}

/// Why a line is not a note.
#[derive(Clone, Copy, Debug, PartialEq, Eq)]
pub enum ParseErrorKind {
    /// The first field is none of the note symbols, nor `S`.
    UnknownNote,
    /// A sounding note has no second field.
    MissingOctave,
    /// The octave is not a signed decimal literal that fits an `i32`.
    InvalidOctave,
    /// The line ends before its duration.
    MissingDuration,
    /// The duration is not an unsigned decimal literal that fits a `u64`.
    InvalidDuration,
}

/// The first line of a text that is not a note, counted from zero, and why.
#[derive(Clone, Copy, Debug, PartialEq, Eq)]
pub struct ParseError {
    pub line: usize,
    pub kind: ParseErrorKind,
}

/// The index of the first `b` in `s`, or the length of `s` if there is none.
pub open spec fn find(s: Seq<u8>, b: u8) -> nat
    decreases s.len(),
{
    if s.len() == 0 || s[0] == b {
        0
    } else {
        1 + find(s.skip(1), b)
    }
}

/// The fields of a line: the pieces between its spaces. Two spaces in a row
/// enclose an empty field, and a line without a space is one field.
pub open spec fn fields(line: Seq<u8>) -> Seq<Seq<u8>>
    decreases line.len(),
{
    let i = find(line, SPACE);
    if i >= line.len() {
        seq![line]
    } else {
        seq![line.take(i as int)] + fields(line.skip(i as int + 1))
    }
}

/// A line without the carriage return that may stand before its line feed.
pub open spec fn strip_return(line: Seq<u8>) -> Seq<u8> {
    if line.len() > 0 && line.last() == RETURN {
        line.drop_last()
    } else {
        line
    }
}

/// The lines of a text. Each line feed ends a line, and a carriage return
/// right before it belongs to the line ending. What follows the last line
/// feed is a line of its own unless it is empty.
pub open spec fn lines(text: Seq<u8>) -> Seq<Seq<u8>>
    decreases text.len(),
{
    if text.len() == 0 {
        Seq::empty()
    } else {
        let i = find(text, NEWLINE);
        if i >= text.len() {
            seq![text]
        } else {
            seq![strip_return(text.take(i as int))] + lines(text.skip(i as int + 1))
        }
    }
}

/// The meaning of a line's first field.
pub open spec fn symbol_of(token: Seq<u8>) -> Option<Symbol> {
    if token == seq![83u8] {
        Some(Symbol::Rest)
    } else if token == seq![65u8] {
        Some(Symbol::Tone(octave::A))
    } else if token == seq![65u8, 102u8] {
        Some(Symbol::Tone(octave::A_FLAT))
    } else if token == seq![66u8] {
        Some(Symbol::Tone(octave::B))
    } else if token == seq![67u8] {
        Some(Symbol::Tone(octave::C))
    } else if token == seq![67u8, 115u8] {
        Some(Symbol::Tone(octave::C_SHARP))
    } else if token == seq![68u8] {
        Some(Symbol::Tone(octave::D))
    } else if token == seq![68u8, 115u8] {
        Some(Symbol::Tone(octave::D_SHARP))
    } else if token == seq![69u8] {
        Some(Symbol::Tone(octave::E))
    } else if token == seq![70u8] {
        Some(Symbol::Tone(octave::F))
    } else if token == seq![70u8, 115u8] {
        Some(Symbol::Tone(octave::F_SHARP))
    } else if token == seq![71u8] {
        Some(Symbol::Tone(octave::G))
    } else {
        None
    }
}

/// The duration in field `at` of a line's fields.
pub open spec fn duration_of(f: Seq<Seq<u8>>, at: int) -> Result<u64, ParseErrorKind> {
    if f.len() <= at {
        Err(ParseErrorKind::MissingDuration)
    } else {
        match u64_of(f[at]) {
            Some(d) => Ok(d),
            None => Err(ParseErrorKind::InvalidDuration),
        }
    }
}

/// The octave in the second field of a line's fields.
pub open spec fn octave_of(f: Seq<Seq<u8>>) -> Result<i32, ParseErrorKind> {
    if f.len() <= 1 {
        Err(ParseErrorKind::MissingOctave)
    } else {
        match i32_of(f[1]) {
            Some(o) => Ok(o),
            None => Err(ParseErrorKind::InvalidOctave),
        }
    }
}

/// The note that a line denotes, or the first thing wrong with it, reading
/// from the left.
pub open spec fn line_note(line: Seq<u8>) -> Result<Note, ParseErrorKind> {
    let f = fields(line);
    match symbol_of(f[0]) {
        None => Err(ParseErrorKind::UnknownNote),
        Some(Symbol::Rest) => match duration_of(f, 1) {
            Ok(duration) => Ok(Note { freq: None, duration }),
            Err(kind) => Err(kind),
        },
        Some(Symbol::Tone(note)) => match octave_of(f) {
            Ok(octave) => match duration_of(f, 2) {
                Ok(duration) => Ok(Note { freq: Some(freq_of(note, octave)), duration }),
                Err(kind) => Err(kind),
            },
            Err(kind) => Err(kind),
        },
    }
}

/// Whether `notes` are what the lines `ls` denote, one note for each line.
pub open spec fn all_notes(ls: Seq<Seq<u8>>, notes: Seq<Note>) -> bool {
    &&& notes.len() == ls.len()
    &&& forall|i: int| 0 <= i < ls.len() ==> line_note(#[trigger] ls[i]) == Ok::<Note, ParseErrorKind>(notes[i])
}

/// Whether `e` names the first of the lines `ls` that is not a note.
pub open spec fn first_error(ls: Seq<Seq<u8>>, e: ParseError) -> bool {
    &&& e.line < ls.len()
    &&& line_note(ls[e.line as int]) == Err::<Note, ParseErrorKind>(e.kind)
    &&& forall|j: int| 0 <= j < e.line ==> line_note(#[trigger] ls[j]) is Ok
}

/// `find` is the one index before which no `b` stands and at which one does.
pub proof fn lemma_find(s: Seq<u8>, b: u8, k: int)
    requires
        0 <= k <= s.len(),
        forall|j: int| 0 <= j < k ==> s[j] != b,
        k == s.len() || s[k] == b,
    ensures
        find(s, b) == k,
    decreases k,
{
    if k > 0 {
        let t = s.skip(1);
        assert forall|j: int| 0 <= j < k - 1 implies t[j] != b by {
            assert(t[j] == s[j + 1]);
        }
        lemma_find(t, b, k - 1);
    }
}

/// The index of the first `b` in `s` at or after `from`, or the length of `s`
/// if there is none.
fn find_from(s: &[u8], from: usize, b: u8) -> (r: usize)
    requires
        from <= s@.len(),
    ensures
        from <= r <= s@.len(),
        r - from == find(s@.skip(from as int), b),
{
    let mut i: usize = from;
    while i < s.len() && s[i] != b
        invariant
            from <= i <= s@.len(),
            forall|j: int| from <= j < i ==> s@[j] != b,
        decreases s@.len() - i,
    {
        i = i + 1;
    }
    proof {
        lemma_find(s@.skip(from as int), b, i - from);
    }
    i
}

/// Reads the field that starts at `from`, and says where it ends.
fn field_at(line: &[u8], from: usize) -> (r: (&[u8], usize))
    requires
        from <= line@.len(),
    ensures
        from <= r.1 <= line@.len(),
        r.0@ == fields(line@.skip(from as int))[0],
        r.1 == line@.len() ==> fields(line@.skip(from as int)).len() == 1,
        r.1 < line@.len() ==> fields(line@.skip(from as int)) == seq![r.0@] + fields(
            line@.skip(r.1 + 1),
        ),
{
    let end: usize = find_from(line, from, SPACE);
    let field = slice_subrange(line, from, end);
    proof {
        let rest = line@.skip(from as int);
        assert(rest.take(end - from) =~= line@.subrange(from as int, end as int));
        if end == line@.len() {
            assert(field@ =~= rest);
        } else {
            assert(rest.skip(end - from + 1) =~= line@.skip(end + 1));
        }
    }
    (field, end)
}

/// Reads the first field of a line.
fn symbol(token: &[u8]) -> (r: Option<Symbol>)
    ensures
        r == symbol_of(token@),
{
    let n: usize = token.len();
    if n == 1 {
        let c: u8 = token[0];
        assert(token@ =~= seq![c]);
        if c == 83 {
            Some(Symbol::Rest)
        } else if c == 65 {
            Some(Symbol::Tone(octave::A))
        } else if c == 66 {
            Some(Symbol::Tone(octave::B))
        } else if c == 67 {
            Some(Symbol::Tone(octave::C))
        } else if c == 68 {
            Some(Symbol::Tone(octave::D))
        } else if c == 69 {
            Some(Symbol::Tone(octave::E))
        } else if c == 70 {
            Some(Symbol::Tone(octave::F))
        } else if c == 71 {
            Some(Symbol::Tone(octave::G))
        } else {
            None
        }
    } else if n == 2 {
        let c: u8 = token[0];
        let d: u8 = token[1];
        assert(token@ =~= seq![c, d]);
        if c == 65 && d == 102 {
            Some(Symbol::Tone(octave::A_FLAT))
        } else if c == 67 && d == 115 {
            Some(Symbol::Tone(octave::C_SHARP))
        } else if c == 68 && d == 115 {
            Some(Symbol::Tone(octave::D_SHARP))
        } else if c == 70 && d == 115 {
            Some(Symbol::Tone(octave::F_SHARP))
        } else {
            None
        }
    } else {
        None
    }
}

/// Parses one line of a song, without its line ending.
///
/// Returns the note exactly when the line follows the grammar, and else the
/// first thing wrong with it, reading from the left.
pub fn parse_line(line: &[u8]) -> (r: Result<Note, ParseErrorKind>)
    ensures
        r == line_note(line@),
{
    assert(line@.skip(0) =~= line@);
    let (head, end0) = field_at(line, 0);
    let what = match symbol(head) {
        Some(s) => s,
        None => {
            return Err(ParseErrorKind::UnknownNote);
        },
    };
    match what {
        Symbol::Rest => {
            if end0 == line.len() {
                return Err(ParseErrorKind::MissingDuration);
            }
            let (field1, _end1) = field_at(line, end0 + 1);
            match parse_u64(field1) {
                Some(duration) => Ok(Note::silence(duration)),
                None => Err(ParseErrorKind::InvalidDuration),
            }
        },
        Symbol::Tone(note) => {
            if end0 == line.len() {
                return Err(ParseErrorKind::MissingOctave);
            }
            let (field1, end1) = field_at(line, end0 + 1);
            let octave = match parse_i32(field1) {
                Some(o) => o,
                None => {
                    return Err(ParseErrorKind::InvalidOctave);
                },
            };
            if end1 == line.len() {
                return Err(ParseErrorKind::MissingDuration);
            }
            let (field2, _end2) = field_at(line, end1 + 1);
            match parse_u64(field2) {
                Some(duration) => Ok(Note::some(note, octave, duration)),
                None => Err(ParseErrorKind::InvalidDuration),
            }
        },
    }
}

/// Parses the text of a song.
///
/// Returns the notes in the order of their lines exactly when every line is
/// a note. Otherwise the error names the first line that is not, and no note
/// is handed out at all.
pub fn song(text: &[u8]) -> (r: Result<Vec<Note>, ParseError>)
    ensures
        match r {
            Ok(notes) => all_notes(lines(text@), notes@),
            Err(e) => first_error(lines(text@), e),
        },
{
    let mut notes: Vec<Note> = Vec::new();
    let mut pos: usize = 0;
    let ghost mut done: Seq<Seq<u8>> = Seq::empty();
    assert(text@.skip(0) =~= text@);
    while pos < text.len()
        invariant
            pos <= text@.len(),
            lines(text@) == done + lines(text@.skip(pos as int)),
            all_notes(done, notes@),
        decreases text@.len() - pos,
    {
        let ghost rest = text@.skip(pos as int);
        let end: usize = find_from(text, pos, NEWLINE);
        let terminated: bool = end < text.len();
        let stop: usize = if terminated && end > pos && text[end - 1] == RETURN {
            (end - 1) as usize
        } else {
            end
        };
        let line = slice_subrange(text, pos, stop);
        let next: usize = if terminated {
            end + 1
        } else {
            end
        };
        proof {
            assert(rest.take(end - pos) =~= text@.subrange(pos as int, end as int));
            if terminated {
                assert(rest.skip(end - pos + 1) =~= text@.skip(next as int));
                assert(line@ =~= strip_return(rest.take(end - pos)));
            } else {
                assert(line@ =~= rest);
                assert(text@.skip(next as int) =~= Seq::<u8>::empty());
            }
            assert(lines(rest) =~= seq![line@] + lines(text@.skip(next as int)));
            assert(lines(text@) =~= done.push(line@) + lines(text@.skip(next as int)));
            assert(lines(text@)[done.len() as int] == line@);
        }
        match parse_line(line) {
            Ok(note) => {
                notes.push(note);
            },
            Err(kind) => {
                let e = ParseError { line: notes.len(), kind };
                assert(first_error(lines(text@), e)) by {
                    assert forall|j: int| 0 <= j < e.line implies line_note(
                        #[trigger] lines(text@)[j],
                    ) is Ok by {
                        assert(lines(text@)[j] == done[j]);
                    }
                }
                return Err(e);
            },
        }
        proof {
            done = done.push(line@);
        }
        pos = next;
    }
    assert(lines(text@) =~= done);
    Ok(notes)
}

} // verus!
