//! The note sequencer.
//!
//! A [`Sequencer`] walks a song strictly in order. Each step applies one note
//! to the synth, in a single call, and hands back the time to wait before the
//! next step. Waiting is left to the caller, so the sequencer itself never
//! sleeps: between two steps it is idle, and after the last note it stays
//! idle for good and leaves the synth as the last note set it.

use crate::song::Note;
use crate::synth::{Ratio, Synth, SynthState};
use vstd::prelude::*;

verus! {

/// The slots after `note` was applied: a sounding note starts carrier and
/// modulator anew, a rest empties both.
pub open spec fn applied(s: SynthState, note: Note, ratio: Ratio) -> SynthState {
    match note.freq {
        Some(base) => s.with_harmonic(base, ratio),
        None => s.silenced(),
    }
}

/// The slots after all of `notes` were applied in order.
pub open spec fn played(s: SynthState, notes: Seq<Note>, ratio: Ratio) -> SynthState
    decreases notes.len(),
{
    if notes.len() == 0 {
        s
    } else {
        applied(played(s, notes.drop_last(), ratio), notes.last(), ratio)
    }
}

/// The time that `notes` take, in milliseconds.
pub open spec fn total_duration(notes: Seq<Note>) -> nat
    decreases notes.len(),
{
    if notes.len() == 0 {
        0
    } else {
        total_duration(notes.drop_last()) + notes.last().duration as nat
    }
}

/// What a sequencer holds: the song, the factor between carrier and
/// modulator, and the number of notes already applied.
pub struct SequencerState {
    pub song: Seq<Note>,
    pub ratio: Ratio,
    pub cursor: nat,
}

impl SequencerState {
    /// Whether every note was applied.
    pub open spec fn finished(self) -> bool {
        self.cursor >= self.song.len()
    }

    /// The note that the next step applies.
    pub open spec fn current(self) -> Note
        recommends
            !self.finished(),
    {
        self.song[self.cursor as int]
    }

    /// The state after one more note was applied.
    pub open spec fn stepped(self) -> SequencerState {
        SequencerState { cursor: self.cursor + 1, ..self }
    }

    /// The time at which the next step is due, counted in milliseconds from
    /// the first step: the durations of the notes applied so far.
    pub open spec fn due(self) -> nat {
        total_duration(self.song.take(self.cursor as int))
    }
}

/// Plays one song, once.
pub struct Sequencer {
    song: Vec<Note>,
    ratio: Ratio,
    cursor: usize,
}

impl View for Sequencer {
    type V = SequencerState;

    closed spec fn view(&self) -> SequencerState {
        SequencerState { song: self.song@, ratio: self.ratio, cursor: self.cursor as nat }
    }
}

impl Sequencer {
    #[verifier::type_invariant]
    spec fn within_song(self) -> bool {
        self.cursor <= self.song@.len()
    }

    /// A sequencer before the first note of `song`. The modulator of every
    /// sounding note will run at `ratio` times the note's frequency.
    pub fn new(song: Vec<Note>, ratio: Ratio) -> (s: Sequencer)
        ensures
            s@ == (SequencerState { song: song@, ratio, cursor: 0 }),
    {
        Sequencer { song, ratio, cursor: 0 }
    }

    /// The number of notes applied so far.
    pub fn position(&self) -> (n: usize)
        ensures
            n == self@.cursor,
            n <= self@.song.len(),
    {
        proof {
            use_type_invariant(self);
        }
        self.cursor
    }

    /// Whether every note was applied.
    pub fn is_finished(&self) -> (b: bool)
        ensures
            b == self@.finished(),
    {
        self.cursor >= self.song.len()
    }

    /// The time at which the next step is due, in milliseconds after the
    /// first.
    pub fn elapsed(&self) -> (t: u128)
        ensures
            t == self@.due(),
    {
        proof {
            use_type_invariant(self);
        }
        let mut t: u128 = 0;
        let mut i: usize = 0;
        while i < self.cursor
            invariant
                i <= self.cursor <= self.song@.len(),
                t == total_duration(self.song@.take(i as int)),
                t <= i * u64::MAX,
            decreases self.cursor - i,
        {
            proof {
                assert(self.song@.take(i + 1).drop_last() =~= self.song@.take(i as int));
            }
            t = t + self.song[i].duration as u128;
            i = i + 1;
        }
        t
    }

    /// Takes one step.
    ///
    /// While notes are left, the next one is applied to `synth` and its
    /// duration is returned: the time to wait before the step after. Once
    /// the song is over, nothing changes and `None` is returned.
    pub fn advance(&mut self, synth: &mut Synth) -> (wait: Option<u64>)
        ensures
            !old(self)@.finished() ==> {
                &&& wait == Some(old(self)@.current().duration)
                &&& final(self)@ == old(self)@.stepped()
                &&& final(synth)@ == applied(old(synth)@, old(self)@.current(), old(self)@.ratio)
                &&& final(synth)@.paired()
            },
            old(self)@.finished() ==> {
                &&& wait is None
                &&& final(self)@ == old(self)@
                &&& final(synth)@ == old(synth)@
            },
    {
        if self.cursor >= self.song.len() {
            return None;
        }
        let note = self.song[self.cursor];
        match note.freq {
            Some(base) => synth.set_harmonic(base, self.ratio),
            None => synth.silence(),
        }
        self.cursor = self.cursor + 1;
        Some(note.duration)
    }
}

/// Playing one more note is applying it to what the notes before it left.
pub proof fn lemma_played_step(s: SynthState, notes: Seq<Note>, ratio: Ratio, k: int)
    requires
        0 <= k < notes.len(),
    ensures
        played(s, notes.take(k + 1), ratio) == applied(played(s, notes.take(k), ratio), notes[k], ratio),
        total_duration(notes.take(k + 1)) == total_duration(notes.take(k)) + notes[k].duration,
{
    assert(notes.take(k + 1).drop_last() =~= notes.take(k));
}

/// The synth keeps what the last note set: after a song that is not empty
/// the slots depend on its last note alone, they are paired, and the mode is
/// the one the synth was made with.
pub proof fn lemma_last_note_stays(s: SynthState, notes: Seq<Note>, ratio: Ratio)
    requires
        notes.len() > 0,
    ensures
        played(s, notes, ratio) == applied(s, notes.last(), ratio),
        played(s, notes, ratio).paired(),
        played(s, notes, ratio).mode == s.mode,
    decreases notes.len(),
{
    let before = played(s, notes.drop_last(), ratio);
    if notes.len() > 1 {
        lemma_last_note_stays(s, notes.drop_last(), ratio);
    } else {
        assert(before == s);
    }
    assert(before.mode == s.mode);
    assert(applied(before, notes.last(), ratio) == applied(s, notes.last(), ratio));
}

/// A song that ends on a rest leaves the synth silent.
pub proof fn lemma_rest_at_end_is_silence(s: SynthState, notes: Seq<Note>, ratio: Ratio)
    requires
        notes.len() > 0,
        notes.last().freq is None,
    ensures
        played(s, notes, ratio) == SynthState::empty(s.mode),
{
    lemma_last_note_stays(s, notes, ratio);
}

} // verus!
