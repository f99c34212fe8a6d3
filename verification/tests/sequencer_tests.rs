use fm_synth::octave::{freq, A, B, C};
use fm_synth::sequencer::Sequencer;
use fm_synth::song::{song, Note, ParseErrorKind};
use fm_synth::synth::{Frame, Mode, Ratio, Sample, Synth, Tone, SAMPLE_RATE};

const FIFTH: Ratio = Ratio { num: 1, den: 5 };

const UNISON: Ratio = Ratio { num: 1, den: 1 };

fn first(tone: Tone) -> Option<Sample> {
    Some(Sample { tone, sample_rate: SAMPLE_RATE, index: 0 })
}

#[test]
fn sequencer_scenario() {
    let notes = vec![Note::some(A, 0, 100), Note::silence(50), Note::some(B, 1, 200)];
    let mut synth = Synth::new(Mode::Additive);
    let mut seq = Sequencer::new(notes, FIFTH);
    assert_eq!(seq.position(), 0);
    assert_eq!(seq.elapsed(), 0);
    assert!(!seq.is_finished());
    assert_eq!(synth.carrier(), None);

    // t = 0: the first note starts.
    assert_eq!(seq.advance(&mut synth), Some(100));
    assert_eq!(synth.carrier(), first(Tone { base: freq(A, 0), ratio: UNISON }));
    assert_eq!(synth.modulator(), first(Tone { base: freq(A, 0), ratio: FIFTH }));
    assert_eq!(freq(A, 0).steps, 0);
    assert_eq!(seq.elapsed(), 100);

    // t = 100: silence.
    assert_eq!(seq.advance(&mut synth), Some(50));
    assert_eq!(synth.carrier(), None);
    assert_eq!(synth.modulator(), None);
    assert_eq!(seq.elapsed(), 150);

    // t = 150: the last note starts.
    assert_eq!(seq.advance(&mut synth), Some(200));
    assert_eq!(synth.carrier(), first(Tone { base: freq(B, 1), ratio: UNISON }));
    assert_eq!(synth.modulator(), first(Tone { base: freq(B, 1), ratio: FIFTH }));
    assert_eq!(seq.elapsed(), 350);
    assert!(seq.is_finished());
    assert_eq!(seq.position(), 3);

    // t = 350: the sequencer is done, and the synth keeps the last note.
    assert_eq!(seq.advance(&mut synth), None);
    assert_eq!(seq.advance(&mut synth), None);
    assert_eq!(seq.position(), 3);
    assert_eq!(seq.elapsed(), 350);
    assert_eq!(synth.carrier(), first(Tone { base: freq(B, 1), ratio: UNISON }));
    assert_eq!(synth.modulator(), first(Tone { base: freq(B, 1), ratio: FIFTH }));
}

#[test]
fn the_empty_song_is_finished_at_once() {
    let mut synth = Synth::new(Mode::Multiplicative);
    synth.set_harmonic(freq(C, 0), FIFTH);
    let before = (synth.carrier(), synth.modulator());
    let mut seq = Sequencer::new(vec![], FIFTH);
    assert!(seq.is_finished());
    assert_eq!(seq.elapsed(), 0);
    assert_eq!(seq.advance(&mut synth), None);
    assert_eq!((synth.carrier(), synth.modulator()), before);
    assert_eq!(seq.position(), 0);
}

#[test]
fn a_song_that_ends_on_a_rest_leaves_silence() {
    let mut synth = Synth::new(Mode::Additive);
    let mut seq = Sequencer::new(vec![Note::some(C, 2, 10), Note::silence(0)], FIFTH);
    while seq.advance(&mut synth).is_some() {}
    assert_eq!(synth.carrier(), None);
    assert_eq!(synth.modulator(), None);
    assert_eq!(synth.render_one_frame(), Frame::Silence);
    assert_eq!(seq.elapsed(), 10);
}

#[test]
fn a_note_restarts_the_oscillators() {
    let mut synth = Synth::new(Mode::Additive);
    let mut seq = Sequencer::new(vec![Note::some(A, 0, 1), Note::some(A, 0, 1)], FIFTH);
    assert_eq!(seq.advance(&mut synth), Some(1));
    synth.render(100);
    assert_eq!(synth.carrier().map(|s| s.index), Some(100));
    assert_eq!(seq.advance(&mut synth), Some(1));
    assert_eq!(synth.carrier().map(|s| s.index), Some(0));
    assert_eq!(synth.modulator().map(|s| s.index), Some(0));
}

#[test]
fn zero_durations_and_long_durations_add_up() {
    let mut synth = Synth::new(Mode::Additive);
    let notes = vec![Note::silence(0), Note::silence(u64::MAX), Note::silence(u64::MAX)];
    let mut seq = Sequencer::new(notes, FIFTH);
    assert_eq!(seq.advance(&mut synth), Some(0));
    assert_eq!(seq.elapsed(), 0);
    assert_eq!(seq.advance(&mut synth), Some(u64::MAX));
    assert_eq!(seq.advance(&mut synth), Some(u64::MAX));
    assert_eq!(seq.elapsed(), 2 * (u64::MAX as u128));
}

#[test]
fn a_parsed_song_plays_in_line_order() {
    let notes = song(b"A 0 100\nS 50\nB 1 200\n").unwrap();
    let mut synth = Synth::new(Mode::Additive);
    let mut seq = Sequencer::new(notes, FIFTH);
    let mut waits: Vec<u64> = Vec::new();
    let mut bases: Vec<Option<i64>> = Vec::new();
    while let Some(ms) = seq.advance(&mut synth) {
        waits.push(ms);
        bases.push(synth.carrier().map(|s| s.tone.base.steps));
    }
    assert_eq!(waits, vec![100, 50, 200]);
    assert_eq!(bases, vec![Some(0), None, Some(14)]);
}

#[test]
fn a_bad_song_never_reaches_the_synth() {
    let mut synth = Synth::new(Mode::Additive);
    synth.set_harmonic(freq(A, 0), FIFTH);
    synth.render(3);
    let before = (synth.carrier(), synth.modulator(), synth.mode());
    let parsed = song(b"A 0 100\nX 1 100\n");
    assert_eq!(parsed.map_err(|e| (e.line, e.kind)), Err((1, ParseErrorKind::UnknownNote)));
    assert_eq!((synth.carrier(), synth.modulator(), synth.mode()), before);
}
