use fm_synth::octave::{
    freq, Frequency, A, A_FLAT, A_SHARP, B, BASE_FREQ, C, C_SHARP, D, D_SHARP, E, F, F_SHARP, G,
    OCTAVE,
};

fn hertz(f: Frequency) -> f64 {
    BASE_FREQ as f64 * 2_f64.powf(f.steps as f64 / 12.0)
}

#[test]
fn base_note_is_the_base_frequency() {
    assert_eq!(freq(A, 0), Frequency { steps: 0 });
    assert_eq!(hertz(freq(A, 0)), 220.0);
    assert_eq!(BASE_FREQ, 220);
}

#[test]
fn notes_count_semitones_from_a() {
    assert_eq!(A, 0);
    assert_eq!(A_SHARP, 1);
    assert_eq!(B, 2);
    assert_eq!(C, 3);
    assert_eq!(C_SHARP, 4);
    assert_eq!(D, 5);
    assert_eq!(D_SHARP, 6);
    assert_eq!(E, 7);
    assert_eq!(F, 8);
    assert_eq!(F_SHARP, 9);
    assert_eq!(G, 10);
    assert_eq!(A_FLAT, 11);
    assert_eq!(OCTAVE, 12);
}

#[test]
fn steps_are_octave_times_twelve_plus_note() {
    assert_eq!(freq(B, 1).steps, 14);
    assert_eq!(freq(A_FLAT, 0).steps, 11);
    assert_eq!(freq(C, 2).steps, 27);
    assert_eq!(freq(G, -1).steps, -2);
    assert_eq!(freq(A, -3).steps, -36);
}

#[test]
fn octave_up_is_twelve_steps_and_doubles() {
    let notes: [i32; 12] = [A, A_SHARP, B, C, C_SHARP, D, D_SHARP, E, F, F_SHARP, G, A_FLAT];
    for note in notes {
        for octave in -4..5 {
            let low = freq(note, octave);
            let high = freq(note, octave + 1);
            assert_eq!(high.steps, low.steps + 12);
            let ratio: f64 = hertz(high) / hertz(low);
            assert!((ratio - 2.0).abs() < 1e-12);
        }
    }
}

#[test]
fn whole_octaves_are_exact_in_hertz() {
    assert_eq!(hertz(freq(A, 1)), 440.0);
    assert_eq!(hertz(freq(A, 2)), 880.0);
    assert_eq!(hertz(freq(A, -1)), 110.0);
    assert_eq!(hertz(freq(A, -2)), 55.0);
}

#[test]
fn every_frequency_is_positive() {
    for octave in -20..20 {
        for note in -13..25 {
            assert!(hertz(freq(note, octave)) > 0.0);
        }
    }
}

#[test]
fn notes_outside_the_octave_reach_into_the_next() {
    assert_eq!(freq(12, 0), freq(A, 1));
    assert_eq!(freq(-1, 1), freq(A_FLAT, 0));
    assert_eq!(freq(-12, 0), freq(A, -1));
}

#[test]
fn extreme_arguments_do_not_overflow() {
    assert_eq!(freq(i32::MAX, i32::MAX).steps, i32::MAX as i64 * 13);
    assert_eq!(freq(i32::MIN, i32::MIN).steps, i32::MIN as i64 * 13);
    assert_eq!(freq(0, i32::MIN).steps, -25769803776);
}
