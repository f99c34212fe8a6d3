//! The equal-tempered scale, rooted at A.

use vstd::arithmetic::power2::{lemma2_to64, lemma_pow2_adds, lemma_pow2_pos, pow2};
use vstd::prelude::*;

verus! {

/// A semitone offset within an octave, counted upwards from A.
pub type Note = i32;

pub const A: Note = 0;

pub const A_SHARP: Note = 1;

pub const B: Note = 2;

pub const C: Note = 3;

pub const C_SHARP: Note = 4;

pub const D: Note = 5;

pub const D_SHARP: Note = 6;

pub const E: Note = 7;

pub const F: Note = 8;

pub const F_SHARP: Note = 9;

pub const G: Note = 10;

pub const A_FLAT: Note = 11;

/// The frequency of `A` in octave 0, in hertz.
pub const BASE_FREQ: u32 = 220;

/// The number of semitones in an octave.
pub const OCTAVE: i64 = 12;

/// A frequency of the scale, held exactly: `BASE_FREQ * 2^(steps / 12)` hertz.
///
/// Most of these frequencies are irrational, so the value is kept as the
/// number of semitone steps away from the base, which may be negative.
#[derive(Clone, Copy, Debug, PartialEq, Eq, Structural)]
pub struct Frequency {
    pub steps: i64,
}

/// The number of semitone steps between the base and `note` in `octave`.
pub open spec fn steps_of(note: int, octave: int) -> int {
    octave * 12 + note
}

impl Frequency {
    /// Numerator of `(self / BASE_FREQ)^12`, which is the rational `2^steps`.
    pub open spec fn power12_num(self) -> nat {
        if self.steps >= 0 {
            pow2(self.steps as nat)
        } else {
            1
        }
    }

    /// Denominator of `(self / BASE_FREQ)^12`.
    pub open spec fn power12_den(self) -> nat {
        if self.steps >= 0 {
            1
        } else {
            pow2((-self.steps) as nat)
        }
    }
}

/// The frequency of `note` in `octave`, as a value of the model.
pub open spec fn freq_of(note: Note, octave: i32) -> Frequency {
    Frequency { steps: steps_of(note as int, octave as int) as i64 }
}

/// The frequency of `note` in `octave`.
///
/// Every pair of integers is accepted: a negative octave lies below the
/// base, and a note outside `0..12` reaches into a neighbouring octave.
pub fn freq(note: Note, octave: i32) -> (f: Frequency)
    ensures
        f == freq_of(note, octave),
        f.steps == steps_of(note as int, octave as int),
{
    let octave_notes: i64 = (octave as i64) * OCTAVE;
    Frequency { steps: octave_notes + (note as i64) }
}

/// Raising the octave by one moves a note up by exactly twelve steps.
pub proof fn lemma_octave_is_twelve_steps(note: int, octave: int)
    ensures
        steps_of(note, octave + 1) == steps_of(note, octave) + 12,
{
}

/// Twelve steps up double a frequency: the twelfth power of its ratio to the
/// base grows by the factor `2^12`.
pub proof fn lemma_twelve_steps_double(low: Frequency, high: Frequency)
    requires
        high.steps == low.steps + 12,
    ensures
        high.power12_num() * low.power12_den() == 4096 * (low.power12_num() * high.power12_den()),
{
    lemma2_to64();
    let (ln, ld) = (low.power12_num(), low.power12_den());
    let (hn, hd) = (high.power12_num(), high.power12_den());
    if low.steps >= 0 {
        lemma_pow2_adds(low.steps as nat, 12);
        assert(hn * ld == 4096 * (ln * hd)) by (nonlinear_arith)
            requires
                hn == ln * 4096,
                ld == 1,
                hd == 1,
        ;
    } else if high.steps >= 0 {
        lemma_pow2_adds(high.steps as nat, (-low.steps) as nat);
        assert(hn * ld == 4096 * (ln * hd)) by (nonlinear_arith)
            requires
                hn * ld == 4096,
                ln == 1,
                hd == 1,
        ;
    } else {
        lemma_pow2_adds((-high.steps) as nat, 12);
        assert(hn * ld == 4096 * (ln * hd)) by (nonlinear_arith)
            requires
                ld == hd * 4096,
                hn == 1,
                ln == 1,
        ;
    }
}

/// Every frequency of the scale is positive: the twelfth power of its ratio
/// to the base is a fraction of two positive numbers.
pub proof fn lemma_frequency_positive(f: Frequency)
    ensures
        f.power12_num() > 0,
        f.power12_den() > 0,
{
    if f.steps >= 0 {
        lemma_pow2_pos(f.steps as nat);
    } else {
        lemma_pow2_pos((-f.steps) as nat);
    }
}

/// `A` in octave 0 is the base frequency itself.
pub proof fn lemma_base_frequency()
    ensures
        steps_of(A as int, 0) == 0,
        (Frequency { steps: 0 }).power12_num() == 1,
        (Frequency { steps: 0 }).power12_den() == 1,
{
    lemma2_to64();
}

} // verus!
