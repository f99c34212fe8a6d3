//! The two oscillator slots shared by the control thread and the render
//! callback.
//!
//! A [`Synth`] owns at most one carrier and at most one modulator oscillator.
//! Every operation takes the synth by exclusive reference, so whoever shares
//! it between threads has to serialise the calls, and each call is one
//! atomic step: a frame is rendered from the slots as they were before or
//! after an update, never from a mixture.
//!
//! Frames are not numbers here. A [`Frame`] names the samples to combine and
//! how; the host evaluates the sines.

use crate::octave::Frequency;
use vstd::arithmetic::div_mod::{lemma_add_mod_noop_right, lemma_small_mod};
use vstd::prelude::*;

verus! {

/// The sample rate of every oscillator that a synth installs, in hertz.
pub const SAMPLE_RATE: u32 = 44_100;

/// How the samples of carrier and modulator are combined into a frame.
#[derive(Clone, Copy, Debug, PartialEq, Eq, Structural)]
pub enum Mode {
    /// The frame is the sum of the two samples.
    Additive,
    /// The frame is the product of the two samples.
    Multiplicative,
}

/// A factor `num / den` applied to a frequency.
#[derive(Clone, Copy, Debug, PartialEq, Eq, Structural)]
pub struct Ratio {
    pub num: u32,
    pub den: u32,
}

/// The frequency of an oscillator: `base * ratio.num / ratio.den`.
#[derive(Clone, Copy, Debug, PartialEq, Eq)]
pub struct Tone {
    pub base: Frequency,
    pub ratio: Ratio,
}

/// One sample of a sine wave: sample number `index`, counted from zero and
/// modulo `2^64`, of the wave at `tone` that starts at phase zero and is
/// sampled `sample_rate` times a second.
#[derive(Clone, Copy, Debug, PartialEq, Eq)]
pub struct Sample {
    pub tone: Tone,
    pub sample_rate: u32,
    pub index: u64,
}

/// One output frame.
#[derive(Clone, Copy, Debug, PartialEq, Eq)]
pub enum Frame {
    /// Zero amplitude.
    Silence,
    /// The carrier's sample plus the modulator's.
    Sum(Sample, Sample),
    /// The carrier's sample times the modulator's.
    Product(Sample, Sample),
}

/// A sine oscillator of fixed frequency. It is described by the sample that
/// it will produce next.
#[derive(Clone, Copy, Debug, PartialEq, Eq)]
pub struct Oscillator {
    tone: Tone,
    sample_rate: u32,
    position: u64,
}

/// What a synth holds: the next sample of the oscillator in each slot, if
/// there is one, and the mode.
pub struct SynthState {
    pub carrier: Option<Sample>,
    pub modulator: Option<Sample>,
    pub mode: Mode,
}

/// The pair of oscillator slots, with the mode fixed when it was made.
pub struct Synth {
    carrier: Option<Oscillator>,
    modulator: Option<Oscillator>,
    mode: Mode,
}

impl Ratio {
    /// The factor one.
    pub open spec fn one() -> Ratio {
        Ratio { num: 1, den: 1 }
    }

    /// The factor one.
    #[verifier::when_used_as_spec(one)]
    pub fn unison() -> (r: Ratio)
        ensures
            r == Ratio::one(),
    {
        Ratio { num: 1, den: 1 }
    }
}

impl Sample {
    /// The first sample of a wave.
    pub open spec fn first(sample_rate: u32, tone: Tone) -> Sample {
        Sample { tone, sample_rate, index: 0 }
    }

    /// The sample `n` places after this one.
    pub open spec fn advanced(self, n: nat) -> Sample {
        Sample { index: ((self.index + n) % 0x1_0000_0000_0000_0000) as u64, ..self }
    }
}

impl Frame {
    /// Whether the frame combines two samples of one note at one instant:
    /// same base frequency, same sample rate, same index.
    pub open spec fn coherent(self) -> bool {
        match self {
            Frame::Silence => true,
            Frame::Sum(c, m) | Frame::Product(c, m) => {
                &&& c.tone.base == m.tone.base
                &&& c.sample_rate == m.sample_rate
                &&& c.index == m.index
            },
        }
    }
}

impl View for Oscillator {
    type V = Sample;

    closed spec fn view(&self) -> Sample {
        Sample { tone: self.tone, sample_rate: self.sample_rate, index: self.position }
    }
}

impl Oscillator {
    /// An oscillator at phase zero.
    pub fn new(sample_rate: u32, tone: Tone) -> (o: Oscillator)
        ensures
            o@ == Sample::first(sample_rate, tone),
    {
        Oscillator { tone, sample_rate, position: 0 }
    }

    /// The sample that `next` would produce.
    pub fn peek(&self) -> (s: Sample)
        ensures
            s == self@,
    {
        Sample { tone: self.tone, sample_rate: self.sample_rate, index: self.position }
    }

    /// Produces one sample and moves on to the one after it.
    pub fn next(&mut self) -> (s: Sample)
        ensures
            s == old(self)@,
            final(self)@ == old(self)@.advanced(1),
    {
        let s = self.peek();
        self.position = self.position.wrapping_add(1);
        s
    }
}

impl SynthState {
    /// Both slots empty.
    pub open spec fn empty(mode: Mode) -> SynthState {
        SynthState { carrier: None, modulator: None, mode }
    }

    pub open spec fn with_carrier(self, tone: Tone) -> SynthState {
        SynthState { carrier: Some(Sample::first(SAMPLE_RATE, tone)), ..self }
    }

    pub open spec fn with_modulator(self, tone: Tone) -> SynthState {
        SynthState { modulator: Some(Sample::first(SAMPLE_RATE, tone)), ..self }
    }

    pub open spec fn without_carrier(self) -> SynthState {
        SynthState { carrier: None, ..self }
    }

    pub open spec fn without_modulator(self) -> SynthState {
        SynthState { modulator: None, ..self }
    }

    /// The carrier at `base` and the modulator at `base * ratio`, both new.
    pub open spec fn with_harmonic(self, base: Frequency, ratio: Ratio) -> SynthState {
        self.with_carrier(Tone { base, ratio: Ratio::one() }).with_modulator(Tone { base, ratio })
    }

    /// Both slots emptied.
    pub open spec fn silenced(self) -> SynthState {
        self.without_carrier().without_modulator()
    }

    /// Whether both slots hold an oscillator.
    pub open spec fn sounding(self) -> bool {
        self.carrier is Some && self.modulator is Some
    }

    /// The frame that is rendered next.
    pub open spec fn frame(self) -> Frame {
        match (self.carrier, self.modulator) {
            (Some(c), Some(m)) => match self.mode {
                Mode::Additive => Frame::Sum(c, m),
                Mode::Multiplicative => Frame::Product(c, m),
            },
            _ => Frame::Silence,
        }
    }

    /// The state after `n` frames were rendered. A slot moves on only while
    /// both slots are taken.
    pub open spec fn after_frames(self, n: nat) -> SynthState {
        match (self.carrier, self.modulator) {
            (Some(c), Some(m)) => SynthState {
                carrier: Some(c.advanced(n)),
                modulator: Some(m.advanced(n)),
                mode: self.mode,
            },
            _ => self,
        }
    }

    /// The frame that is rendered after `k` others, counted from this state.
    pub open spec fn frame_at(self, k: nat) -> Frame {
        self.after_frames(k).frame()
    }

    /// Whether the slots belong together: both empty, or both taken by
    /// oscillators of one base frequency that have run equally long.
    pub open spec fn paired(self) -> bool {
        match (self.carrier, self.modulator) {
            (None, None) => true,
            (Some(c), Some(m)) => {
                &&& c.tone.base == m.tone.base
                &&& c.sample_rate == m.sample_rate
                &&& c.index == m.index
            },
            _ => false,
        }
    }
}

impl View for Synth {
    type V = SynthState;

    closed spec fn view(&self) -> SynthState {
        SynthState {
            carrier: match self.carrier {
                Some(o) => Some(o@),
                None => None,
            },
            modulator: match self.modulator {
                Some(o) => Some(o@),
                None => None,
            },
            mode: self.mode,
        }
    }
}

impl Synth {
    /// A silent synth that will combine its oscillators as `mode` says.
    pub fn new(mode: Mode) -> (s: Synth)
        ensures
            s@ == SynthState::empty(mode),
    {
        Synth { carrier: None, modulator: None, mode }
    }

    pub fn mode(&self) -> (m: Mode)
        ensures
            m == self@.mode,
    {
        self.mode
    }

    /// The next sample of the carrier, if the slot is taken.
    pub fn carrier(&self) -> (c: Option<Sample>)
        ensures
            c == self@.carrier,
    {
        match &self.carrier {
            Some(o) => Some(o.peek()),
            None => None,
        }
    }

    /// The next sample of the modulator, if the slot is taken.
    pub fn modulator(&self) -> (m: Option<Sample>)
        ensures
            m == self@.modulator,
    {
        match &self.modulator {
            Some(o) => Some(o.peek()),
            None => None,
        }
    }

    /// Installs a new carrier oscillator at `tone`, in place of any other.
    pub fn set_carrier(&mut self, tone: Tone)
        ensures
            final(self)@ == old(self)@.with_carrier(tone),
    {
        self.carrier = Some(Oscillator::new(SAMPLE_RATE, tone));
    }

    /// Installs a new modulator oscillator at `tone`, in place of any other.
    pub fn set_modulator(&mut self, tone: Tone)
        ensures
            final(self)@ == old(self)@.with_modulator(tone),
    {
        self.modulator = Some(Oscillator::new(SAMPLE_RATE, tone));
    }

    /// Empties the carrier slot.
    pub fn silence_carrier(&mut self)
        ensures
            final(self)@ == old(self)@.without_carrier(),
    {
        self.carrier = None;
    }

    /// Empties the modulator slot.
    pub fn silence_modulator(&mut self)
        ensures
            final(self)@ == old(self)@.without_modulator(),
    {
        self.modulator = None;
    }

    /// Starts a note: the carrier at `base` and the modulator at
    /// `base * ratio`, both from phase zero, in one step.
    pub fn set_harmonic(&mut self, base: Frequency, ratio: Ratio)
        ensures
            final(self)@ == old(self)@.with_harmonic(base, ratio),
            final(self)@.paired(),
    {
        self.set_carrier(Tone { base, ratio: Ratio::unison() });
        self.set_modulator(Tone { base, ratio });
    }

    /// Empties both slots in one step.
    pub fn silence(&mut self)
        ensures
            final(self)@ == old(self)@.silenced(),
            final(self)@.paired(),
    {
        self.silence_carrier();
        self.silence_modulator();
    }

    /// Renders one frame.
    ///
    /// With both slots taken the frame combines the next sample of each as
    /// the mode says, and both oscillators move on by one sample. With a slot
    /// empty the frame is silence and nothing changes.
    pub fn render_one_frame(&mut self) -> (f: Frame)
        ensures
            f == old(self)@.frame(),
            final(self)@ == old(self)@.after_frames(1),
            old(self)@.paired() ==> f.coherent() && final(self)@.paired(),
    {
        match (&mut self.carrier, &mut self.modulator) {
            (Some(c), Some(m)) => {
                let cs = c.next();
                let ms = m.next();
                match self.mode {
                    Mode::Additive => Frame::Sum(cs, ms),
                    Mode::Multiplicative => Frame::Product(cs, ms),
                }
            },
            _ => Frame::Silence,
        }
    }

    /// Renders a block of `frames` frames, as `render_one_frame` would one
    /// after the other.
    pub fn render(&mut self, frames: usize) -> (out: Vec<Frame>)
        ensures
            out@.len() == frames,
            forall|k: int| 0 <= k < frames ==> out@[k] == old(self)@.frame_at(k as nat),
            final(self)@ == old(self)@.after_frames(frames as nat),
            old(self)@.paired() ==> final(self)@.paired(),
    {
        let ghost start = self@;
        let mut out: Vec<Frame> = Vec::new();
        let mut done: usize = 0;
        proof {
            lemma_after_frames_adds(start, 0, 0);
        }
        while done < frames
            invariant
                done <= frames,
                out@.len() == done,
                forall|k: int| 0 <= k < done ==> out@[k] == start.frame_at(k as nat),
                self@ == start.after_frames(done as nat),
            decreases frames - done,
        {
            let f = self.render_one_frame();
            out.push(f);
            proof {
                lemma_after_frames_adds(start, done as nat, 1);
            }
            done = done + 1;
        }
        proof {
            lemma_pairing_is_kept(start, frames as nat);
        }
        out
    }
}

/// Moving on by `a` samples and then by `b` is moving on by `a + b`.
pub proof fn lemma_advanced_adds(s: Sample, a: nat, b: nat)
    ensures
        s.advanced(a).advanced(b) == s.advanced(a + b),
        s.advanced(0) == s,
{
    lemma_add_mod_noop_right(b as int, s.index + a, 0x1_0000_0000_0000_0000);
    lemma_small_mod(s.index as nat, 0x1_0000_0000_0000_0000);
}

/// Rendering `a` frames and then `b` more is rendering `a + b` frames.
pub proof fn lemma_after_frames_adds(s: SynthState, a: nat, b: nat)
    ensures
        s.after_frames(a).after_frames(b) == s.after_frames(a + b),
        s.after_frames(0) == s,
{
    if let (Some(c), Some(m)) = (s.carrier, s.modulator) {
        lemma_advanced_adds(c, a, b);
        lemma_advanced_adds(m, a, b);
    }
}

/// With a slot empty every frame is silence, whatever the mode, and
/// rendering changes nothing.
pub proof fn lemma_empty_slot_renders_silence(s: SynthState, n: nat)
    requires
        !s.sounding(),
    ensures
        s.frame_at(n) == Frame::Silence,
        s.after_frames(n) == s,
{
}

/// Emptying a slot that is empty changes nothing: each of the silencing
/// operations, done twice, leaves what it leaves when done once.
pub proof fn lemma_silencing_is_idempotent(s: SynthState)
    ensures
        s.without_carrier().without_carrier() == s.without_carrier(),
        s.without_modulator().without_modulator() == s.without_modulator(),
        s.silenced().silenced() == s.silenced(),
        s.without_carrier().carrier is None,
        s.without_modulator().modulator is None,
{
}

/// With both slots taken the frame is the sum of the two next samples in
/// additive mode and their product in multiplicative mode, and each further
/// frame takes the sample after.
pub proof fn lemma_frames_combine(s: SynthState, c: Sample, m: Sample, k: nat)
    requires
        s.carrier == Some(c),
        s.modulator == Some(m),
    ensures
        s.mode == Mode::Additive ==> s.frame_at(k) == Frame::Sum(c.advanced(k), m.advanced(k)),
        s.mode == Mode::Multiplicative ==> s.frame_at(k) == Frame::Product(
            c.advanced(k),
            m.advanced(k),
        ),
{
}

/// No frame is torn. Starting a note and silencing leave the slots paired
/// whatever they held, rendering keeps them paired, and every frame rendered
/// from paired slots combines two samples of one note at one instant.
pub proof fn lemma_pairing_is_kept(s: SynthState, n: nat)
    ensures
        SynthState::empty(s.mode).paired(),
        s.silenced().paired(),
        forall|base: Frequency, ratio: Ratio| #[trigger] s.with_harmonic(base, ratio).paired(),
        s.paired() ==> s.after_frames(n).paired() && s.frame_at(n).coherent(),
{
}

} // verus!
