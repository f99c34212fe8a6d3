//! A two-oscillator FM synthesizer and its note sequencer.
//!
//! The crate holds the control core of the instrument: the equal-tempered
//! scale, the song grammar, the pair of oscillator slots that the control
//! thread writes and the render callback reads, and the sequencer that walks
//! a song. Everything here is exact integer logic. The signal arithmetic
//! itself (sines, sample conversion) and the audio device belong to the host
//! program, which evaluates the frames that this crate describes.

pub mod decimal;
pub mod octave;
pub mod sequencer;
pub mod song;
pub mod synth;
