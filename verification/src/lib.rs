//! A polyphonic synthesizer engine in fixed-point arithmetic: envelopes,
//! oscillators and waveforms, two voice designs, a pool of eight voices with
//! round-robin allocation, and block rendering, with machine-checked
//! contracts.
//!
//! Every level, gain, phase and control value is a multiple of 1/`fixed::ONE`.

pub mod fixed;
pub mod helpers;
pub mod frame;
pub mod indexed;
pub mod waveform;
pub mod oscillator;
pub mod envelope;
pub mod params_bag;
pub mod param_indices;
pub mod voice;
pub mod pendulum;
pub mod fermi;
pub mod active;
pub mod poly_synth;
pub mod device;
