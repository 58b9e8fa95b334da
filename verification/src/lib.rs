//! Encoder and tone generator for the BPC longwave time signal.
//!
//! BPC transmits one two-bit symbol per second as the width of a carrier
//! drop at the start of that second. This crate maps a civil timestamp to the
//! symbol of its second, the symbol to its pulse width, and the pulse width
//! to the envelope of an audio-band carrier that a receiver can demodulate.

pub mod bits;
pub mod timestamp;
pub mod encoder;
pub mod wave;

pub use encoder::{symbol_to_pulse_width_ms, BPC};
pub use timestamp::{cst, ZonedTimestamp};
pub use wave::{carrier_hz, micros_until_next_second, BPCWave, BPCWaveInner, Sample};
