//! A polyphonic synthesizer engine in exact integer arithmetic.
//!
//! Key events travel through a bounded queue to a renderer that owns one
//! voice per sounding key. Every level and waveform value is an exact
//! fraction, so the host decides how to turn it into its sample format.

pub mod ratio;
pub mod keys;
pub mod oscillator;
pub mod envelope;
pub mod envelope_laws;
pub mod voice;
pub mod manager;
pub mod manager_laws;
pub mod channel;
pub mod renderer;
pub mod poller;
pub mod render_laws;
