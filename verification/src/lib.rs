//! Battery alert session engine.
//!
//! A host's battery is sampled once per tick; when the charge crosses a
//! configured high-while-charging or low-while-discharging threshold, the
//! engine decides whether to emit an alert.  The engine is a pure state
//! machine: each tick it consumes one sample and the static configuration,
//! emits zero or one alert intent, and updates its session state.  Sensing,
//! notification rendering and audio playback are left to the surrounding
//! program.

pub mod engine;
pub mod laws;
pub mod render;
pub mod sample;
pub mod session;
