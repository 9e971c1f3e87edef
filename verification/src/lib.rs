//! Real-time adaptive filter synthesis core.
//!
//! The crate re-derives a recursive audio filter from perceptual
//! frequency-domain controls on every processing block, crossfades between
//! parameter states, guards every design against numerically invalid
//! results, and runs a fixed nonlinear saturation cascade — with every
//! floating-point value carried as its IEEE-754 bit pattern so that the
//! whole decision structure is verified.

pub mod arith;
pub mod band;
pub mod convert;
pub mod design;
pub mod pipeline;
pub mod preset;
pub mod engine;
pub mod fbits;
pub mod kernel;
pub mod kinds;
pub mod params;
pub mod tube;

pub use kinds::{FilterKind, FilterType};
