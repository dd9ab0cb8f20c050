//! Background animation engine for a terminal clock.
//!
//! The engine computes, frame by frame, a glyph and an RGB color for every
//! terminal cell, drawing from a family of procedural effects: starfield,
//! matrix rain, snowfall, rain, storm, wind, clouds, fog, aurora, twilight
//! gradients, and metrics-reactive effects.  All arithmetic is fixed-point:
//! fractional quantities are carried in thousandths (milli-units), positions
//! in thousandths of a cell, and phases in thousandths of a full turn.

pub mod chars;
pub mod clock;
pub mod color;
pub mod fixed;
pub mod fonts;
pub mod forecast;
pub mod matrix;
pub mod metrics;
pub mod model;
pub mod reactive;
pub mod snow;
pub mod state;
pub mod stateless;
pub mod weather;
