//! Verified core of a power-grid visualisation: the rules that turn electrical
//! records into renderable instances, the hazard grid, probe attachment,
//! playback and the probe update pipeline.
//!
//! Every real number is carried as its IEEE-754 encoding. The library decides
//! (orders, clamps, classifies, selects, lays out, schedules); it never rounds.
//! Sums, products, quotients and roots are evaluated by the caller and handed
//! in as encodings.

pub mod arguments;
pub mod buffer;
pub mod domain;
pub mod dots;
pub mod hazard;
pub mod ieee;
pub mod instance;
pub mod methods;
pub mod pipeline;
pub mod probe;
pub mod recompute;
pub mod state;
pub mod vector;
