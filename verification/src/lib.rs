//! Core of a particle-based video player: a bounded look-ahead playback
//! buffer that paces frame display against a wall clock, a particle field
//! that random-walks over bright pixels of the displayed raster and freezes
//! over dark ones, and a two-state play/pause controller that gates both and
//! mirrors its state to the audio device.

pub mod buffer;
pub mod controller;
pub mod field;
mod rng;
