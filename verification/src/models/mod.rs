//! Bodies, harmonics and display settings of the two-dial explorer.

pub mod dial_settings;
pub mod harmonic;
pub mod planet;
