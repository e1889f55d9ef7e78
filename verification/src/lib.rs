//! Harmonic dial geometry and alignment engine for Uranian astrology.
//!
//! The crate positions celestial bodies on a circular scale, folds their
//! positions under a harmonic, derives the pairwise midpoints and reports
//! which of them line up with the axis of a rotating dial.
//!
//! Every quantity is an exact fixed-point integer. The unit is one millionth:
//! an angle of `22_500_000` is 22.5°, a zoom of `1_500_000` is 1.5. Drawing,
//! trigonometry and event plumbing belong to the host program.

pub mod app;
pub mod astrology;
pub mod components;
pub mod dial;
pub mod models;
pub mod ui;
pub mod utils;

pub use app::App;
