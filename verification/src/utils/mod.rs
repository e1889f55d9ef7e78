//! Angle arithmetic, fixed-point scaling and text helpers.

pub mod angle;
pub mod constants;
pub mod fixed;
pub mod math;
pub mod pairs;
pub mod text;

pub use angle::{angle_difference, normalize_degrees, Angle};
