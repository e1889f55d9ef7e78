//! The Uranian dial model.

pub mod dial;
