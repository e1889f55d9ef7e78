//! The controller of the dial and the view models of its bodies.

pub mod dial_controller;
