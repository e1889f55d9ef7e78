//! What stands between the dial and a user interface.

pub mod components;
