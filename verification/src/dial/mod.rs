//! The quarter dial and the full dial: data, midpoints, alignments and the
//! handling of pointer gestures.

pub mod alignment;
pub mod calculator;
pub mod component;
pub mod interaction;
pub mod renderer;
pub mod renderer360;
pub mod types;

pub use calculator::AstrologyCalculator;
pub use component::DialComponent;
pub use interaction::InteractionHandler;
pub use renderer::DialRenderer;
pub use renderer360::DialRenderer360;
pub use types::{
    AxisAlignment, AxisPoint, Cardinal360, DialState, Live360Alignment, LiveAlignment, Midpoint,
    Planet, PlanetPosition, PointerPosition,
};
