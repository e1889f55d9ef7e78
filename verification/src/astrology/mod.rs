//! Astrological data models and the Uranian dial.

pub mod models;
pub mod uranian;

pub use models::planet::{BodyType, ChartPositions, Planet, PlanetPosition};
pub use models::zodiac::{Element, Modality, ZodiacSign};
pub use uranian::dial::{Midpoint, UranianDial};
