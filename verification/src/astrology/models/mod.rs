//! Celestial bodies and the signs of the zodiac.

pub mod planet;
pub mod table;
pub mod zodiac;
