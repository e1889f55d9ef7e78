//! What the two dials of the explorer share: the harmonic that is shown and
//! the rotation that both dials turn by.
//!
//! There is one rotation. Either dial reads it and, in a drag, writes it;
//! each dial keeps its own drag.

use vstd::prelude::*;
use vstd::string::StringExecFns;
use crate::models::harmonic::HarmonicType;
use crate::utils::angle::{in_circle, normalize_degrees, wrap_degrees};
use crate::utils::text::{decimal_text, push_decimal};

verus! {

/// The state that the two dials of the explorer share.
#[derive(Debug, Clone, Copy, PartialEq, Eq, Structural)]
pub struct App {
    /// The harmonic of the right dial.
    pub current_harmonic: HarmonicType,
    /// The rotation of both dials, in `[0, 360°)`.
    pub shared_rotation: i64,
}

impl App {
    /// The heading of the right dial, as text: the number of the harmonic
    /// followed by `th Harmonic Dial`.
    pub open spec fn title_text(self) -> Seq<char> {
        decimal_text(self.current_harmonic.number() as nat) + "th Harmonic Dial"@
    }

    /// The explorer as it starts: the fourth harmonic, not turned.
    pub fn new() -> (r: App)
        ensures
            r == (App { current_harmonic: HarmonicType::Fourth, shared_rotation: 0 }),
    {
        App { current_harmonic: HarmonicType::Fourth, shared_rotation: 0 }
    }

    /// Chooses the harmonic of the right dial. The rotation stays.
    pub fn set_current_harmonic(&mut self, harmonic: HarmonicType)
        ensures
            *final(self) == (App { current_harmonic: harmonic, ..*old(self) }),
    {
        self.current_harmonic = harmonic;
    }

    /// Publishes a rotation to both dials, wrapped into `[0, 360°)`.
    pub fn set_shared_rotation(&mut self, rotation: i64)
        ensures
            *final(self) == (App {
                shared_rotation: wrap_degrees(rotation as int) as i64,
                ..*old(self)
            }),
            in_circle(final(self).shared_rotation as int),
    {
        self.shared_rotation = normalize_degrees(rotation);
    }

    /// The heading of the right dial.
    pub fn harmonic_title(&self) -> (r: String)
        ensures
            r@ == self.title_text(),
    {
        let mut out = String::new();
        push_decimal(&mut out, self.current_harmonic.value() as u64);
        out.append("th Harmonic Dial");
        assert(out@ =~= self.title_text());
        out
    }
}

} // verus!
