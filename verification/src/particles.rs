//! Decorative particles, as the rules ask the host to show them.

use crate::blocks::{Colour, FULL_INTENSITY};
use vstd::prelude::*;

verus! {

/// A point or an extent in the plane, in thousandths of a world unit.
#[derive(Clone, Copy, PartialEq, Eq, Debug, Structural)]
pub struct Point {
    pub x: i64,
    pub y: i64,
}

/// A scale for each axis of space, in thousandths.
#[derive(Clone, Copy, PartialEq, Eq, Debug, Structural)]
pub struct Scale {
    pub x: i64,
    pub y: i64,
    pub z: i64,
}

/// Asks for one box to be shown that moves from `init_position` to
/// `target_position` within `duration_millis`, changing its colour to
/// `target_color` and its scale to `target_scale` on the way, and for the
/// box to be removed when it has arrived.
#[derive(Clone, Copy, PartialEq, Eq, Debug, Structural)]
pub struct BoxParticlesEvent {
    pub init_position: Point,
    pub target_position: Point,
    /// Drawing layer, in thousandths.
    pub z_index: i64,
    pub color: Colour,
    pub target_color: Colour,
    pub size: Point,
    pub target_scale: Scale,
    pub duration_millis: u64,
}

/// The mark of an animation whose entity is removed when it has run.
pub const DELETE_ON_COMPLETION: u64 = 1;

/// Opaque white.
pub open spec fn spec_white() -> Colour {
    Colour {
        red: FULL_INTENSITY,
        green: FULL_INTENSITY,
        blue: FULL_INTENSITY,
        alpha: FULL_INTENSITY,
    }
}

/// Opaque white.
pub fn white() -> (colour: Colour)
    ensures
        colour == spec_white(),
{
    Colour {
        red: FULL_INTENSITY,
        green: FULL_INTENSITY,
        blue: FULL_INTENSITY,
        alpha: FULL_INTENSITY,
    }
}

impl Colour {
    /// The colour with another opacity.
    pub fn with_alpha(self, alpha: u32) -> (colour: Colour)
        ensures
            colour == (Colour { alpha, ..self }),
    {
        Colour { red: self.red, green: self.green, blue: self.blue, alpha }
    }
}

impl BoxParticlesEvent {
    /// A white box of one thousandth of a world unit that fades and
    /// shrinks away where it stands, within two seconds.
    pub open spec fn spec_default() -> BoxParticlesEvent {
        BoxParticlesEvent {
            init_position: Point { x: 0, y: 0 },
            target_position: Point { x: 0, y: 0 },
            z_index: 0,
            color: spec_white(),
            target_color: Colour { alpha: 0, ..spec_white() },
            size: Point { x: 1_000, y: 1_000 },
            target_scale: Scale { x: 0, y: 0, z: 0 },
            duration_millis: 2_000,
        }
    }

    /// The particle that every other one is a variation of.
    pub fn default() -> (event: BoxParticlesEvent)
        ensures
            event == BoxParticlesEvent::spec_default(),
    {
        BoxParticlesEvent {
            init_position: Point { x: 0, y: 0 },
            target_position: Point { x: 0, y: 0 },
            z_index: 0,
            color: white(),
            target_color: white().with_alpha(0),
            size: Point { x: 1_000, y: 1_000 },
            target_scale: Scale { x: 0, y: 0, z: 0 },
            duration_millis: 2_000,
        }
    }
}

/// Whether the entity of an animation that has run is to be removed.
/// `user_data` is the mark that the animation carries.
pub fn handle_tween_events(user_data: u64) -> (remove: bool)
    ensures
        remove == (user_data == DELETE_ON_COMPLETION),
{
    user_data == DELETE_ON_COMPLETION
}

} // verus!
