//! What a robot declares of itself, and the tracks it can race on.

use vstd::prelude::*;

verus! {

/// An RGB color.
#[derive(Clone, Copy, Debug, PartialEq, Eq, Structural)]
pub struct Color {
    /// Red component.
    pub r: u8,
    /// Green component.
    pub g: u8,
    /// Blue component.
    pub b: u8,
}

impl Color {
    /// Mean of the three components.
    pub open spec fn brightness_of(&self) -> int {
        (self.r + self.g + self.b) / 3
    }

    /// Mean of the three components.
    pub fn brightness(&self) -> (r: u8)
        ensures
            r == self.brightness_of(),
    {
        ((self.r as u16 + self.g as u16 + self.b as u16) / 3) as u8
    }

    /// Whether text on this color reads better in white than in black.
    pub fn is_dark(&self) -> (r: bool)
        ensures
            r == (self.brightness_of() < 128),
    {
        self.brightness() < 128
    }
}

/// The tracks that a simulation can run on.
#[derive(Clone, Copy, Debug, PartialEq, Eq, Structural)]
pub enum TrackId {
    /// A basic straight track.
    Line,
    /// A test track with 90deg angles.
    Angle,
    /// A test track with smooth turns.
    Turn,
    /// A simple track.
    Simple,
    /// A full racing track.
    Race,
}

impl Default for TrackId {
    fn default() -> (r: Self)
        ensures
            r == TrackId::Simple,
    {
        TrackId::Simple
    }
}

impl TrackId {
    /// The name by which the track is chosen.
    pub fn name(&self) -> (r: &'static str)
        ensures
            r@ == match *self {
                TrackId::Line => "line"@,
                TrackId::Angle => "angle"@,
                TrackId::Turn => "turn"@,
                TrackId::Simple => "simple"@,
                TrackId::Race => "race"@,
            },
    {
        match self {
            TrackId::Line => "line",
            TrackId::Angle => "angle",
            TrackId::Turn => "turn",
            TrackId::Simple => "simple",
            TrackId::Race => "race",
        }
    }
}

} // verus!
