//! Colors and sweep patterns the light understands.

use vstd::prelude::*;

verus! {

/// A color the light can show: one of seven named colors, or any RGB triple.
#[derive(Clone, Copy, Debug, PartialEq, Eq, Structural)]
pub enum Color {
    Red,
    Green,
    Yellow,
    Blue,
    White,
    Cyan,
    Magenta,
    Custom { red: u8, green: u8, blue: u8 },
}

impl Color {
    /// The red, green and blue channel of a color. Named colors have fixed
    /// channels; a custom color carries its own.
    pub open spec fn rgb(self) -> (u8, u8, u8) {
        match self {
            Color::Red => (255u8, 0u8, 0u8),
            Color::Green => (0u8, 255u8, 0u8),
            Color::Yellow => (255u8, 255u8, 0u8),
            Color::Blue => (0u8, 0u8, 255u8),
            Color::White => (255u8, 255u8, 255u8),
            Color::Cyan => (0u8, 255u8, 255u8),
            Color::Magenta => (255u8, 0u8, 255u8),
            Color::Custom { red, green, blue } => (red, green, blue),
        }
    }
}

/// Resolves a color to its red, green and blue bytes.
pub fn color_to_bytes(color: Color) -> (rgb: (u8, u8, u8))
    ensures
        rgb == color.rgb(),
{
    match color {
        Color::Red => (255, 0, 0),
        Color::Green => (0, 255, 0),
        Color::Yellow => (255, 255, 0),
        Color::Blue => (0, 0, 255),
        Color::White => (255, 255, 255),
        Color::Cyan => (0, 255, 255),
        Color::Magenta => (255, 0, 255),
        Color::Custom { red, green, blue } => (red, green, blue),
    }
}

/// Length of the lit section that sweeps round the light in circling mode.
#[derive(Clone, Copy, Debug, PartialEq, Eq, Structural)]
pub enum CircularLength {
    /// Two LEDs are lit.
    Short,
    /// Four LEDs are lit.
    Long,
    /// Two LEDs are lit, and the next wave starts before the last has ended.
    ShortOverlapping,
    /// Four LEDs are lit, and the next wave starts before the last has ended.
    LongOverlapping,
}

impl CircularLength {
    /// The byte by which the device knows a sweep pattern.
    pub open spec fn code_of(self) -> u8 {
        match self {
            CircularLength::Short => 1u8,
            CircularLength::Long => 2u8,
            CircularLength::ShortOverlapping => 3u8,
            CircularLength::LongOverlapping => 4u8,
        }
    }

    /// The pattern that a code stands for, if it stands for one.
    pub open spec fn from_code(code: u8) -> Option<CircularLength> {
        if code == 1 {
            Some(CircularLength::Short)
        } else if code == 2 {
            Some(CircularLength::Long)
        } else if code == 3 {
            Some(CircularLength::ShortOverlapping)
        } else if code == 4 {
            Some(CircularLength::LongOverlapping)
        } else {
            None
        }
    }

    /// Finds the pattern that a code stands for.
    pub fn with_code(code: u8) -> (pattern: Option<CircularLength>)
        ensures
            pattern == CircularLength::from_code(code),
    {
        if code == 1 {
            Some(CircularLength::Short)
        } else if code == 2 {
            Some(CircularLength::Long)
        } else if code == 3 {
            Some(CircularLength::ShortOverlapping)
        } else if code == 4 {
            Some(CircularLength::LongOverlapping)
        } else {
            None
        }
    }

    /// The byte by which the device knows this sweep pattern.
    pub fn code(self) -> (code: u8)
        ensures
            code == self.code_of(),
            1 <= code <= 4,
    {
        match self {
            CircularLength::Short => 1,
            CircularLength::Long => 2,
            CircularLength::ShortOverlapping => 3,
            CircularLength::LongOverlapping => 4,
        }
    }
}

/// Every pattern is recovered from its code, so no two patterns share one.
pub proof fn lemma_pattern_code_round_trip(pattern: CircularLength)
    ensures
        CircularLength::from_code(pattern.code_of()) == Some(pattern),
{
}

} // verus!
