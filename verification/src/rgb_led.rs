//! The colour of the indicator light.
//!
//! The light shows one of six colours. Which one is decided either by the
//! measured range, in bands of twenty centimetres, or by a cycle that steps
//! through all six.

use vstd::prelude::*;
use crate::schedule::Delay;

verus! {

/// The width of one colour band, in centimetres.
pub const BAND_WIDTH_CM: u32 = 20;

/// The six colours of the indicator light, from near to far.
#[derive(Clone, Copy, Debug, PartialEq, Eq, Structural)]
pub enum SixColor {
    Red,
    Yellow,
    Green,
    Cyan,
    Blue,
    Magenta,
}

/// What a task of the indicator light asks of the hardware and of the
/// scheduler.
#[derive(Clone, Copy, Debug, PartialEq, Eq, Structural)]
pub struct LightStep {
    /// The colour to show.
    pub color: SixColor,
    /// When the task is to run again.
    pub again_after: Delay,
}

/// The colour at a place of the sequence red, yellow, green, cyan, blue,
/// magenta. Places count from zero, and every place from five on is magenta.
pub open spec fn color_at(place: int) -> SixColor {
    if place <= 0 {
        SixColor::Red
    } else if place == 1 {
        SixColor::Yellow
    } else if place == 2 {
        SixColor::Green
    } else if place == 3 {
        SixColor::Cyan
    } else if place == 4 {
        SixColor::Blue
    } else {
        SixColor::Magenta
    }
}

/// The colour that stands for a range in whole centimetres: one colour for
/// each band of twenty centimetres, and magenta from a metre on.
pub open spec fn color_of_range(range: u32) -> SixColor {
    color_at(range as int / BAND_WIDTH_CM as int)
}

impl SixColor {
    /// Which of the red, green and blue parts of the light are lit to show
    /// the colour.
    pub open spec fn lit(self) -> (bool, bool, bool) {
        match self {
            SixColor::Red => (true, false, false),
            SixColor::Yellow => (true, true, false),
            SixColor::Green => (false, true, false),
            SixColor::Cyan => (false, true, true),
            SixColor::Blue => (false, false, true),
            SixColor::Magenta => (true, false, true),
        }
    }

    /// Which of the red, green and blue parts of the light are to be lit to
    /// show the colour.
    pub fn channels(self) -> (lit: (bool, bool, bool))
        ensures
            lit == self.lit(),
    {
        match self {
            SixColor::Red => (true, false, false),
            SixColor::Yellow => (true, true, false),
            SixColor::Green => (false, true, false),
            SixColor::Cyan => (false, true, true),
            SixColor::Blue => (false, false, true),
            SixColor::Magenta => (true, false, true),
        }
    }
}

/// Picks the colour for a range in whole centimetres, and asks to run again
/// in a tenth of a second.
pub fn set_light_from_range(range: u32) -> (step: LightStep)
    ensures
        step.color == color_of_range(range),
        step.again_after == Delay::Millis(100),
{
    let color = match range {
        0..=19 => SixColor::Red,
        20..=39 => SixColor::Yellow,
        40..=59 => SixColor::Green,
        60..=79 => SixColor::Cyan,
        80..=99 => SixColor::Blue,
        _ => SixColor::Magenta,
    };
    LightStep { color, again_after: Delay::Millis(100) }
}

/// A cycle through the six colours, one step a second.
pub struct DiscoMode {
    counter: u32,
}

impl DiscoMode {
    #[verifier::type_invariant]
    spec fn within_cycle(self) -> bool {
        self.counter <= 5
    }

    /// The place in the sequence of colours of the next colour to show.
    pub closed spec fn place(self) -> int {
        self.counter as int
    }

    /// A cycle that is about to show the first colour.
    pub fn new() -> (disco: DiscoMode)
        ensures
            disco.place() == 0,
    {
        DiscoMode { counter: 0 }
    }

    /// Shows the next colour of the sequence, starting over after the last,
    /// and asks to run again in a second.
    pub fn step(&mut self) -> (step: LightStep)
        ensures
            0 <= old(self).place() <= 5,
            step.color == color_at(old(self).place()),
            step.again_after == Delay::Secs(1),
            final(self).place() == (old(self).place() + 1) % 6,
    {
        proof {
            use_type_invariant(&*self);
        }
        let count: u32 = self.counter + 1;
        let color = match count {
            1 => SixColor::Red,
            2 => SixColor::Yellow,
            3 => SixColor::Green,
            4 => SixColor::Cyan,
            5 => SixColor::Blue,
            _ => SixColor::Magenta,
        };
        self.counter = if count <= 5 { count } else { 0 };
        LightStep { color, again_after: Delay::Secs(1) }
    }
}

} // verus!
