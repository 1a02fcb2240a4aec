use vstd::prelude::*;

verus! {

/// A picture for the 5x5 LED matrix.
#[derive(Clone, Copy, Debug, PartialEq, Eq, Structural)]
pub enum DisplayFrame {
    /// Waiting for a central to connect.
    QuestionMark,
    /// A central has connected.
    Heart,
    /// The letter of a button that was pressed.
    Letter(char),
    /// The position of the analog stick, each axis a small signed level.
    Coord { x: i8, y: i8 },
}

/// The LED, in a row or column of five, that shows a stick level: the
/// level is held to -2..=2 and counted from the first LED.
pub open spec fn level_led(level: i8) -> int {
    if level < -2 {
        0
    } else if level > 2 {
        4
    } else {
        level + 2
    }
}

/// The LED, in a row or column of five, that shows a stick level.
pub fn led_of_level(level: i8) -> (led: usize)
    ensures
        led == level_led(level),
        led < 5,
{
    if level < -2 {
        0
    } else if level > 2 {
        4
    } else {
        (level + 2) as usize
    }
}

} // verus!
