//! The four user switches A, B, X and Y. Each switch connects its GPIO to
//! ground when pressed, and the GPIO is configured as an input with its
//! pull-up enabled: a pressed switch reads low, a released one reads high.
use vstd::prelude::*;

verus! {

/// The user switches on the front of the board.
#[derive(Clone, Copy, Debug, PartialEq, Eq, Structural)]
pub enum Button {
    A,
    B,
    X,
    Y,
}

/// The electrical level read on an input pin.
#[derive(Clone, Copy, Debug, PartialEq, Eq, Structural)]
pub enum PinLevel {
    Low,
    High,
}

impl PinLevel {
    /// The level that corresponds to the answer of a pin's "is low" query.
    pub fn from_is_low(is_low: bool) -> (level: PinLevel)
        ensures
            (level == PinLevel::Low) == is_low,
    {
        if is_low {
            PinLevel::Low
        } else {
            PinLevel::High
        }
    }
}

/// The levels read on the pins of the four switches.
#[derive(Clone, Copy, Debug, PartialEq, Eq, Structural)]
pub struct ButtonLevels {
    pub a: PinLevel,
    pub b: PinLevel,
    pub x: PinLevel,
    pub y: PinLevel,
}

/// The level of the pin that `button` is wired to.
pub open spec fn level_of(levels: ButtonLevels, button: Button) -> PinLevel {
    match button {
        Button::A => levels.a,
        Button::B => levels.b,
        Button::X => levels.x,
        Button::Y => levels.y,
    }
}

/// A switch is pressed exactly when its pin is pulled low.
pub open spec fn pressed(levels: ButtonLevels, button: Button) -> bool {
    level_of(levels, button) == PinLevel::Low
}

/// `levels` with the pin of `button` set to `level`.
pub open spec fn with_level(levels: ButtonLevels, button: Button, level: PinLevel) -> ButtonLevels {
    match button {
        Button::A => ButtonLevels { a: level, ..levels },
        Button::B => ButtonLevels { b: level, ..levels },
        Button::X => ButtonLevels { x: level, ..levels },
        Button::Y => ButtonLevels { y: level, ..levels },
    }
}

impl ButtonLevels {
    /// The level of the pin that `button` is wired to.
    pub fn level(&self, button: Button) -> (level: PinLevel)
        ensures
            level == level_of(*self, button),
    {
        match button {
            Button::A => self.a,
            Button::B => self.b,
            Button::X => self.x,
            Button::Y => self.y,
        }
    }

    /// Whether `button` is held down: its pin reads low.
    pub fn is_pressed(&self, button: Button) -> (down: bool)
        ensures
            down == pressed(*self, button),
            down == (level_of(*self, button) == PinLevel::Low),
    {
        match self.level(button) {
            PinLevel::Low => true,
            PinLevel::High => false,
        }
    }
}

/// Whether a switch reads as pressed depends on its own pin alone: changing
/// the level of another switch's pin leaves the answer unchanged.
pub proof fn lemma_pressed_depends_on_own_pin(
    levels: ButtonLevels,
    button: Button,
    other: Button,
    level: PinLevel,
)
    requires
        other != button,
    ensures
        pressed(with_level(levels, other, level), button) == pressed(levels, button),
{
}

/// Pulling a switch's pin low makes it read as pressed, and letting the
/// pull-up take it high makes it read as released.
pub proof fn lemma_level_decides_pressed(levels: ButtonLevels, button: Button)
    ensures
        pressed(with_level(levels, button, PinLevel::Low), button),
        !pressed(with_level(levels, button, PinLevel::High), button),
{
}

} // verus!
