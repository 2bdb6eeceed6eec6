use vstd::prelude::*;

verus! {

/// QEMU D-Bus mouse button identifiers.
#[derive(Clone, Copy, Debug, Hash, PartialEq, Eq, Structural)]
pub enum Button {
    Left,
    Middle,
    Right,
    WheelUp,
    WheelDown,
    Side,
    Extra,
}

/// The button that an Xorg button code names: 1-3 are the main buttons, 4 and 5 the
/// wheel, 8 and 9 the side buttons; every other code names none.
pub open spec fn spec_from_xorg(button: u32) -> Option<Button> {
    if button == 1 {
        Some(Button::Left)
    } else if button == 2 {
        Some(Button::Middle)
    } else if button == 3 {
        Some(Button::Right)
    } else if button == 4 {
        Some(Button::WheelUp)
    } else if button == 5 {
        Some(Button::WheelDown)
    } else if button == 8 {
        Some(Button::Side)
    } else if button == 9 {
        Some(Button::Extra)
    } else {
        None
    }
}

impl Button {
    /// The numeric code of the button on the wire.
    pub open spec fn spec_wire_code(self) -> u32 {
        match self {
            Button::Left => 0,
            Button::Middle => 1,
            Button::Right => 2,
            Button::WheelUp => 3,
            Button::WheelDown => 4,
            Button::Side => 5,
            Button::Extra => 6,
        }
    }

    /// Returns the numeric code of the button on the wire.
    pub fn wire_code(&self) -> (r: u32)
        ensures
            r == self.spec_wire_code(),
    {
        match *self {
            Button::Left => 0,
            Button::Middle => 1,
            Button::Right => 2,
            Button::WheelUp => 3,
            Button::WheelDown => 4,
            Button::Side => 5,
            Button::Extra => 6,
        }
    }

    /// Converts Xorg button codes to [`Button`].
    pub fn from_xorg(button: u32) -> (r: Option<Button>)
        ensures
            r == spec_from_xorg(button),
    {
        match button {
            1 => Some(Button::Left),
            2 => Some(Button::Middle),
            3 => Some(Button::Right),
            4 => Some(Button::WheelUp),
            5 => Some(Button::WheelDown),
            8 => Some(Button::Side),
            9 => Some(Button::Extra),
            _ => None,
        }
    }
}

} // verus!
