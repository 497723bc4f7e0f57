//! Buttons on a device and the events that concern them.
use vstd::prelude::*;

verus! {

/// Represents a button on an Insteon device.
#[derive(Clone, Copy, Debug, PartialEq, Eq, Hash, Structural)]
pub enum Button {
    /// The SET button.
    SetButton,
    /// A secondary button.
    Two,
    /// A tertiary button.
    Three,
}

/// An event related to buttons on a device.
#[derive(Clone, Copy, Debug, PartialEq, Eq, Hash, Structural)]
pub enum ButtonEvent {
    /// The button was tapped.
    Tapped(Button),
    /// The button was held.
    Held(Button),
    /// The button was held and released.
    Released(Button),
}

/// The button event that a code byte selects: the high nibble picks the button
/// (0 for SET, 1 for two, 2 for three), the low nibble the event (2 tapped,
/// 3 held, 4 released).
pub open spec fn button_event_from_code(code: u8) -> Option<ButtonEvent> {
    match code {
        0x02 => Some(ButtonEvent::Tapped(Button::SetButton)),
        0x03 => Some(ButtonEvent::Held(Button::SetButton)),
        0x04 => Some(ButtonEvent::Released(Button::SetButton)),
        0x12 => Some(ButtonEvent::Tapped(Button::Two)),
        0x13 => Some(ButtonEvent::Held(Button::Two)),
        0x14 => Some(ButtonEvent::Released(Button::Two)),
        0x22 => Some(ButtonEvent::Tapped(Button::Three)),
        0x23 => Some(ButtonEvent::Held(Button::Three)),
        0x24 => Some(ButtonEvent::Released(Button::Three)),
        _ => None,
    }
}

impl ButtonEvent {
    /// Looks up the button event that a code byte selects.
    pub fn from_code(code: u8) -> (r: Option<ButtonEvent>)
        ensures
            r == button_event_from_code(code),
    {
        match code {
            0x02 => Some(ButtonEvent::Tapped(Button::SetButton)),
            0x03 => Some(ButtonEvent::Held(Button::SetButton)),
            0x04 => Some(ButtonEvent::Released(Button::SetButton)),
            0x12 => Some(ButtonEvent::Tapped(Button::Two)),
            0x13 => Some(ButtonEvent::Held(Button::Two)),
            0x14 => Some(ButtonEvent::Released(Button::Two)),
            0x22 => Some(ButtonEvent::Tapped(Button::Three)),
            0x23 => Some(ButtonEvent::Held(Button::Three)),
            0x24 => Some(ButtonEvent::Released(Button::Three)),
            _ => None,
        }
    }
}

} // verus!
