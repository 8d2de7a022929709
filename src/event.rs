use vstd::prelude::*;

verus! {

#[verifier::external_type_specification]
#[verifier::external_body]
pub struct ExKeycode(device_query::Keycode);

/// A pointer button, as the hook subsystem numbers it.
pub type MouseButton = usize;

/// One input event, of one of three kinds.
#[derive(Debug, Clone, Copy, PartialEq, Eq)]
pub enum InputEvent {
    KB(device_query::Keycode),
    MouseButton(MouseButton),
    MouseMovement,
}

impl Default for InputEvent {
    /// A pointer movement: the value used where an event must exist before real data does.
    fn default() -> (r: Self)
        ensures
            r == InputEvent::MouseMovement,
    {
        InputEvent::MouseMovement
    }
}

/// An input event, or the placeholder that no capture ever produces.
#[derive(Debug, Clone, Copy, PartialEq, Eq)]
pub enum PotentialInputEvent {
    InputEvent(InputEvent),
    Dummy,
}

impl Default for PotentialInputEvent {
    /// The placeholder.
    fn default() -> (r: Self)
        ensures
            r == PotentialInputEvent::Dummy,
    {
        PotentialInputEvent::Dummy
    }
}

impl InputEvent {
    /// The event that the key-down hook reports for `code`.
    pub fn from_key(code: &device_query::Keycode) -> (r: InputEvent)
        ensures
            r == InputEvent::KB(*code),
    {
        InputEvent::KB(*code)
    }

    /// The event that the button-down hook reports for `button`.
    pub fn from_button(button: &MouseButton) -> (r: InputEvent)
        ensures
            r == InputEvent::MouseButton(*button),
    {
        InputEvent::MouseButton(*button)
    }

    /// The event that the movement hook reports: the position is not kept.
    pub fn from_movement(_position: &(i32, i32)) -> (r: InputEvent)
        ensures
            r == InputEvent::MouseMovement,
    {
        InputEvent::MouseMovement
    }
}

impl PotentialInputEvent {
    /// The event held, or `None` for the placeholder.
    pub fn input_event(&self) -> (r: Option<InputEvent>)
        ensures
            r == (match *self {
                PotentialInputEvent::InputEvent(e) => Some(e),
                PotentialInputEvent::Dummy => None,
            }),
    {
        match self {
            PotentialInputEvent::InputEvent(e) => Some(*e),
            PotentialInputEvent::Dummy => None,
        }
    }
}

} // verus!
