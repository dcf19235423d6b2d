use vstd::prelude::*;

verus! {

/// Snapshot of the lock and modifier keys that accompanies keyboard and mouse
/// events.
#[derive(Clone, Copy, Debug, PartialEq, Eq, Structural)]
pub struct ControlKeyStates {
    pub capslock: bool,
    pub numlock: bool,
    pub scrolllock: bool,
    pub shift: bool,
    pub left_alt: bool,
    pub right_alt: bool,
    pub left_ctrl: bool,
    pub right_ctrl: bool,
}

impl ControlKeyStates {
    pub open spec fn alt_spec(&self) -> bool {
        self.left_alt || self.right_alt
    }

    pub open spec fn ctrl_spec(&self) -> bool {
        self.left_ctrl || self.right_ctrl
    }

    /// Whether either Alt key is held.
    #[verifier::when_used_as_spec(alt_spec)]
    pub fn alt(&self) -> (held: bool)
        ensures
            held == (self.left_alt || self.right_alt),
    {
        self.left_alt || self.right_alt
    }

    /// Whether either Ctrl key is held.
    #[verifier::when_used_as_spec(ctrl_spec)]
    pub fn ctrl(&self) -> (held: bool)
        ensures
            held == (self.left_ctrl || self.right_ctrl),
    {
        self.left_ctrl || self.right_ctrl
    }
}

/// A key of the keyboard: a character, or one of the named control keys.
#[derive(Clone, Copy, Debug, PartialEq, Eq, Structural)]
pub enum Key {
    CharKey(char),
    Backspace,
    Tab,
    Enter,
    Shift,
    CapsLock,
    NumLock,
    Escape,
    PageUp,
    PageDown,
    Home,
    End,
    Delete,
    Insert,
    Left,
    Right,
    Up,
    Down,
    PrintScreen,
    /// A function key, `Function(1)` to `Function(24)`.
    Function(u8),
}

impl Key {
    /// Whether the key is one that a keyboard has: function keys are
    /// numbered from 1 to 24.
    pub open spec fn is_valid_spec(self) -> bool {
        match self {
            Key::Function(number) => 1 <= number <= 24,
            _ => true,
        }
    }

    /// Whether the key is one that a keyboard has.
    #[verifier::when_used_as_spec(is_valid_spec)]
    pub fn is_valid(self) -> (valid: bool)
        ensures
            valid == self.is_valid_spec(),
    {
        match self {
            Key::Function(number) => 1 <= number && number <= 24,
            _ => true,
        }
    }
}

/// An input event, the same on every platform.
#[derive(Clone, Copy, Debug, PartialEq, Eq, Structural)]
pub enum Event {
    KeyPressed { key: Key, control_key_state: ControlKeyStates },
    KeyReleased { key: Key, control_key_state: ControlKeyStates },
    MouseButtonStateChange {
        x: i16,
        y: i16,
        left_button: bool,
        right_button: bool,
        control_key_state: ControlKeyStates,
    },
    MouseDoubleClick {
        x: i16,
        y: i16,
        left_button: bool,
        right_button: bool,
        control_key_state: ControlKeyStates,
    },
    MouseHorizontalWheel { x: i16, y: i16, amount: i16, control_key_state: ControlKeyStates },
    MouseWheel { x: i16, y: i16, amount: i16, control_key_state: ControlKeyStates },
    MouseMove { x: i16, y: i16, control_key_state: ControlKeyStates },
    Resize { width: u16, height: u16 },
}

} // verus!
