use crate::color::Color;
use crate::event::{ControlKeyStates, Key};
use crate::text::char_from_u32;
use vstd::prelude::*;

verus! {

// Bits of the control-key state that accompanies native key and mouse records.
pub const RIGHT_ALT_PRESSED: u32 = 0x0001;

pub const LEFT_ALT_PRESSED: u32 = 0x0002;

pub const RIGHT_CTRL_PRESSED: u32 = 0x0004;

pub const LEFT_CTRL_PRESSED: u32 = 0x0008;

pub const SHIFT_PRESSED: u32 = 0x0010;

pub const NUMLOCK_ON: u32 = 0x0020;

pub const SCROLLLOCK_ON: u32 = 0x0040;

pub const CAPSLOCK_ON: u32 = 0x0080;

// Bits of a native character attribute.
pub const FOREGROUND_BLUE: u16 = 0x0001;

pub const FOREGROUND_GREEN: u16 = 0x0002;

pub const FOREGROUND_RED: u16 = 0x0004;

pub const FOREGROUND_INTENSITY: u16 = 0x0008;

pub const BACKGROUND_BLUE: u16 = 0x0010;

pub const BACKGROUND_GREEN: u16 = 0x0020;

pub const BACKGROUND_RED: u16 = 0x0040;

pub const BACKGROUND_INTENSITY: u16 = 0x0080;

// Virtual-key codes of the named keys.
pub const VK_BACK: u16 = 0x08;

pub const VK_TAB: u16 = 0x09;

pub const VK_RETURN: u16 = 0x0D;

pub const VK_SHIFT: u16 = 0x10;

pub const VK_CAPITAL: u16 = 0x14;

pub const VK_ESCAPE: u16 = 0x1B;

pub const VK_PRIOR: u16 = 0x21;

pub const VK_NEXT: u16 = 0x22;

pub const VK_END: u16 = 0x23;

pub const VK_HOME: u16 = 0x24;

pub const VK_LEFT: u16 = 0x25;

pub const VK_UP: u16 = 0x26;

pub const VK_RIGHT: u16 = 0x27;

pub const VK_DOWN: u16 = 0x28;

pub const VK_SNAPSHOT: u16 = 0x2C;

pub const VK_INSERT: u16 = 0x2D;

pub const VK_DELETE: u16 = 0x2E;

/// Virtual-key code of F1; the codes of F2 to F24 follow it without a gap.
pub const VK_F1: u16 = 0x70;

pub const VK_F24: u16 = 0x87;

pub const VK_NUMLOCK: u16 = 0x90;

/// Virtual-key codes of the letter keys: the codes of `'A'` and `'Z'`.
pub const VK_A: u16 = 0x41;

pub const VK_Z: u16 = 0x5A;

/// A native keyboard record, as plain values.
#[derive(Clone, Copy, Debug, PartialEq, Eq, Structural)]
pub struct KeyEventRecord {
    /// Whether the key went down (`true`) or up.
    pub key_down: bool,
    /// How many times the key is reported at once while it is held.
    pub repeat_count: u16,
    pub virtual_key_code: u16,
    /// The UTF-16 unit the key produced, or 0 where it produced none.
    pub unicode_char: u16,
    /// Bits of the lock and modifier keys.
    pub control_key_state: u32,
}

/// What the bits of a native control-key state mean.
pub open spec fn control_key_states_spec(flags: u32) -> ControlKeyStates {
    ControlKeyStates {
        capslock: flags & CAPSLOCK_ON != 0,
        numlock: flags & NUMLOCK_ON != 0,
        scrolllock: flags & SCROLLLOCK_ON != 0,
        shift: flags & SHIFT_PRESSED != 0,
        left_alt: flags & LEFT_ALT_PRESSED != 0,
        right_alt: flags & RIGHT_ALT_PRESSED != 0,
        left_ctrl: flags & LEFT_CTRL_PRESSED != 0,
        right_ctrl: flags & RIGHT_CTRL_PRESSED != 0,
    }
}

/// Decodes the bits of a native control-key state.
pub fn get_control_key_states(flags: u32) -> (states: ControlKeyStates)
    ensures
        states == control_key_states_spec(flags),
{
    ControlKeyStates {
        capslock: (flags & CAPSLOCK_ON) != 0,
        numlock: (flags & NUMLOCK_ON) != 0,
        scrolllock: (flags & SCROLLLOCK_ON) != 0,
        shift: (flags & SHIFT_PRESSED) != 0,
        left_alt: (flags & LEFT_ALT_PRESSED) != 0,
        right_alt: (flags & RIGHT_ALT_PRESSED) != 0,
        left_ctrl: (flags & LEFT_CTRL_PRESSED) != 0,
        right_ctrl: (flags & RIGHT_CTRL_PRESSED) != 0,
    }
}

/// The named key of a virtual-key code, if it has one.
pub open spec fn named_key_spec(code: u16) -> Option<Key> {
    if code == VK_BACK {
        Some(Key::Backspace)
    } else if code == VK_TAB {
        Some(Key::Tab)
    } else if code == VK_RETURN {
        Some(Key::Enter)
    } else if code == VK_SHIFT {
        Some(Key::Shift)
    } else if code == VK_CAPITAL {
        Some(Key::CapsLock)
    } else if code == VK_NUMLOCK {
        Some(Key::NumLock)
    } else if code == VK_ESCAPE {
        Some(Key::Escape)
    } else if code == VK_PRIOR {
        Some(Key::PageUp)
    } else if code == VK_NEXT {
        Some(Key::PageDown)
    } else if code == VK_HOME {
        Some(Key::Home)
    } else if code == VK_END {
        Some(Key::End)
    } else if code == VK_DELETE {
        Some(Key::Delete)
    } else if code == VK_INSERT {
        Some(Key::Insert)
    } else if code == VK_LEFT {
        Some(Key::Left)
    } else if code == VK_RIGHT {
        Some(Key::Right)
    } else if code == VK_UP {
        Some(Key::Up)
    } else if code == VK_DOWN {
        Some(Key::Down)
    } else if code == VK_SNAPSHOT {
        Some(Key::PrintScreen)
    } else if VK_F1 <= code <= VK_F24 {
        Some(Key::Function((code - VK_F1 + 1) as u8))
    } else {
        None
    }
}

/// Whether Ctrl or Alt, on either side, is held according to the bits.
pub open spec fn ctrl_or_alt_held(flags: u32) -> bool {
    flags & (LEFT_CTRL_PRESSED | RIGHT_CTRL_PRESSED | LEFT_ALT_PRESSED | RIGHT_ALT_PRESSED) != 0
}

/// The UTF-16 unit that a key record stands for.
///
/// With Ctrl or Alt held the native character of a letter key is a control
/// code, so the letter is taken from the key itself: upper case with Shift,
/// lower case without. Every other record stands for its native character.
pub open spec fn typed_unit_spec(record: KeyEventRecord) -> u16 {
    if ctrl_or_alt_held(record.control_key_state) && VK_A <= record.virtual_key_code <= VK_Z {
        if record.control_key_state & SHIFT_PRESSED != 0 {
            record.virtual_key_code
        } else {
            (record.virtual_key_code + 32) as u16
        }
    } else {
        record.unicode_char
    }
}

/// Whether a UTF-16 unit is one half of a surrogate pair, and so no character
/// by itself.
pub open spec fn is_surrogate(unit: u16) -> bool {
    0xD800 <= unit <= 0xDFFF
}

/// The key that a native keyboard record reports.
///
/// A named key wins over any character. Otherwise a record without a
/// character, or with half a surrogate pair, reports no key.
pub open spec fn key_spec(record: KeyEventRecord) -> Option<Key> {
    match named_key_spec(record.virtual_key_code) {
        Some(key) => Some(key),
        None => {
            if record.unicode_char == 0 || is_surrogate(typed_unit_spec(record)) {
                None
            } else {
                Some(Key::CharKey(typed_unit_spec(record) as char))
            }
        },
    }
}

fn named_key(code: u16) -> (key: Option<Key>)
    ensures
        key == named_key_spec(code),
{
    if code == VK_BACK {
        Some(Key::Backspace)
    } else if code == VK_TAB {
        Some(Key::Tab)
    } else if code == VK_RETURN {
        Some(Key::Enter)
    } else if code == VK_SHIFT {
        Some(Key::Shift)
    } else if code == VK_CAPITAL {
        Some(Key::CapsLock)
    } else if code == VK_NUMLOCK {
        Some(Key::NumLock)
    } else if code == VK_ESCAPE {
        Some(Key::Escape)
    } else if code == VK_PRIOR {
        Some(Key::PageUp)
    } else if code == VK_NEXT {
        Some(Key::PageDown)
    } else if code == VK_HOME {
        Some(Key::Home)
    } else if code == VK_END {
        Some(Key::End)
    } else if code == VK_DELETE {
        Some(Key::Delete)
    } else if code == VK_INSERT {
        Some(Key::Insert)
    } else if code == VK_LEFT {
        Some(Key::Left)
    } else if code == VK_RIGHT {
        Some(Key::Right)
    } else if code == VK_UP {
        Some(Key::Up)
    } else if code == VK_DOWN {
        Some(Key::Down)
    } else if code == VK_SNAPSHOT {
        Some(Key::PrintScreen)
    } else if VK_F1 <= code && code <= VK_F24 {
        Some(Key::Function((code - VK_F1 + 1) as u8))
    } else {
        None
    }
}

/// Finds the key that a native keyboard record reports.
pub fn get_key(event: &KeyEventRecord) -> (key: Option<Key>)
    ensures
        key == key_spec(*event),
{
    match named_key(event.virtual_key_code) {
        Some(key) => Some(key),
        None => {
            if event.unicode_char == 0 {
                None
            } else {
                let held: u32 = event.control_key_state & (LEFT_CTRL_PRESSED | RIGHT_CTRL_PRESSED
                    | LEFT_ALT_PRESSED | RIGHT_ALT_PRESSED);
                let unit: u16 = if held != 0 {
                    if VK_A <= event.virtual_key_code && event.virtual_key_code <= VK_Z {
                        if (event.control_key_state & SHIFT_PRESSED) != 0 {
                            event.virtual_key_code
                        } else {
                            event.virtual_key_code + 32
                        }
                    } else {
                        event.unicode_char
                    }
                } else {
                    event.unicode_char
                };
                match char_from_u32(unit as u32) {
                    Some(ch) => Some(Key::CharKey(ch)),
                    None => None,
                }
            }
        },
    }
}

/// Every key that a keyboard record reports is one that a keyboard has.
pub proof fn reported_keys_are_valid(record: KeyEventRecord)
    ensures
        match key_spec(record) {
            Some(key) => key.is_valid_spec(),
            None => true,
        },
{
}

/// The native attribute bits that paint text in a color.
pub open spec fn foreground_attributes_spec(color: Color) -> u16 {
    match color {
        Color::Black => 0x0,
        Color::Blue => 0x1,
        Color::Green => 0x2,
        Color::Cyan => 0x3,
        Color::Red => 0x4,
        Color::Magenta => 0x5,
        Color::Brown => 0x6,
        Color::LightGray => 0x7,
        Color::DarkGray => 0x8,
        Color::LightBlue => 0x9,
        Color::LightGreen => 0xA,
        Color::LightCyan => 0xB,
        Color::LightRed => 0xC,
        Color::LightMagenta => 0xD,
        Color::Yellow => 0xE,
        Color::White => 0xF,
    }
}

/// The native attribute bits that paint the background in a color: those of
/// the foreground, four bits higher.
pub open spec fn background_attributes_spec(color: Color) -> u16 {
    (16 * foreground_attributes_spec(color)) as u16
}

/// Maps a color to the native attribute bits of a background in that color.
pub fn color_to_background_attributes(color: Color) -> (attributes: u16)
    ensures
        attributes == background_attributes_spec(color),
{
    match color {
        Color::Black => 0,
        Color::Blue => BACKGROUND_BLUE,
        Color::Green => BACKGROUND_GREEN,
        Color::Cyan => 0x30,
        Color::Red => BACKGROUND_RED,
        Color::Magenta => 0x50,
        Color::Brown => 0x60,
        Color::LightGray => 0x70,
        Color::DarkGray => BACKGROUND_INTENSITY,
        Color::LightBlue => 0x90,
        Color::LightGreen => 0xA0,
        Color::LightCyan => 0xB0,
        Color::LightRed => 0xC0,
        Color::LightMagenta => 0xD0,
        Color::Yellow => 0xE0,
        Color::White => 0xF0,
    }
}

/// Maps a color to the native attribute bits of text in that color.
pub fn color_to_foreground_attributes(color: Color) -> (attributes: u16)
    ensures
        attributes == foreground_attributes_spec(color),
{
    match color {
        Color::Black => 0,
        Color::Blue => FOREGROUND_BLUE,
        Color::Green => FOREGROUND_GREEN,
        Color::Cyan => 0x3,
        Color::Red => FOREGROUND_RED,
        Color::Magenta => 0x5,
        Color::Brown => 0x6,
        Color::LightGray => 0x7,
        Color::DarkGray => FOREGROUND_INTENSITY,
        Color::LightBlue => 0x9,
        Color::LightGreen => 0xA,
        Color::LightCyan => 0xB,
        Color::LightRed => 0xC,
        Color::LightMagenta => 0xD,
        Color::Yellow => 0xE,
        Color::White => 0xF,
    }
}

/// No two colors share their foreground attribute bits.
pub proof fn foreground_attributes_are_distinct(a: Color, b: Color)
    requires
        foreground_attributes_spec(a) == foreground_attributes_spec(b),
    ensures
        a == b,
{
}

/// No two colors share their background attribute bits.
pub proof fn background_attributes_are_distinct(a: Color, b: Color)
    requires
        background_attributes_spec(a) == background_attributes_spec(b),
    ensures
        a == b,
{
}

/// Foreground and background bits never overlap, so the pair of colors can be
/// read back from their sum.
pub proof fn attribute_pairs_are_distinct(
    background: Color,
    foreground: Color,
    other_background: Color,
    other_foreground: Color,
)
    requires
        background_attributes_spec(background) + foreground_attributes_spec(foreground)
            == background_attributes_spec(other_background) + foreground_attributes_spec(
            other_foreground,
        ),
    ensures
        background == other_background,
        foreground == other_foreground,
{
}

} // verus!
