//! Decoding what a POSIX terminal sends: keys, and mouse reports in the
//! SGR format that the consoles switch on.
//!
//! A terminal reports a named key by an escape sequence of its family, a
//! typed character by the character itself, and the mouse by
//! `ESC [ < button ; column ; row M` for a press or a movement and the same
//! with a final `m` for a release. Decoding takes the text that was read and
//! yields the first event in it and how many characters that event took.

use crate::event::{ControlKeyStates, Event, Key};
use crate::text::{
    char_from_u32, chars_of, matches_at, occurs_at, split, split_spec, texts_of,
};
use crate::unix::sequences::TerminalFamily;
use vstd::prelude::*;

verus! {

impl TerminalFamily {
    /// The sequences of the named keys of the family, with a space between
    /// every two, in the order of [`named_key_spec`]: F1 to F12, Insert,
    /// Delete, Home, End, PageUp, PageDown, Up, Down, Left, Right.
    pub open spec fn key_sequences_spec(self) -> Seq<char> {
        match self {
            TerminalFamily::Rxvt256Color =>
                "\x1b[11~ \x1b[12~ \x1b[13~ \x1b[14~ \x1b[15~ \x1b[17~ \x1b[18~ \x1b[19~ \x1b[20~ \x1b[21~ \x1b[23~ \x1b[24~ \x1b[2~ \x1b[3~ \x1b[7~ \x1b[8~ \x1b[5~ \x1b[6~ \x1b[A \x1b[B \x1b[D \x1b[C"@,
            TerminalFamily::Eterm =>
                "\x1b[11~ \x1b[12~ \x1b[13~ \x1b[14~ \x1b[15~ \x1b[17~ \x1b[18~ \x1b[19~ \x1b[20~ \x1b[21~ \x1b[23~ \x1b[24~ \x1b[2~ \x1b[3~ \x1b[7~ \x1b[8~ \x1b[5~ \x1b[6~ \x1b[A \x1b[B \x1b[D \x1b[C"@,
            TerminalFamily::Screen =>
                "\x1bOP \x1bOQ \x1bOR \x1bOS \x1b[15~ \x1b[17~ \x1b[18~ \x1b[19~ \x1b[20~ \x1b[21~ \x1b[23~ \x1b[24~ \x1b[2~ \x1b[3~ \x1b[1~ \x1b[4~ \x1b[5~ \x1b[6~ \x1bOA \x1bOB \x1bOD \x1bOC"@,
            TerminalFamily::RxvtUnicode =>
                "\x1b[11~ \x1b[12~ \x1b[13~ \x1b[14~ \x1b[15~ \x1b[17~ \x1b[18~ \x1b[19~ \x1b[20~ \x1b[21~ \x1b[23~ \x1b[24~ \x1b[2~ \x1b[3~ \x1b[7~ \x1b[8~ \x1b[5~ \x1b[6~ \x1b[A \x1b[B \x1b[D \x1b[C"@,
            TerminalFamily::Linux =>
                "\x1b[[A \x1b[[B \x1b[[C \x1b[[D \x1b[[E \x1b[17~ \x1b[18~ \x1b[19~ \x1b[20~ \x1b[21~ \x1b[23~ \x1b[24~ \x1b[2~ \x1b[3~ \x1b[1~ \x1b[4~ \x1b[5~ \x1b[6~ \x1b[A \x1b[B \x1b[D \x1b[C"@,
            TerminalFamily::Xterm =>
                "\x1bOP \x1bOQ \x1bOR \x1bOS \x1b[15~ \x1b[17~ \x1b[18~ \x1b[19~ \x1b[20~ \x1b[21~ \x1b[23~ \x1b[24~ \x1b[2~ \x1b[3~ \x1bOH \x1bOF \x1b[5~ \x1b[6~ \x1bOA \x1bOB \x1bOD \x1bOC"@,
        }
    }

    /// The sequences of the named keys of the family, with a space between
    /// every two.
    pub fn key_sequences(self) -> (sequences: &'static str)
        ensures
            sequences@ == self.key_sequences_spec(),
    {
        match self {
            TerminalFamily::Rxvt256Color =>
                "\x1b[11~ \x1b[12~ \x1b[13~ \x1b[14~ \x1b[15~ \x1b[17~ \x1b[18~ \x1b[19~ \x1b[20~ \x1b[21~ \x1b[23~ \x1b[24~ \x1b[2~ \x1b[3~ \x1b[7~ \x1b[8~ \x1b[5~ \x1b[6~ \x1b[A \x1b[B \x1b[D \x1b[C",
            TerminalFamily::Eterm =>
                "\x1b[11~ \x1b[12~ \x1b[13~ \x1b[14~ \x1b[15~ \x1b[17~ \x1b[18~ \x1b[19~ \x1b[20~ \x1b[21~ \x1b[23~ \x1b[24~ \x1b[2~ \x1b[3~ \x1b[7~ \x1b[8~ \x1b[5~ \x1b[6~ \x1b[A \x1b[B \x1b[D \x1b[C",
            TerminalFamily::Screen =>
                "\x1bOP \x1bOQ \x1bOR \x1bOS \x1b[15~ \x1b[17~ \x1b[18~ \x1b[19~ \x1b[20~ \x1b[21~ \x1b[23~ \x1b[24~ \x1b[2~ \x1b[3~ \x1b[1~ \x1b[4~ \x1b[5~ \x1b[6~ \x1bOA \x1bOB \x1bOD \x1bOC",
            TerminalFamily::RxvtUnicode =>
                "\x1b[11~ \x1b[12~ \x1b[13~ \x1b[14~ \x1b[15~ \x1b[17~ \x1b[18~ \x1b[19~ \x1b[20~ \x1b[21~ \x1b[23~ \x1b[24~ \x1b[2~ \x1b[3~ \x1b[7~ \x1b[8~ \x1b[5~ \x1b[6~ \x1b[A \x1b[B \x1b[D \x1b[C",
            TerminalFamily::Linux =>
                "\x1b[[A \x1b[[B \x1b[[C \x1b[[D \x1b[[E \x1b[17~ \x1b[18~ \x1b[19~ \x1b[20~ \x1b[21~ \x1b[23~ \x1b[24~ \x1b[2~ \x1b[3~ \x1b[1~ \x1b[4~ \x1b[5~ \x1b[6~ \x1b[A \x1b[B \x1b[D \x1b[C",
            TerminalFamily::Xterm =>
                "\x1bOP \x1bOQ \x1bOR \x1bOS \x1b[15~ \x1b[17~ \x1b[18~ \x1b[19~ \x1b[20~ \x1b[21~ \x1b[23~ \x1b[24~ \x1b[2~ \x1b[3~ \x1bOH \x1bOF \x1b[5~ \x1b[6~ \x1bOA \x1bOB \x1bOD \x1bOC",
        }
    }

    /// The sequences of the named keys of the family, one by one.
    pub open spec fn key_table_spec(self) -> Seq<Seq<char>> {
        split_spec(self.key_sequences_spec(), ' ')
    }
}

/// How many named keys a terminal reports by a sequence.
pub const NAMED_KEYS: usize = 22;

/// The named key at a position of a family's key table.
pub open spec fn named_key_spec(index: int) -> Key {
    if index < 12 {
        Key::Function((index + 1) as u8)
    } else if index == 12 {
        Key::Insert
    } else if index == 13 {
        Key::Delete
    } else if index == 14 {
        Key::Home
    } else if index == 15 {
        Key::End
    } else if index == 16 {
        Key::PageUp
    } else if index == 17 {
        Key::PageDown
    } else if index == 18 {
        Key::Up
    } else if index == 19 {
        Key::Down
    } else if index == 20 {
        Key::Left
    } else {
        Key::Right
    }
}

fn named_key(index: usize) -> (key: Key)
    requires
        index < NAMED_KEYS,
    ensures
        key == named_key_spec(index as int),
{
    if index < 12 {
        Key::Function((index + 1) as u8)
    } else if index == 12 {
        Key::Insert
    } else if index == 13 {
        Key::Delete
    } else if index == 14 {
        Key::Home
    } else if index == 15 {
        Key::End
    } else if index == 16 {
        Key::PageUp
    } else if index == 17 {
        Key::PageDown
    } else if index == 18 {
        Key::Up
    } else if index == 19 {
        Key::Down
    } else if index == 20 {
        Key::Left
    } else {
        Key::Right
    }
}

/// Whether the input starts with the sequence at a position of the table.
pub open spec fn starts_with_key(table: Seq<Seq<char>>, input: Seq<char>, index: int) -> bool {
    0 <= index < table.len() && index < NAMED_KEYS && table[index].len() > 0 && occurs_at(
        input,
        table[index],
        0,
    )
}

/// The first position of the table, from `from` on, whose sequence the input
/// starts with.
pub open spec fn first_key_from(table: Seq<Seq<char>>, input: Seq<char>, from: int) -> Option<int>
    decreases NAMED_KEYS - from,
{
    if from < 0 || from >= NAMED_KEYS || from >= table.len() {
        None
    } else if starts_with_key(table, input, from) {
        Some(from)
    } else {
        first_key_from(table, input, from + 1)
    }
}

/// No lock and no modifier key.
pub open spec fn no_control_keys() -> ControlKeyStates {
    ControlKeyStates {
        capslock: false,
        numlock: false,
        scrolllock: false,
        shift: false,
        left_alt: false,
        right_alt: false,
        left_ctrl: false,
        right_ctrl: false,
    }
}

/// The named key that the input starts with, and the length of its
/// sequence.
pub open spec fn named_key_at_start(family: TerminalFamily, input: Seq<char>) -> Option<(Key, int)> {
    match first_key_from(family.key_table_spec(), input, 0) {
        Some(index) => Some((named_key_spec(index), family.key_table_spec()[index].len() as int)),
        None => None,
    }
}

/// Whether a character is a decimal digit.
pub open spec fn is_digit(ch: char) -> bool {
    '0' <= ch <= '9'
}

/// How many digits stand in a row from position `at` on.
pub open spec fn digits_at(input: Seq<char>, at: int) -> nat
    decreases input.len() - at,
{
    if 0 <= at < input.len() && is_digit(input[at]) {
        1 + digits_at(input, at + 1)
    } else {
        0
    }
}

/// The number that the `count` digits from position `at` on spell.
pub open spec fn value_of(input: Seq<char>, at: int, count: nat) -> nat
    decreases count,
{
    if count == 0 {
        0
    } else {
        10 * value_of(input, at, (count - 1) as nat) + (input[at + count - 1] as nat - 48) as nat
    }
}

/// The number that starts at position `at`, and the position behind it: one
/// to five digits, and no digit after them.
pub open spec fn number_at(input: Seq<char>, at: int) -> Option<(nat, int)> {
    let count = digits_at(input, at);
    if 1 <= count <= 5 {
        Some((value_of(input, at, count), at + count))
    } else {
        None
    }
}

/// A mouse report as the terminal sends it.
#[derive(Clone, Copy, Debug, PartialEq, Eq, Structural)]
pub struct MouseReport {
    /// The button and what it did, with the modifier keys held, as one
    /// number.
    pub button: u32,
    /// The column, counted from 1.
    pub column: u32,
    /// The row, counted from 1.
    pub row: u32,
    /// Whether the report ends in `M`: a press or a movement, not a release.
    pub pressed: bool,
}

/// Whether the character at a position is the given one.
pub open spec fn has_char(input: Seq<char>, at: int, ch: char) -> bool {
    0 <= at < input.len() && input[at] == ch
}

/// The mouse report that the input starts with, and its length.
pub open spec fn mouse_report_at_start(input: Seq<char>) -> Option<(MouseReport, int)> {
    if has_char(input, 0, '\u{1b}') && has_char(input, 1, '[') && has_char(input, 2, '<') {
        match number_at(input, 3) {
            Some((button, after_button)) => if has_char(input, after_button, ';') {
                match number_at(input, after_button + 1) {
                    Some((column, after_column)) => if has_char(input, after_column, ';') {
                        match number_at(input, after_column + 1) {
                            Some((row, after_row)) => if has_char(input, after_row, 'M')
                                || has_char(input, after_row, 'm') {
                                Some(
                                    (
                                        MouseReport {
                                            button: button as u32,
                                            column: column as u32,
                                            row: row as u32,
                                            pressed: input[after_row] == 'M',
                                        },
                                        after_row + 1,
                                    ),
                                )
                            } else {
                                None
                            },
                            None => None,
                        }
                    } else {
                        None
                    },
                    None => None,
                }
            } else {
                None
            },
            None => None,
        }
    } else {
        None
    }
}

/// How far one notch of the wheel counts.
pub const WHEEL_NOTCH: i16 = 120;

/// The modifier keys of a mouse report: 4 in its button number stands for
/// Shift, 8 for Alt, 16 for Ctrl.
pub open spec fn report_keys(button: u32) -> ControlKeyStates {
    ControlKeyStates {
        shift: (button / 4) % 2 == 1,
        left_alt: (button / 8) % 2 == 1,
        left_ctrl: (button / 16) % 2 == 1,
        ..no_control_keys()
    }
}

/// The event of a mouse report, where its place fits an event.
///
/// In the button number, 32 marks a movement and 64 a turn of the wheel:
/// even wheel numbers turn away from the user, odd ones towards them, and
/// the numbers from 66 on turn sideways. Otherwise the two lowest bits name
/// the button: 0 the left one, 2 the right one.
pub open spec fn mouse_event_spec(report: MouseReport) -> Option<Event> {
    if 1 <= report.column <= 0x8000 && 1 <= report.row <= 0x8000 {
        let x = (report.column - 1) as i16;
        let y = (report.row - 1) as i16;
        let control_key_state = report_keys(report.button);
        let low = report.button % 4;
        if (report.button / 64) % 2 == 1 {
            let amount = if low % 2 == 0 {
                WHEEL_NOTCH
            } else {
                (-WHEEL_NOTCH) as i16
            };
            if low < 2 {
                Some(Event::MouseWheel { x, y, amount, control_key_state })
            } else {
                Some(Event::MouseHorizontalWheel { x, y, amount, control_key_state })
            }
        } else if (report.button / 32) % 2 == 1 {
            Some(Event::MouseMove { x, y, control_key_state })
        } else {
            Some(
                Event::MouseButtonStateChange {
                    x,
                    y,
                    left_button: report.pressed && low == 0,
                    right_button: report.pressed && low == 2,
                    control_key_state,
                },
            )
        }
    } else {
        None
    }
}

/// The key of a character that stands for no sequence: Backspace, Tab and
/// Enter by their control codes, Escape by its own, a letter with Ctrl for
/// each of the other control codes up to 26, and the character itself
/// otherwise.
pub open spec fn typed_key_spec(ch: char) -> (Key, ControlKeyStates) {
    let code = ch as u32;
    if code == 0x7f || code == 0x08 {
        (Key::Backspace, no_control_keys())
    } else if code == 0x09 {
        (Key::Tab, no_control_keys())
    } else if code == 0x0d || code == 0x0a {
        (Key::Enter, no_control_keys())
    } else if code == 0x1b {
        (Key::Escape, no_control_keys())
    } else if 1 <= code <= 26 {
        (Key::CharKey((code + 96) as char), ControlKeyStates { left_ctrl: true, ..no_control_keys() })
    } else {
        (Key::CharKey(ch), no_control_keys())
    }
}

/// The first event in what a terminal sent, and how many characters it
/// took; `None` for an empty input.
///
/// A sequence of a named key of the family comes first, then a mouse report
/// whose place fits an event. Anything else is its first character alone.
pub open spec fn decode_input_spec(family: TerminalFamily, input: Seq<char>) -> Option<(Event, int)> {
    if input.len() == 0 {
        None
    } else {
        match named_key_at_start(family, input) {
            Some((key, used)) => Some(
                (Event::KeyPressed { key, control_key_state: no_control_keys() }, used),
            ),
            None => {
                let typed = typed_key_spec(input[0]);
                let typed_event = Event::KeyPressed { key: typed.0, control_key_state: typed.1 };
                match mouse_report_at_start(input) {
                    Some((report, used)) => match mouse_event_spec(report) {
                        Some(event) => Some((event, used)),
                        None => Some((typed_event, 1)),
                    },
                    None => Some((typed_event, 1)),
                }
            },
        }
    }
}

fn find_named_key(family: TerminalFamily, input: &Vec<char>) -> (found: Option<(Key, usize)>)
    ensures
        match found {
            Some((key, used)) => named_key_at_start(family, input@) == Some((key, used as int)),
            None => named_key_at_start(family, input@).is_none(),
        },
{
    let table = split(family.key_sequences(), ' ');
    let mut index: usize = 0;
    assert(texts_of(table@).len() == table@.len());
    while index < table.len() && index < NAMED_KEYS
        invariant
            index <= table.len(),
            index <= NAMED_KEYS,
            texts_of(table@) == family.key_table_spec(),
            first_key_from(family.key_table_spec(), input@, 0) == first_key_from(
                family.key_table_spec(),
                input@,
                index as int,
            ),
        decreases NAMED_KEYS - index,
    {
        let sequence = chars_of(table[index].as_str());
        assert(texts_of(table@)[index as int] == table@[index as int]@);
        if sequence.len() > 0 && matches_at(input, &sequence, 0) {
            return Some((named_key(index), sequence.len()));
        }
        index = index + 1;
    }
    None
}

fn is_digit_char(ch: char) -> (digit: bool)
    ensures
        digit == is_digit(ch),
{
    '0' <= ch && ch <= '9'
}

fn read_number(input: &Vec<char>, at: usize) -> (number: Option<(u32, usize)>)
    ensures
        match number {
            Some((value, next)) => number_at(input@, at as int) == Some((value as nat, next as int))
                && next <= input@.len() && value <= 99999 && at < next,
            None => number_at(input@, at as int).is_none(),
        },
{
    let mut value: u32 = 0;
    let mut count: usize = 0;
    while count < 5 && at < input.len() && count < input.len() - at && is_digit_char(
        input[at + count],
    )
        invariant
            count <= 5,
            at + count <= input.len() || count == 0,
            digits_at(input@, at as int) == count + digits_at(input@, at + count),
            value == value_of(input@, at as int, count as nat),
            count <= 0 ==> value <= 0,
            count <= 1 ==> value <= 9,
            count <= 2 ==> value <= 99,
            count <= 3 ==> value <= 999,
            count <= 4 ==> value <= 9999,
            value <= 99999,
        decreases 5 - count,
    {
        let digit: u32 = input[at + count] as u32 - 48;
        value = 10 * value + digit;
        count = count + 1;
    }
    if count == 0 {
        None
    } else if at + count < input.len() && is_digit_char(input[at + count]) {
        assert(digits_at(input@, at + count) >= 1);
        None
    } else {
        assert(digits_at(input@, at + count) == 0);
        Some((value, at + count))
    }
}

fn read_mouse_report(input: &Vec<char>) -> (found: Option<(MouseReport, usize)>)
    ensures
        match found {
            Some((report, used)) => mouse_report_at_start(input@) == Some((report, used as int))
                && 1 <= used <= input@.len(),
            None => mouse_report_at_start(input@).is_none(),
        },
{
    if input.len() < 3 || input[0] != '\u{1b}' || input[1] != '[' || input[2] != '<' {
        return None;
    }
    let (button, after_button) = match read_number(input, 3) {
        Some(number) => number,
        None => {
            return None;
        },
    };
    if after_button >= input.len() || input[after_button] != ';' {
        return None;
    }
    let (column, after_column) = match read_number(input, after_button + 1) {
        Some(number) => number,
        None => {
            return None;
        },
    };
    if after_column >= input.len() || input[after_column] != ';' {
        return None;
    }
    let (row, after_row) = match read_number(input, after_column + 1) {
        Some(number) => number,
        None => {
            return None;
        },
    };
    if after_row >= input.len() || (input[after_row] != 'M' && input[after_row] != 'm') {
        return None;
    }
    Some((MouseReport { button, column, row, pressed: input[after_row] == 'M' }, after_row + 1))
}

/// Finds the event that a mouse report stands for.
pub fn get_mouse_event(report: &MouseReport) -> (event: Option<Event>)
    ensures
        event == mouse_event_spec(*report),
{
    if report.column < 1 || report.column > 0x8000 || report.row < 1 || report.row > 0x8000 {
        return None;
    }
    let x: i16 = (report.column - 1) as i16;
    let y: i16 = (report.row - 1) as i16;
    let none = ControlKeyStates {
        capslock: false,
        numlock: false,
        scrolllock: false,
        shift: false,
        left_alt: false,
        right_alt: false,
        left_ctrl: false,
        right_ctrl: false,
    };
    let control_key_state = ControlKeyStates {
        shift: (report.button / 4) % 2 == 1,
        left_alt: (report.button / 8) % 2 == 1,
        left_ctrl: (report.button / 16) % 2 == 1,
        ..none
    };
    let low: u32 = report.button % 4;
    if (report.button / 64) % 2 == 1 {
        let amount: i16 = if low % 2 == 0 {
            WHEEL_NOTCH
        } else {
            -WHEEL_NOTCH
        };
        if low < 2 {
            Some(Event::MouseWheel { x, y, amount, control_key_state })
        } else {
            Some(Event::MouseHorizontalWheel { x, y, amount, control_key_state })
        }
    } else if (report.button / 32) % 2 == 1 {
        Some(Event::MouseMove { x, y, control_key_state })
    } else {
        Some(
            Event::MouseButtonStateChange {
                x,
                y,
                left_button: report.pressed && low == 0,
                right_button: report.pressed && low == 2,
                control_key_state,
            },
        )
    }
}

/// Finds the key of a character that stands for no sequence, and the
/// modifier keys held with it.
pub fn get_typed_key(ch: char) -> (typed: (Key, ControlKeyStates))
    ensures
        typed == typed_key_spec(ch),
{
    let none = ControlKeyStates {
        capslock: false,
        numlock: false,
        scrolllock: false,
        shift: false,
        left_alt: false,
        right_alt: false,
        left_ctrl: false,
        right_ctrl: false,
    };
    let code: u32 = ch as u32;
    if code == 0x7f || code == 0x08 {
        (Key::Backspace, none)
    } else if code == 0x09 {
        (Key::Tab, none)
    } else if code == 0x0d || code == 0x0a {
        (Key::Enter, none)
    } else if code == 0x1b {
        (Key::Escape, none)
    } else if 1 <= code && code <= 26 {
        match char_from_u32(code + 96) {
            Some(letter) => (Key::CharKey(letter), ControlKeyStates { left_ctrl: true, ..none }),
            None => (Key::CharKey(ch), none),
        }
    } else {
        (Key::CharKey(ch), none)
    }
}

/// Decodes the first event in what a terminal of the given family sent.
/// Returns the event and the number of characters it took, or `None` where
/// the input is empty.
pub fn decode_input(family: TerminalFamily, input: &str) -> (decoded: Option<(Event, usize)>)
    ensures
        match decoded {
            Some((event, used)) => decode_input_spec(family, input@) == Some((event, used as int))
                && 1 <= used <= input@.len(),
            None => decode_input_spec(family, input@).is_none() && input@.len() == 0,
        },
{
    let chars = chars_of(input);
    if chars.len() == 0 {
        return None;
    }
    match find_named_key(family, &chars) {
        Some((key, used)) => {
            let none = ControlKeyStates {
                capslock: false,
                numlock: false,
                scrolllock: false,
                shift: false,
                left_alt: false,
                right_alt: false,
                left_ctrl: false,
                right_ctrl: false,
            };
            proof {
                named_key_is_in_the_input(family.key_table_spec(), chars@, 0);
            }
            Some((Event::KeyPressed { key, control_key_state: none }, used))
        },
        None => {
            let typed = get_typed_key(chars[0]);
            let typed_event = Event::KeyPressed { key: typed.0, control_key_state: typed.1 };
            match read_mouse_report(&chars) {
                Some((report, used)) => match get_mouse_event(&report) {
                    Some(event) => Some((event, used)),
                    None => Some((typed_event, 1)),
                },
                None => Some((typed_event, 1)),
            }
        },
    }
}

/// The sequence of the named key that an input starts with is not empty and
/// not longer than the input.
pub proof fn named_key_is_in_the_input(table: Seq<Seq<char>>, input: Seq<char>, from: int)
    requires
        0 <= from,
    ensures
        match first_key_from(table, input, from) {
            Some(index) => from <= index < table.len() && index < NAMED_KEYS && 1
                <= table[index].len() <= input.len() && input.subrange(
                0,
                table[index].len() as int,
            ) == table[index],
            None => true,
        },
    decreases NAMED_KEYS - from,
{
    if from < NAMED_KEYS && from < table.len() && !starts_with_key(table, input, from) {
        named_key_is_in_the_input(table, input, from + 1);
    }
}

/// Every key that decoding yields is one that a keyboard has, and every
/// event takes at least one character and no more than there are.
pub proof fn decoded_events_are_in_the_input(family: TerminalFamily, input: Seq<char>)
    ensures
        match decode_input_spec(family, input) {
            Some((event, used)) => {
                &&& 1 <= used <= input.len()
                &&& match event {
                    Event::KeyPressed { key, control_key_state } => key.is_valid_spec(),
                    _ => true,
                }
            },
            None => input.len() == 0,
        },
{
    if input.len() > 0 {
        named_key_is_in_the_input(family.key_table_spec(), input, 0);
        match mouse_report_at_start(input) {
            Some((report, used)) => {
                assert(1 <= used <= input.len());
            },
            None => {},
        }
    }
}

} // verus!
