//! The console of POSIX terminals, driven by ANSI escape sequences.
//!
//! The console never touches the terminal device. It keeps the text that has
//! to be sent in `output`; whoever owns the device takes it from there with
//! [`UnixConsole::take_output`] and writes it out.

pub mod input;
pub mod sequences;
pub mod utils;

use crate::color::Color;
use crate::error::RutError;
use crate::event::Event;
use crate::region::{Bounds, Region};
use crate::text::{
    chars_of, contains, contains_spec, decimal_spec, matches_at, push_char, push_decimal, repeated,
    repeated_spec,
};
use crate::unix::sequences::{term_mapping, term_mapping_spec, FunctionSequences, TerminalFamily};
use crate::unix::utils::{bg_color_code, bg_color_code_spec, fg_color_code, fg_color_code_spec};
use vstd::prelude::*;
use vstd::string::*;

verus! {

/// Whether a terminal's name selects a family: by being the family's name,
/// or, where `exact` is not asked for, by holding it.
pub open spec fn selects(term: Seq<char>, family: TerminalFamily, exact: bool) -> bool {
    if exact {
        term == family.name_spec()
    } else {
        contains_spec(term, family.name_spec())
    }
}

/// The first of the families that a terminal's name selects.
pub open spec fn first_selected(term: Seq<char>, families: Seq<TerminalFamily>, exact: bool) -> Option<
    TerminalFamily,
>
    decreases families.len(),
{
    if families.len() == 0 {
        None
    } else if selects(term, families[0], exact) {
        Some(families[0])
    } else {
        first_selected(term, families.drop_first(), exact)
    }
}

/// The family of a terminal by its name: the family of that very name, or
/// else the first known family whose name the terminal's name holds.
pub open spec fn resolve_terminal_spec(term: Seq<char>) -> Option<TerminalFamily> {
    match first_selected(term, term_mapping_spec(), true) {
        Some(family) => Some(family),
        None => first_selected(term, term_mapping_spec(), false),
    }
}

/// No two families share a name.
pub proof fn family_names_are_distinct(one: TerminalFamily, other: TerminalFamily)
    requires
        one.name_spec() == other.name_spec(),
    ensures
        one == other,
{
    name_lengths_and_initials(one);
    name_lengths_and_initials(other);
}

proof fn name_lengths_and_initials(family: TerminalFamily)
    ensures
        family.name_spec().len() == (match family {
            TerminalFamily::Rxvt256Color => 13nat,
            TerminalFamily::Eterm => 5,
            TerminalFamily::Screen => 6,
            TerminalFamily::RxvtUnicode => 12,
            TerminalFamily::Linux => 5,
            TerminalFamily::Xterm => 5,
        }),
        family.name_spec()[0] == (match family {
            TerminalFamily::Rxvt256Color => 'r',
            TerminalFamily::Eterm => 'E',
            TerminalFamily::Screen => 's',
            TerminalFamily::RxvtUnicode => 'r',
            TerminalFamily::Linux => 'l',
            TerminalFamily::Xterm => 'x',
        }),
{
    reveal_strlit("rxvt-256color");
    reveal_strlit("Eterm");
    reveal_strlit("screen");
    reveal_strlit("rxvt-unicode");
    reveal_strlit("linux");
    reveal_strlit("xterm");
}

/// The name of a family resolves to that family.
pub proof fn a_family_name_resolves_to_its_family(family: TerminalFamily)
    ensures
        resolve_terminal_spec(family.name_spec()) == Some(family),
{
    let families = term_mapping_spec();
    let term = family.name_spec();
    assert forall|other: TerminalFamily| selects(term, other, true) implies other == family by {
        family_names_are_distinct(family, other);
    }
    let rest1 = families.drop_first();
    let rest2 = rest1.drop_first();
    let rest3 = rest2.drop_first();
    let rest4 = rest3.drop_first();
    let rest5 = rest4.drop_first();
    assert(families[0] == TerminalFamily::Rxvt256Color);
    assert(rest1[0] == TerminalFamily::Eterm);
    assert(rest2[0] == TerminalFamily::Screen);
    assert(rest3[0] == TerminalFamily::RxvtUnicode);
    assert(rest4[0] == TerminalFamily::Linux);
    assert(rest5[0] == TerminalFamily::Xterm);
    assert(rest5.drop_first().len() == 0);
    assert(first_selected(term, rest5.drop_first(), true).is_none());
    assert(first_selected(term, rest5, true) == if family == TerminalFamily::Xterm {
        Some(family)
    } else {
        None
    });
    assert(first_selected(term, rest4, true) == if family == TerminalFamily::Linux {
        Some(family)
    } else {
        first_selected(term, rest5, true)
    });
    assert(first_selected(term, rest3, true) == if family == TerminalFamily::RxvtUnicode {
        Some(family)
    } else {
        first_selected(term, rest4, true)
    });
    assert(first_selected(term, rest2, true) == if family == TerminalFamily::Screen {
        Some(family)
    } else {
        first_selected(term, rest3, true)
    });
    assert(first_selected(term, rest1, true) == if family == TerminalFamily::Eterm {
        Some(family)
    } else {
        first_selected(term, rest2, true)
    });
    assert(first_selected(term, families, true) == if family == TerminalFamily::Rxvt256Color {
        Some(family)
    } else {
        first_selected(term, rest1, true)
    });
}

/// A name that is no family's name resolves to the first family, in the
/// order of the known families, whose name it holds, and to none where it
/// holds no family's name.
pub proof fn other_names_resolve_by_what_they_hold(term: Seq<char>)
    requires
        forall|family: TerminalFamily| term != #[trigger] family.name_spec(),
    ensures
        resolve_terminal_spec(term) == first_selected(term, term_mapping_spec(), false),
{
    none_is_selected_exactly(term, term_mapping_spec());
}

proof fn none_is_selected_exactly(term: Seq<char>, families: Seq<TerminalFamily>)
    requires
        forall|family: TerminalFamily| term != #[trigger] family.name_spec(),
    ensures
        first_selected(term, families, true).is_none(),
    decreases families.len(),
{
    if families.len() > 0 {
        none_is_selected_exactly(term, families.drop_first());
    }
}

/// What is said of a terminal whose name selects no family.
pub open spec fn unsupported_terminal_message(term: Seq<char>) -> Seq<char> {
    "Unsupported terminal type: "@ + term
}

/// What is said where the terminal has no name at all.
pub open spec fn undefined_terminal_message() -> Seq<char> {
    "TERM environment variable is not defined"@
}

fn find_family(term: &Vec<char>, families: &Vec<TerminalFamily>, exact: bool) -> (found: Option<
    TerminalFamily,
>)
    ensures
        found == first_selected(term@, families@, exact),
{
    let mut i: usize = 0;
    assert(families@.subrange(0, families@.len() as int) =~= families@);
    while i < families.len()
        invariant
            i <= families.len(),
            first_selected(term@, families@, exact) == first_selected(
                term@,
                families@.subrange(i as int, families@.len() as int),
                exact,
            ),
        decreases families.len() - i,
    {
        let family = families[i];
        let name = chars_of(family.name());
        let selected = if exact {
            let same = name.len() == term.len() && matches_at(term, &name, 0);
            proof {
                if same {
                    assert(term@.subrange(0, term@.len() as int) =~= term@);
                }
                if term@ == name@ {
                    assert(term@.subrange(0, term@.len() as int) =~= term@);
                }
            }
            same
        } else {
            contains(term, &name)
        };
        let ghost rest = families@.subrange(i as int, families@.len() as int);
        assert(rest[0] == family);
        assert(rest.drop_first() =~= families@.subrange(i + 1, families@.len() as int));
        if selected {
            return Some(family);
        }
        i = i + 1;
    }
    None
}

/// Finds the family of a terminal by its name, the value of `TERM`.
///
/// A missing name and a name that selects no family are both refused as an
/// unsupported terminal; the message of the latter ends in the name.
pub fn resolve_terminal(term: Option<&str>) -> (result: Result<TerminalFamily, RutError>)
    ensures
        match term {
            None => result matches Err(RutError::UnsupportedTerminal(details)) && details@
                == undefined_terminal_message(),
            Some(name) => match resolve_terminal_spec(name@) {
                Some(family) => result == Ok::<TerminalFamily, RutError>(family),
                None => result matches Err(RutError::UnsupportedTerminal(details)) && details@
                    == unsupported_terminal_message(name@),
            },
        },
{
    match term {
        None => Err(
            RutError::UnsupportedTerminal(
                String::from_str("TERM environment variable is not defined"),
            ),
        ),
        Some(name) => {
            let chars = chars_of(name);
            let families = term_mapping();
            let found = match find_family(&chars, &families, true) {
                Some(family) => Some(family),
                None => find_family(&chars, &families, false),
            };
            match found {
                Some(family) => Ok(family),
                None => {
                    let mut details = String::from_str("Unsupported terminal type: ");
                    details.append(name);
                    Err(RutError::UnsupportedTerminal(details))
                },
            }
        },
    }
}

/// The escape, the character that opens every control sequence.
pub open spec fn escape() -> char {
    '\u{1b}'
}

/// The sequence that puts the cursor on column `x` of row `y`, both counted
/// from 0: `ESC [ row ; column H`, with row and column counted from 1.
pub open spec fn cursor_sequence(x: int, y: int) -> Seq<char> {
    seq![escape(), '['] + decimal_spec((y + 1) as nat) + seq![';'] + decimal_spec((x + 1) as nat)
        + seq!['H']
}

/// The sequence that selects a pair of colors: `ESC [ foreground ; background m`.
pub open spec fn attribute_sequence(background: Color, foreground: Color) -> Seq<char> {
    seq![escape(), '['] + decimal_spec(fg_color_code_spec(foreground) as nat) + seq![';']
        + decimal_spec(bg_color_code_spec(background) as nat) + seq!['m']
}

/// What a POSIX console knows and has queued: the mathematical value of a
/// [`UnixConsole`].
pub struct Terminal {
    pub function_sequences: FunctionSequences,
    pub width: int,
    pub height: int,
    /// Column of the tracked cursor: the cell just left of the one that the
    /// cursor of the terminal stands on. After a character was written that
    /// is the cell of the character; after a move to column `c` it is column
    /// `c - 1`, which is -1 for a move to the first column.
    pub x: int,
    /// Row of the tracked cursor: the row that the cursor of the terminal
    /// stands in.
    pub y: int,
    pub background: Color,
    pub foreground: Color,
    /// The text queued for the terminal, oldest first.
    pub output: Seq<char>,
}

impl Terminal {
    /// The terminal with `text` queued behind what is queued already.
    pub open spec fn sent(self, text: Seq<char>) -> Terminal {
        Terminal { output: self.output + text, ..self }
    }

    /// The cell that the cursor of the terminal stands on: where the next
    /// character lands, one column right of the tracked cursor.
    pub open spec fn stands_on(self) -> (int, int) {
        (self.x + 1, self.y)
    }

    /// The terminal after its cursor was put on `(x, y)`: the tracked cursor
    /// is the cell just left of it.
    pub open spec fn moved(self, x: int, y: int) -> Terminal {
        Terminal { x: x - 1, y, ..self.sent(cursor_sequence(x, y)) }
    }

    /// The terminal after its screen was erased by its own sequence for
    /// that, which also puts the cursor into the corner.
    pub open spec fn cleared(self) -> Terminal {
        Terminal { x: -1, y: 0, ..self.sent(self.function_sequences.clear_screen@) }
    }

    /// The terminal after a pair of colors was asked for: the pair is sent
    /// only where it differs from the pair in use.
    pub open spec fn colored(self, background: Color, foreground: Color) -> Terminal {
        if self.background != background || self.foreground != foreground {
            Terminal { background, foreground, ..self.sent(attribute_sequence(background, foreground)) }
        } else {
            self
        }
    }

    /// Whether writing at `(x, y)` takes a cursor move first: it does unless
    /// the tracked cursor is exactly one column before `(x, y)`, which is to
    /// say unless the cursor of the terminal stands on `(x, y)` already.
    pub open spec fn must_move(self, x: int, y: int) -> bool {
        self.x != x - 1 || self.y != y
    }

    /// The terminal after one character was written at `(x, y)`: the tracked
    /// cursor is that cell.
    pub open spec fn char_written(self, x: int, y: int, ch: char) -> Terminal {
        let placed = if self.must_move(x, y) {
            self.moved(x, y)
        } else {
            self
        };
        Terminal { x, y, ..placed.sent(seq![ch]) }
    }
}

/// A rectangle of a POSIX terminal.
#[derive(Clone, Copy, Debug, PartialEq, Eq, Structural)]
pub struct UnixRegion {
    pub left: u16,
    pub top: u16,
    pub width: u16,
    pub height: u16,
}

/// The console of a POSIX terminal.
#[derive(Debug)]
pub struct UnixConsole {
    function_sequences: FunctionSequences,
    width: u16,
    height: u16,
    /// Column that the cursor of the terminal stands on.
    x: u32,
    /// Row that the cursor of the terminal stands in.
    y: u16,
    current_background: Color,
    current_foreground: Color,
    output: String,
}

impl View for UnixConsole {
    type V = Terminal;

    closed spec fn view(&self) -> Terminal {
        Terminal {
            function_sequences: self.function_sequences,
            width: self.width as int,
            height: self.height as int,
            x: self.x as int - 1,
            y: self.y as int,
            background: self.current_background,
            foreground: self.current_foreground,
            output: self.output@,
        }
    }
}

/// The terminal of a console that was just made: nothing queued, the cursor
/// taken to stand in the corner, black on white in use.
pub open spec fn fresh_terminal(family: TerminalFamily, width: int, height: int) -> Terminal {
    Terminal {
        function_sequences: family.sequences_spec(),
        width,
        height,
        x: -1,
        y: 0,
        background: Color::White,
        foreground: Color::Black,
        output: Seq::empty(),
    }
}

/// The terminal of a console as `create_console` hands it out: the cursor
/// put in the corner, light gray on black selected.
pub open spec fn started_terminal(family: TerminalFamily, width: int, height: int) -> Terminal {
    fresh_terminal(family, width, height).moved(0, 0).colored(Color::Black, Color::LightGray)
}

/// Creates the console of a terminal from what was found out about it: its
/// name, the value of `TERM`, and its size in columns and rows, or the
/// error that asking for the size ended in.
///
/// An unsupported terminal is reported before a failed size query.
pub fn create_console(term: Option<&str>, size: Result<(u16, u16), RutError>) -> (result: Result<
    UnixConsole,
    RutError,
>)
    ensures
        match term {
            None => result matches Err(RutError::UnsupportedTerminal(details)) && details@
                == undefined_terminal_message(),
            Some(name) => match resolve_terminal_spec(name@) {
                None => result matches Err(RutError::UnsupportedTerminal(details)) && details@
                    == unsupported_terminal_message(name@),
                Some(family) => match size {
                    Err(error) => result == Err::<UnixConsole, RutError>(error),
                    Ok((width, height)) => result matches Ok(console) && console@
                        == started_terminal(family, width as int, height as int),
                },
            },
        },
{
    let family = match resolve_terminal(term) {
        Ok(family) => family,
        Err(error) => {
            return Err(error);
        },
    };
    let (width, height) = match size {
        Ok(size) => size,
        Err(error) => {
            return Err(error);
        },
    };
    let mut console = UnixConsole {
        function_sequences: family.sequences(),
        width,
        height,
        x: 0,
        y: 0,
        current_foreground: Color::Black,
        current_background: Color::White,
        output: String::new(),
    };
    assert(console@ == fresh_terminal(family, width as int, height as int));
    console.move_cursor(0, 0);
    console.set_attributes(Color::Black, Color::LightGray);
    Ok(console)
}

impl UnixConsole {
    /// The control sequences of the terminal.
    pub fn function_sequences(&self) -> (sequences: FunctionSequences)
        ensures
            sequences == self@.function_sequences,
    {
        self.function_sequences
    }

    /// The text queued for the terminal.
    pub fn output(&self) -> (text: &str)
        ensures
            text@ == self@.output,
    {
        self.output.as_str()
    }

    /// Hands out the text queued for the terminal and leaves nothing queued.
    pub fn take_output(&mut self) -> (text: String)
        ensures
            text@ == old(self)@.output,
            final(self)@ == (Terminal { output: Seq::empty(), ..old(self)@ }),
    {
        let mut text = String::new();
        std::mem::swap(&mut self.output, &mut text);
        text
    }

    /// The cell that the cursor of the terminal stands on, as column and
    /// row: the cell right of the last character written, or the cell that
    /// the cursor was put on since.
    pub fn cursor(&self) -> (position: (u32, u16))
        ensures
            (position.0 as int, position.1 as int) == self@.stands_on(),
    {
        (self.x, self.y)
    }

    /// The pair of colors in use, background first.
    pub fn attributes(&self) -> (colors: (Color, Color))
        ensures
            colors.0 == self@.background,
            colors.1 == self@.foreground,
    {
        (self.current_background, self.current_foreground)
    }

    /// Writes one character at `(x, y)`, after a cursor move where the
    /// tracked cursor is not exactly one column before it.
    pub fn write_char(&mut self, x: u16, y: u16, ch: char)
        ensures
            final(self)@ == old(self)@.char_written(x as int, y as int, ch),
    {
        if (self.x != x as u32) || (self.y != y) {
            self.move_cursor(x, y);
        }
        push_char(&mut self.output, ch);
        self.x = x as u32 + 1;
        self.y = y;
        assert(self@.output =~= old(self)@.char_written(x as int, y as int, ch).output);
    }

    /// Puts the cursor on `(x, y)`.
    pub fn move_cursor(&mut self, x: u16, y: u16)
        ensures
            final(self)@ == old(self)@.moved(x as int, y as int),
    {
        push_char(&mut self.output, '\u{1b}');
        push_char(&mut self.output, '[');
        push_decimal(&mut self.output, y as u32 + 1);
        push_char(&mut self.output, ';');
        push_decimal(&mut self.output, x as u32 + 1);
        push_char(&mut self.output, 'H');
        self.x = x as u32;
        self.y = y;
        assert(self@.output =~= old(self)@.moved(x as int, y as int).output);
    }

    /// Selects a pair of colors; nothing is sent where the pair is in use
    /// already.
    pub fn set_attributes(&mut self, background: Color, foreground: Color)
        ensures
            final(self)@ == old(self)@.colored(background, foreground),
    {
        if (self.current_background != background) || (self.current_foreground != foreground) {
            push_char(&mut self.output, '\u{1b}');
            push_char(&mut self.output, '[');
            push_decimal(&mut self.output, fg_color_code(foreground) as u32);
            push_char(&mut self.output, ';');
            push_decimal(&mut self.output, bg_color_code(background) as u32);
            push_char(&mut self.output, 'm');
            self.current_background = background;
            self.current_foreground = foreground;
            assert(self@.output =~= old(self)@.colored(background, foreground).output);
        }
    }

    /// Erases the screen and homes the cursor, by the terminal's own
    /// sequence for both.
    pub fn clear(&mut self)
        ensures
            final(self)@ == old(self)@.cleared(),
    {
        self.output.append(self.function_sequences.clear_screen);
        self.x = 0;
        self.y = 0;
    }

    /// The next input event. Input is not read on this console: every call
    /// reports the size of the terminal as it was when the console was
    /// created.
    pub fn get_next_event(&mut self) -> (event: Event)
        ensures
            final(self)@ == old(self)@,
            event == (Event::Resize { width: old(self)@.width as u16, height: old(self)@.height as u16 }),
    {
        Event::Resize { width: self.width, height: self.height }
    }

    /// The region that covers the whole terminal, as large as it was when the
    /// console was created.
    pub fn full_screen(&self) -> (region: UnixRegion)
        ensures
            region.bounds() == (Bounds { left: 0, top: 0, width: self@.width, height: self@.height }),
    {
        UnixRegion { left: 0, top: 0, width: self.width, height: self.height }
    }
}

/// Where the cursor of `print` stands after `count` characters, having
/// started at `(x, y)`: it steps right, and from the last column of the
/// rectangle to the first column of the next row.
pub open spec fn cursor_after(bounds: Bounds, x: int, y: int, count: nat) -> (int, int)
    decreases count,
{
    if count == 0 {
        (x, y)
    } else {
        let before = cursor_after(bounds, x, y, (count - 1) as nat);
        if before.0 == bounds.left + bounds.width - 1 {
            (bounds.left, before.1 + 1)
        } else {
            (before.0 + 1, before.1)
        }
    }
}

/// Whether the cursor of `print` stands within the coordinates of a terminal
/// after `count` characters.
pub open spec fn cursor_fits(bounds: Bounds, x: int, y: int, count: nat) -> bool {
    let at = cursor_after(bounds, x, y, count);
    at.0 <= u16::MAX && at.1 <= u16::MAX
}

/// The terminal after `text` was written character by character along the
/// path of [`cursor_after`].
pub open spec fn text_written(bounds: Bounds, terminal: Terminal, x: int, y: int, text: Seq<char>) -> Terminal
    decreases text.len(),
{
    if text.len() == 0 {
        terminal
    } else {
        let at = cursor_after(bounds, x, y, (text.len() - 1) as nat);
        text_written(bounds, terminal, x, y, text.drop_last()).char_written(
            at.0,
            at.1,
            text.last(),
        )
    }
}

/// The label that filling leaves in a region: its width and height.
pub open spec fn size_label(bounds: Bounds) -> Seq<char> {
    decimal_spec(bounds.width as nat) + seq![' '] + decimal_spec(bounds.height as nat)
}

/// Whether the label lies inside the region: it starts in column 3 of row 5,
/// so the region has to have that row and has to be wide enough for all of
/// the label behind column 3.
pub open spec fn label_fits(bounds: Bounds) -> bool {
    5 < bounds.height && 3 + size_label(bounds).len() <= bounds.width
}

/// The terminal after the first `count` rows of a region were filled with
/// dots on the given color. The dots take the text color in use.
pub open spec fn rows_filled(region: &UnixRegion, terminal: Terminal, color: Color, count: nat) -> Terminal
    decreases count,
{
    if count == 0 {
        terminal
    } else {
        let before = rows_filled(region, terminal, color, (count - 1) as nat);
        region.printed(
            before,
            0,
            count - 1,
            color,
            before.foreground,
            repeated_spec('.', region.bounds().width as nat),
        )
    }
}

impl Region for UnixRegion {
    type Console = UnixConsole;

    type Canvas = Terminal;

    open spec fn bounds(&self) -> Bounds {
        Bounds {
            left: self.left as int,
            top: self.top as int,
            width: self.width as int,
            height: self.height as int,
        }
    }

    open spec fn canvas(console: &UnixConsole) -> Terminal {
        console@
    }

    open spec fn drawable(console: &UnixConsole) -> bool {
        true
    }

    open spec fn can_carve(&self, rel_x: int, rel_y: int, width: int, height: int) -> bool {
        self.bounds().left + rel_x <= u16::MAX && self.bounds().top + rel_y <= u16::MAX
    }

    open spec fn carved(&self, rel_x: int, rel_y: int, width: int, height: int) -> UnixRegion {
        UnixRegion {
            left: (self.left + rel_x) as u16,
            top: (self.top + rel_y) as u16,
            width: width as u16,
            height: height as u16,
        }
    }

    /// The cursor stays within the coordinates of a terminal all along its
    /// path, the step behind the last character included.
    open spec fn can_print(&self, rel_x: int, rel_y: int, len: nat) -> bool {
        forall|count: nat|
            count <= len ==> #[trigger] cursor_fits(
                self.bounds(),
                self.bounds().left + rel_x,
                self.bounds().top + rel_y,
                count,
            )
    }

    open spec fn can_fill(&self) -> bool {
        &&& forall|y: int|
            0 <= y < self.bounds().height ==> #[trigger] self.can_print(
                0,
                y,
                self.bounds().width as nat,
            )
        &&& label_fits(self.bounds()) ==> self.can_print(3, 5, size_label(self.bounds()).len())
    }

    /// The colors are selected, then the text is written from `(rel_x,
    /// rel_y)` on, wrapping at the right edge of the region to its left edge
    /// one row down.
    open spec fn printed(
        &self,
        canvas: Terminal,
        rel_x: int,
        rel_y: int,
        background: Color,
        foreground: Color,
        text: Seq<char>,
    ) -> Terminal {
        text_written(
            self.bounds(),
            canvas.colored(background, foreground),
            self.bounds().left + rel_x,
            self.bounds().top + rel_y,
            text,
        )
    }

    /// Every row is printed full of dots on the fill color. Then, where it
    /// lies inside the region, the size of the region is printed at `(3, 5)`
    /// in black on the fill color; a region too small for the label gets
    /// none. Nothing is written outside the region.
    open spec fn filled(&self, canvas: Terminal, color: Color) -> Terminal {
        let rows = rows_filled(self, canvas, color, self.bounds().height as nat);
        if label_fits(self.bounds()) {
            self.printed(rows, 3, 5, color, Color::Black, size_label(self.bounds()))
        } else {
            rows
        }
    }

    proof fn carved_bounds(&self, rel_x: int, rel_y: int, width: int, height: int) {
    }

    fn height(&self) -> (height: u16) {
        self.height
    }

    fn width(&self) -> (width: u16) {
        self.width
    }

    fn fill(&self, console: &mut UnixConsole, color: Color) {
        let row = repeated('.', self.width as usize);
        let mut y: u16 = 0;
        while y < self.height
            invariant
                y <= self.height,
                self.can_fill(),
                row@ == repeated_spec('.', self.width as nat),
                console@ == rows_filled(self, old(console)@, color, y as nat),
            decreases self.height - y,
        {
            let foreground = console.current_foreground;
            assert(self.can_print(0, y as int, self.bounds().width as nat));
            self.print(console, 0, y, color, foreground, row.as_str());
            y = y + 1;
        }
        let mut label = String::new();
        push_decimal(&mut label, self.width as u32);
        push_char(&mut label, ' ');
        push_decimal(&mut label, self.height as u32);
        assert(label@ =~= size_label(self.bounds()));
        let length = label.as_str().unicode_len();
        if 5 < self.height && length <= self.width as usize && 3 <= self.width as usize - length {
            self.print(console, 3, 5, color, Color::Black, label.as_str());
        }
    }

    fn print(
        &self,
        console: &mut UnixConsole,
        rel_x: u16,
        rel_y: u16,
        background: Color,
        foreground: Color,
        text: &str,
    ) {
        console.set_attributes(background, foreground);
        let ghost start = console@;
        let ghost x0 = self.left + rel_x;
        let ghost y0 = self.top + rel_y;
        let chars = chars_of(text);
        assert(self.can_print(rel_x as int, rel_y as int, text@.len()));
        assert(cursor_fits(
            self.bounds(),
            self.bounds().left + rel_x as int,
            self.bounds().top + rel_y as int,
            0nat,
        ));
        let mut x: u16 = self.left + rel_x;
        let mut y: u16 = self.top + rel_y;
        let mut i: usize = 0;
        assert(chars@.subrange(0, 0) =~= Seq::<char>::empty());
        while i < chars.len()
            invariant
                i <= chars.len(),
                chars@ == text@,
                x0 == self.bounds().left + rel_x,
                y0 == self.bounds().top + rel_y,
                self.can_print(rel_x as int, rel_y as int, text@.len()),
                (x as int, y as int) == cursor_after(self.bounds(), x0, y0, i as nat),
                console@ == text_written(self.bounds(), start, x0, y0, chars@.subrange(0, i as int)),
            decreases chars.len() - i,
        {
            let ghost prefix = chars@.subrange(0, i + 1);
            assert(prefix.drop_last() =~= chars@.subrange(0, i as int));
            assert(prefix.last() == chars@[i as int]);
            console.write_char(x, y, chars[i]);
            assert(cursor_fits(self.bounds(), x0, y0, (i + 1) as nat));
            if x as u32 + 1 == self.left as u32 + self.width as u32 {
                x = self.left;
                y = y + 1;
            } else {
                x = x + 1;
            }
            i = i + 1;
        }
        assert(chars@.subrange(0, chars@.len() as int) =~= text@);
    }

    fn sub_region(&self, rel_x: u16, rel_y: u16, width: u16, height: u16) -> (sub: UnixRegion) {
        UnixRegion { left: self.left + rel_x, top: self.top + rel_y, width, height }
    }
}

/// Colors are sent once: asking for the pair in use sends nothing.
pub proof fn colors_are_sent_once(terminal: Terminal, background: Color, foreground: Color)
    ensures
        terminal.colored(background, foreground).colored(background, foreground)
            == terminal.colored(background, foreground),
        terminal.colored(background, foreground).background == background,
        terminal.colored(background, foreground).foreground == foreground,
{
}

/// Writing along a row skips the cursor move: a character written just
/// right of the last one is sent by itself.
pub proof fn writes_in_a_row_skip_the_move(terminal: Terminal, x: int, y: int, first: char, next: char)
    ensures
        terminal.char_written(x, y, first).char_written(x + 1, y, next).output
            == terminal.char_written(x, y, first).output.push(next),
{
    let once = terminal.char_written(x, y, first);
    assert(once.char_written(x + 1, y, next).output =~= once.output.push(next));
}

/// While the text stays left of the right edge of the region, the cursor
/// of `print` walks along one row.
pub proof fn cursor_stays_in_the_row(bounds: Bounds, x: int, y: int, count: nat)
    requires
        x + count <= bounds.left + bounds.width - 1 || count == 0,
    ensures
        cursor_after(bounds, x, y, count) == (x + count, y),
    decreases count,
{
    if count > 0 {
        cursor_stays_in_the_row(bounds, x, y, (count - 1) as nat);
    }
}

/// Text that fits into its row is sent as it is, behind at most one cursor
/// move: where all of `text`, written from `(x, y)` on, lies left of or on
/// the last column of the region, the terminal is sent the move to `(x, y)`
/// if it needs one, and then the text.
pub proof fn text_in_a_row_is_sent_whole(
    bounds: Bounds,
    terminal: Terminal,
    x: int,
    y: int,
    text: Seq<char>,
)
    requires
        text.len() > 0,
        x + text.len() <= bounds.left + bounds.width,
    ensures
        text_written(bounds, terminal, x, y, text).output == terminal.output + (if terminal.must_move(
            x,
            y,
        ) {
            cursor_sequence(x, y)
        } else {
            Seq::empty()
        }) + text,
        text_written(bounds, terminal, x, y, text).x == x + text.len() - 1,
        text_written(bounds, terminal, x, y, text).y == y,
    decreases text.len(),
{
    let lead = if terminal.must_move(x, y) {
        cursor_sequence(x, y)
    } else {
        Seq::empty()
    };
    cursor_stays_in_the_row(bounds, x, y, (text.len() - 1) as nat);
    if text.len() == 1 {
        assert(text.drop_last().len() == 0);
        assert(text_written(bounds, terminal, x, y, text).output =~= terminal.output + lead
            + text);
    } else {
        text_in_a_row_is_sent_whole(bounds, terminal, x, y, text.drop_last());
        let before = text_written(bounds, terminal, x, y, text.drop_last());
        assert(!before.must_move(x + text.len() - 1, y));
        assert(text_written(bounds, terminal, x, y, text).output =~= terminal.output + lead
            + text);
    }
}

/// Writing text changes neither the colors in use nor what the console knows
/// of its terminal.
pub proof fn writing_keeps_the_colors(
    bounds: Bounds,
    terminal: Terminal,
    x: int,
    y: int,
    text: Seq<char>,
)
    ensures
        text_written(bounds, terminal, x, y, text).background == terminal.background,
        text_written(bounds, terminal, x, y, text).foreground == terminal.foreground,
        text_written(bounds, terminal, x, y, text).function_sequences
            == terminal.function_sequences,
        text_written(bounds, terminal, x, y, text).width == terminal.width,
        text_written(bounds, terminal, x, y, text).height == terminal.height,
    decreases text.len(),
{
    if text.len() > 0 {
        writing_keeps_the_colors(bounds, terminal, x, y, text.drop_last());
    }
}

/// What is queued once the first `count` rows of a region were filled: the
/// fill color is selected once, the first row follows behind a cursor move
/// if the terminal needs one, and each further row behind the move to its
/// first cell.
pub open spec fn rows_output(region: UnixRegion, terminal: Terminal, color: Color, count: nat) -> Seq<
    char,
>
    decreases count,
{
    let dots = repeated_spec('.', region.width as nat);
    if count == 0 {
        terminal.output
    } else if count == 1 {
        terminal.colored(color, terminal.foreground).output + (if terminal.must_move(
            region.left as int,
            region.top as int,
        ) {
            cursor_sequence(region.left as int, region.top as int)
        } else {
            Seq::empty()
        }) + dots
    } else {
        rows_output(region, terminal, color, (count - 1) as nat) + cursor_sequence(
            region.left as int,
            region.top + count - 1,
        ) + dots
    }
}

/// A row printed full of dots in the colors in use is sent as one run: the
/// move to its first cell, where the terminal needs one, and then the dots.
pub proof fn row_is_sent_as_a_run(region: UnixRegion, terminal: Terminal, row: int)
    requires
        region.width >= 1,
    ensures
        region.printed(
            terminal,
            0,
            row,
            terminal.background,
            terminal.foreground,
            repeated_spec('.', region.width as nat),
        ) == (Terminal {
            x: region.left + region.width - 1,
            y: region.top + row,
            output: terminal.output + (if terminal.must_move(
                region.left as int,
                region.top + row,
            ) {
                cursor_sequence(region.left as int, region.top + row)
            } else {
                Seq::empty()
            }) + repeated_spec('.', region.width as nat),
            ..terminal
        }),
{
    let bounds = region.bounds();
    let dots = repeated_spec('.', region.width as nat);
    assert(terminal.colored(terminal.background, terminal.foreground) == terminal);
    text_in_a_row_is_sent_whole(bounds, terminal, bounds.left, bounds.top + row, dots);
    writing_keeps_the_colors(bounds, terminal, bounds.left, bounds.top + row, dots);
}

/// Filling sends every row of the region as one run of dots, and leaves the
/// cursor on the last cell of the last row.
pub proof fn rows_are_sent_as_runs(region: UnixRegion, terminal: Terminal, color: Color, count: nat)
    requires
        region.width >= 1,
        count >= 1,
    ensures
        rows_filled(&region, terminal, color, count) == (Terminal {
            x: region.left + region.width - 1,
            y: region.top + count - 1,
            output: rows_output(region, terminal, color, count),
            ..terminal.colored(color, terminal.foreground)
        }),
    decreases count,
{
    let dots = repeated_spec('.', region.width as nat);
    let first = terminal.colored(color, terminal.foreground);
    let before = rows_filled(&region, terminal, color, (count - 1) as nat);
    if count == 1 {
        colors_are_sent_once(terminal, color, terminal.foreground);
        row_is_sent_as_a_run(region, first, 0);
    } else {
        rows_are_sent_as_runs(region, terminal, color, (count - 1) as nat);
        row_is_sent_as_a_run(region, before, count - 1);
    }
}

/// The cursor of `print` never gets further right or down than one step for
/// every character.
pub proof fn cursor_moves_one_step_a_character(bounds: Bounds, x: int, y: int, count: nat)
    requires
        bounds.left <= x,
    ensures
        cursor_after(bounds, x, y, count).0 <= x + count,
        cursor_after(bounds, x, y, count).1 <= y + count,
    decreases count,
{
    if count > 0 {
        cursor_moves_one_step_a_character(bounds, x, y, (count - 1) as nat);
    }
}

/// A text can be printed wherever its length, added to the column and to the
/// row that it starts at, stays within the coordinates of a terminal.
pub proof fn short_texts_can_be_printed(region: UnixRegion, rel_x: int, rel_y: int, len: nat)
    requires
        0 <= rel_x,
        region.left + rel_x + len <= u16::MAX,
        region.top + rel_y + len <= u16::MAX,
    ensures
        region.can_print(rel_x, rel_y, len),
{
    assert forall|count: nat| count <= len implies #[trigger] cursor_fits(
        region.bounds(),
        region.bounds().left + rel_x,
        region.bounds().top + rel_y,
        count,
    ) by {
        cursor_moves_one_step_a_character(
            region.bounds(),
            region.bounds().left + rel_x,
            region.bounds().top + rel_y,
            count,
        );
    }
}

/// Filling writes inside the region and nowhere else: every dot of every
/// row lands on a cell of the region, and so does every character of the
/// label, which is printed only where all of it does.
pub proof fn fill_stays_in_the_region(region: UnixRegion, row: int, index: nat)
    ensures
        0 <= row < region.height && index < region.width ==> {
            let at = cursor_after(
                region.bounds(),
                region.bounds().left,
                region.bounds().top + row,
                index,
            );
            at == (region.left + index, region.top + row) && region.bounds().contains(at.0, at.1)
        },
        label_fits(region.bounds()) && index < size_label(region.bounds()).len() ==> {
            let at = cursor_after(
                region.bounds(),
                region.bounds().left + 3,
                region.bounds().top + 5,
                index,
            );
            at == (region.left + 3 + index, region.top + 5) && region.bounds().contains(
                at.0,
                at.1,
            )
        },
{
    if 0 <= row < region.height && index < region.width {
        cursor_stays_in_the_row(
            region.bounds(),
            region.bounds().left,
            region.bounds().top + row,
            index,
        );
    }
    if label_fits(region.bounds()) && index < size_label(region.bounds()).len() {
        cursor_stays_in_the_row(
            region.bounds(),
            region.bounds().left + 3,
            region.bounds().top + 5,
            index,
        );
    }
}

/// A region too small for its label is filled by its rows alone.
pub proof fn small_regions_get_no_label(region: UnixRegion, terminal: Terminal, color: Color)
    requires
        region.height <= 5 || region.width < 6,
    ensures
        region.filled(terminal, color) == rows_filled(
            &region,
            terminal,
            color,
            region.height as nat,
        ),
{
    assert(decimal_spec(region.width as nat).len() >= 1);
    assert(decimal_spec(region.height as nat).len() >= 1);
}

/// The tracked cursor follows the cursor of the terminal: after a move the
/// terminal's cursor stands where it was put, after a character one cell
/// right of it, and after clearing in the corner. A write then takes a move
/// exactly where the terminal's cursor does not stand on its cell, so text
/// lands where it is told to.
pub proof fn text_lands_where_it_is_told(terminal: Terminal, x: int, y: int, ch: char)
    ensures
        terminal.moved(x, y).stands_on() == (x, y),
        terminal.char_written(x, y, ch).stands_on() == (x + 1, y),
        terminal.cleared().stands_on() == (0int, 0int),
        terminal.must_move(x, y) <==> terminal.stands_on() != (x, y),
        terminal.char_written(x, y, ch).output == terminal.output + (if terminal.stands_on() != (
            x,
            y,
        ) {
            cursor_sequence(x, y)
        } else {
            Seq::empty()
        }) + seq![ch],
{
    assert(terminal.char_written(x, y, ch).output =~= terminal.output + (if terminal.stands_on()
        != (x, y) {
        cursor_sequence(x, y)
    } else {
        Seq::empty()
    }) + seq![ch]);
}

} // verus!
