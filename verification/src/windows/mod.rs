//! The console of the native Windows console API.
//!
//! The console never calls the platform. Drawing queues the native commands
//! that have to be carried out; whoever owns the handles takes them with
//! [`WindowsConsole::take_commands`] and carries them out in order. Input
//! works the other way round: the console says what it needs to know next,
//! and is told what the platform answered.

pub mod utils;

use crate::color::Color;
use crate::event::Event;
use crate::region::{Bounds, Region};
use crate::text::{chars_of, encode_utf16, utf16_spec};
use crate::windows::utils::{
    background_attributes_spec, color_to_background_attributes, color_to_foreground_attributes,
    control_key_states_spec, foreground_attributes_spec, get_control_key_states, get_key,
    key_spec, KeyEventRecord,
};
use std::collections::VecDeque;
use vstd::prelude::*;

verus! {

// Bits of the button state of a native mouse record.
pub const FROM_LEFT_1ST_BUTTON_PRESSED: u32 = 0x0001;

pub const RIGHTMOST_BUTTON_PRESSED: u32 = 0x0002;

// What a native mouse record reports, by its event flags. A record without
// flags reports a button that went down or up.
pub const MOUSE_MOVED: u32 = 0x0001;

pub const DOUBLE_CLICK: u32 = 0x0002;

pub const MOUSE_WHEELED: u32 = 0x0004;

pub const MOUSE_HWHEELED: u32 = 0x0008;

// Bits of the input mode of a native console.
pub const ENABLE_WINDOW_INPUT: u32 = 0x0008;

pub const ENABLE_MOUSE_INPUT: u32 = 0x0010;

pub const ENABLE_EXTENDED_FLAGS: u32 = 0x0080;

/// The input mode that a console needs while it is in use: window and mouse
/// input, with extended flags.
pub const CONSOLE_INPUT_MODE: u32 = ENABLE_WINDOW_INPUT | ENABLE_MOUSE_INPUT
    | ENABLE_EXTENDED_FLAGS;

/// A native mouse record, as plain values.
#[derive(Clone, Copy, Debug, PartialEq, Eq, Structural)]
pub struct MouseEventRecord {
    pub x: i16,
    pub y: i16,
    /// Bits of the buttons held; the high word is the wheel's movement.
    pub button_state: u32,
    /// Bits of the lock and modifier keys.
    pub control_key_state: u32,
    /// What the record reports: 0 or one of the event flags.
    pub event_flags: u32,
}

/// A native input record, as plain values.
#[derive(Clone, Copy, Debug, PartialEq, Eq, Structural)]
pub enum InputRecord {
    Key(KeyEventRecord),
    Mouse(MouseEventRecord),
    /// The screen buffer changed its size.
    WindowBufferSize,
    /// A record of any other kind: a menu or a focus record.
    Other,
}

/// What the platform says of a screen buffer, as far as the console reads it.
#[derive(Clone, Copy, Debug, PartialEq, Eq, Structural)]
pub struct ScreenBufferInfo {
    /// Columns of the buffer.
    pub size_x: u16,
    /// Rows of the buffer.
    pub size_y: u16,
    /// Attribute that the buffer writes with.
    pub attributes: u16,
    pub window_left: u16,
    pub window_top: u16,
    pub window_right: u16,
    pub window_bottom: u16,
}

/// A native command on the screen buffer, as it has to be carried out.
#[derive(Debug)]
pub enum ConsoleCommand {
    /// Write `count` copies of a character, from `(x, y)` on.
    FillCharacter { character: u8, count: u32, x: u16, y: u16 },
    /// Set the attribute of `count` cells, from `(x, y)` on.
    FillAttribute { attribute: u16, count: u32, x: u16, y: u16 },
    /// Write UTF-16 text, from `(x, y)` on.
    WriteCharacters { text: Vec<u16>, x: u16, y: u16 },
    /// Write one attribute into each of `length` cells in a row, from
    /// `(x, y)` on.
    WriteAttributes { attribute: u16, length: usize, x: u16, y: u16 },
    /// Put the cursor on `(x, y)`.
    SetCursorPosition { x: u16, y: u16 },
}

/// The mathematical value of a [`ConsoleCommand`].
pub enum Command {
    FillCharacter { character: u8, count: u32, x: u16, y: u16 },
    FillAttribute { attribute: u16, count: u32, x: u16, y: u16 },
    WriteCharacters { text: Seq<u16>, x: u16, y: u16 },
    WriteAttributes { attribute: u16, length: usize, x: u16, y: u16 },
    SetCursorPosition { x: u16, y: u16 },
}

impl View for ConsoleCommand {
    type V = Command;

    open spec fn view(&self) -> Command {
        match self {
            ConsoleCommand::FillCharacter { character, count, x, y } => Command::FillCharacter {
                character: *character,
                count: *count,
                x: *x,
                y: *y,
            },
            ConsoleCommand::FillAttribute { attribute, count, x, y } => Command::FillAttribute {
                attribute: *attribute,
                count: *count,
                x: *x,
                y: *y,
            },
            ConsoleCommand::WriteCharacters { text, x, y } => Command::WriteCharacters {
                text: text@,
                x: *x,
                y: *y,
            },
            ConsoleCommand::WriteAttributes { attribute, length, x, y } => Command::WriteAttributes {
                attribute: *attribute,
                length: *length,
                x: *x,
                y: *y,
            },
            ConsoleCommand::SetCursorPosition { x, y } => Command::SetCursorPosition {
                x: *x,
                y: *y,
            },
        }
    }
}

/// A rectangle of a native console, by its edges.
#[derive(Clone, Copy, Debug, PartialEq, Eq, Structural)]
pub struct WindowsRegion {
    pub top: u16,
    pub left: u16,
    pub bottom: u16,
    pub right: u16,
}

/// How far `to` lies behind `from`; nothing where it lies before it.
pub open spec fn span(from: u16, to: u16) -> int {
    if to >= from {
        to - from
    } else {
        0
    }
}

fn distance(from: u16, to: u16) -> (d: u16)
    ensures
        d == span(from, to),
{
    if to >= from {
        to - from
    } else {
        0
    }
}

impl WindowsRegion {
    /// The region of the window that a screen buffer is seen through.
    pub fn from_screen(info: &ScreenBufferInfo) -> (region: WindowsRegion)
        ensures
            region == (WindowsRegion {
                top: info.window_top,
                left: info.window_left,
                bottom: info.window_bottom,
                right: info.window_right,
            }),
    {
        WindowsRegion {
            top: info.window_top,
            left: info.window_left,
            bottom: info.window_bottom,
            right: info.window_right,
        }
    }
}

/// What a native console has queued and remembers: the mathematical value of
/// a [`WindowsConsole`].
pub struct NativeConsole {
    /// The commands queued for the screen buffer, oldest first.
    pub commands: Seq<Command>,
    /// The events waiting to be delivered, oldest first.
    pub events: Seq<Event>,
    /// The window as it was last measured.
    pub full_screen_region: WindowsRegion,
}

impl NativeConsole {
    /// The console with more commands queued behind those queued already.
    pub open spec fn commanded(self, commands: Seq<Command>) -> NativeConsole {
        NativeConsole { commands: self.commands + commands, ..self }
    }
}

/// The console of a native Windows console.
#[derive(Debug)]
pub struct WindowsConsole {
    event_buffer: VecDeque<Event>,
    full_screen_region: WindowsRegion,
    commands: Vec<ConsoleCommand>,
}

impl View for WindowsConsole {
    type V = NativeConsole;

    closed spec fn view(&self) -> NativeConsole {
        NativeConsole {
            commands: Seq::new(self.commands@.len(), |i: int| self.commands@[i]@),
            events: self.event_buffer@,
            full_screen_region: self.full_screen_region,
        }
    }
}

/// The attribute of text in one color on a background in another.
pub open spec fn attribute_spec(background: Color, foreground: Color) -> u16 {
    (background_attributes_spec(background) + foreground_attributes_spec(foreground)) as u16
}

/// The commands that fill a rectangle: for every row, from the top down,
/// spaces over its width, then the attribute of the background color over
/// its width.
pub open spec fn fill_commands(region: WindowsRegion, color: Color) -> Seq<Command> {
    Seq::new(
        (2 * region.bounds().height) as nat,
        |i: int|
            if i % 2 == 0 {
                Command::FillCharacter {
                    character: 32,
                    count: region.bounds().width as u32,
                    x: region.left,
                    y: (region.top + i / 2) as u16,
                }
            } else {
                Command::FillAttribute {
                    attribute: background_attributes_spec(color),
                    count: region.bounds().width as u32,
                    x: region.left,
                    y: (region.top + i / 2) as u16,
                }
            },
    )
}

/// The commands that print a text: the text in UTF-16, then its attribute
/// once for every unit of the text, both from the same cell on.
pub open spec fn print_commands(
    region: WindowsRegion,
    rel_x: int,
    rel_y: int,
    background: Color,
    foreground: Color,
    text: Seq<char>,
) -> Seq<Command> {
    seq![
        Command::WriteCharacters {
            text: utf16_spec(text),
            x: (region.left + rel_x) as u16,
            y: (region.top + rel_y) as u16,
        },
        Command::WriteAttributes {
            attribute: attribute_spec(background, foreground),
            length: utf16_spec(text).len() as usize,
            x: (region.left + rel_x) as u16,
            y: (region.top + rel_y) as u16,
        },
    ]
}

/// The commands that clear a screen buffer: spaces over all its cells, then
/// its own attribute over all its cells, then the cursor into the corner.
pub open spec fn clear_commands(info: ScreenBufferInfo) -> Seq<Command> {
    seq![
        Command::FillCharacter {
            character: 32,
            count: (info.size_x * info.size_y) as u32,
            x: 0,
            y: 0,
        },
        Command::FillAttribute {
            attribute: info.attributes,
            count: (info.size_x * info.size_y) as u32,
            x: 0,
            y: 0,
        },
        Command::SetCursorPosition { x: 0, y: 0 },
    ]
}

/// What the wheel moved by: the high word of the button state, read as a
/// signed number.
pub open spec fn wheel_amount_spec(button_state: u32) -> i16 {
    let high = button_state as int / 0x10000;
    if high < 0x8000 {
        high as i16
    } else {
        (high - 0x10000) as i16
    }
}

/// The event that a native mouse record reports, if any.
pub open spec fn mouse_event_spec(record: MouseEventRecord) -> Option<Event> {
    let control_key_state = control_key_states_spec(record.control_key_state);
    let left_button = record.button_state & FROM_LEFT_1ST_BUTTON_PRESSED != 0;
    let right_button = record.button_state & RIGHTMOST_BUTTON_PRESSED != 0;
    let amount = wheel_amount_spec(record.button_state);
    let x = record.x;
    let y = record.y;
    if record.event_flags == 0 {
        Some(Event::MouseButtonStateChange { x, y, left_button, right_button, control_key_state })
    } else if record.event_flags == DOUBLE_CLICK {
        Some(Event::MouseDoubleClick { x, y, left_button, right_button, control_key_state })
    } else if record.event_flags == MOUSE_HWHEELED {
        Some(Event::MouseHorizontalWheel { x, y, amount, control_key_state })
    } else if record.event_flags == MOUSE_WHEELED {
        Some(Event::MouseWheel { x, y, amount, control_key_state })
    } else if record.event_flags == MOUSE_MOVED {
        Some(Event::MouseMove { x, y, control_key_state })
    } else {
        None
    }
}

/// The event that a native keyboard record reports, if any: the key pressed
/// or released, with the modifiers held.
pub open spec fn key_event_spec(record: KeyEventRecord) -> Option<Event> {
    match key_spec(record) {
        Some(key) => {
            let control_key_state = control_key_states_spec(record.control_key_state);
            if record.key_down {
                Some(Event::KeyPressed { key, control_key_state })
            } else {
                Some(Event::KeyReleased { key, control_key_state })
            }
        },
        None => None,
    }
}

/// How many more times the event of a keyboard record is due after it was
/// delivered once: a record that repeats its key `n` times stands for `n`
/// events.
pub open spec fn repeats_spec(record: KeyEventRecord) -> nat {
    if record.repeat_count > 1 {
        (record.repeat_count - 1) as nat
    } else {
        0
    }
}

/// The event that reports the size of a window.
pub open spec fn resize_event(window: WindowsRegion) -> Event {
    Event::Resize { width: window.bounds().width as u16, height: window.bounds().height as u16 }
}

/// What the platform answered to the console's last request.
#[derive(Clone, Copy, Debug, PartialEq, Eq, Structural)]
pub enum Answer {
    /// Nothing was asked yet: the caller wants the next event.
    Start,
    /// A record was waiting, and was read.
    Record(InputRecord),
    /// No record was waiting; the window measures this.
    Idle(WindowsRegion),
    /// The window measures this, after a record said that its size changed.
    Measured(WindowsRegion),
}

/// What the console needs next.
#[derive(Clone, Copy, Debug, PartialEq, Eq, Structural)]
pub enum Request {
    /// Nothing: this is the next event.
    Deliver(Event),
    /// Read the record that is waiting and answer with it; where none is
    /// waiting, measure the window and answer that the input is idle.
    Poll,
    /// Measure the window and answer with it.
    Measure,
}

impl NativeConsole {
    /// The step taken where no answer yields an event: the oldest waiting
    /// event is delivered, and where none waits the platform is polled.
    pub open spec fn resumed(self) -> (NativeConsole, Request) {
        if self.events.len() > 0 {
            (
                NativeConsole { events: self.events.drop_first(), ..self },
                Request::Deliver(self.events[0]),
            )
        } else {
            (self, Request::Poll)
        }
    }

    /// The step taken on an answer of the platform: the console afterwards
    /// and what it needs next.
    ///
    /// A keyboard record delivers its event and queues it once more for every
    /// further repeat. A mouse record delivers its event. A record of a
    /// changed size asks for the window to be measured; the measure is
    /// remembered and delivered as a resize. An idle input delivers a resize
    /// only where the window measures otherwise than remembered. Everything
    /// else resumes.
    pub open spec fn stepped(self, answer: Answer) -> (NativeConsole, Request) {
        match answer {
            Answer::Start => self.resumed(),
            Answer::Record(InputRecord::Key(record)) => match key_event_spec(record) {
                Some(event) => (
                    NativeConsole {
                        events: self.events + Seq::new(repeats_spec(record), |i: int| event),
                        ..self
                    },
                    Request::Deliver(event),
                ),
                None => self.resumed(),
            },
            Answer::Record(InputRecord::Mouse(record)) => match mouse_event_spec(record) {
                Some(event) => (self, Request::Deliver(event)),
                None => self.resumed(),
            },
            Answer::Record(InputRecord::WindowBufferSize) => (self, Request::Measure),
            Answer::Record(InputRecord::Other) => self.resumed(),
            Answer::Idle(window) => if window != self.full_screen_region {
                (
                    NativeConsole { full_screen_region: window, ..self },
                    Request::Deliver(resize_event(window)),
                )
            } else {
                self.resumed()
            },
            Answer::Measured(window) => (
                NativeConsole { full_screen_region: window, ..self },
                Request::Deliver(resize_event(window)),
            ),
        }
    }
}

/// Reads what the wheel moved by out of the button state of a mouse record.
pub fn wheel_amount(button_state: u32) -> (amount: i16)
    ensures
        amount == wheel_amount_spec(button_state),
{
    let high: u32 = button_state >> 16;
    assert(high == button_state / 0x10000 && high < 0x10000) by (bit_vector)
        requires
            high == button_state >> 16,
    ;
    if high < 0x8000 {
        high as i16
    } else {
        (high as i32 - 0x10000) as i16
    }
}

/// Finds the event that a native mouse record reports.
pub fn get_mouse_event(record: &MouseEventRecord) -> (event: Option<Event>)
    ensures
        event == mouse_event_spec(*record),
{
    let control_key_state = get_control_key_states(record.control_key_state);
    let left_button = (record.button_state & FROM_LEFT_1ST_BUTTON_PRESSED) != 0;
    let right_button = (record.button_state & RIGHTMOST_BUTTON_PRESSED) != 0;
    let x = record.x;
    let y = record.y;
    if record.event_flags == 0 {
        Some(Event::MouseButtonStateChange { x, y, left_button, right_button, control_key_state })
    } else if record.event_flags == DOUBLE_CLICK {
        Some(Event::MouseDoubleClick { x, y, left_button, right_button, control_key_state })
    } else if record.event_flags == MOUSE_HWHEELED {
        Some(
            Event::MouseHorizontalWheel {
                x,
                y,
                amount: wheel_amount(record.button_state),
                control_key_state,
            },
        )
    } else if record.event_flags == MOUSE_WHEELED {
        Some(
            Event::MouseWheel { x, y, amount: wheel_amount(record.button_state), control_key_state },
        )
    } else if record.event_flags == MOUSE_MOVED {
        Some(Event::MouseMove { x, y, control_key_state })
    } else {
        None
    }
}

/// Finds the event that a native keyboard record reports.
pub fn get_key_event(record: &KeyEventRecord) -> (event: Option<Event>)
    ensures
        event == key_event_spec(*record),
{
    match get_key(record) {
        Some(key) => {
            let control_key_state = get_control_key_states(record.control_key_state);
            if record.key_down {
                Some(Event::KeyPressed { key, control_key_state })
            } else {
                Some(Event::KeyReleased { key, control_key_state })
            }
        },
        None => None,
    }
}

/// Creates the console of a screen buffer from what the platform says of it.
pub fn create_console(info: &ScreenBufferInfo) -> (console: WindowsConsole)
    ensures
        console@ == (NativeConsole {
            commands: Seq::empty(),
            events: Seq::empty(),
            full_screen_region: WindowsRegion {
                top: info.window_top,
                left: info.window_left,
                bottom: info.window_bottom,
                right: info.window_right,
            },
        }),
{
    let console = WindowsConsole {
        event_buffer: VecDeque::new(),
        full_screen_region: WindowsRegion::from_screen(info),
        commands: Vec::new(),
    };
    assert(console@.commands =~= Seq::empty());
    console
}

impl WindowsConsole {
    fn push_command(&mut self, command: ConsoleCommand)
        ensures
            final(self)@ == old(self)@.commanded(seq![command@]),
    {
        self.commands.push(command);
        assert(self@.commands =~= old(self)@.commands + seq![command@]);
    }

    /// Hands out the commands queued for the screen buffer, oldest first, and
    /// leaves none queued.
    pub fn take_commands(&mut self) -> (commands: Vec<ConsoleCommand>)
        ensures
            commands@.len() == old(self)@.commands.len(),
            forall|i: int| 0 <= i < commands@.len() ==> (#[trigger] commands@[i])@ == old(self)@.commands[i],
            final(self)@ == (NativeConsole { commands: Seq::empty(), ..old(self)@ }),
    {
        let mut commands: Vec<ConsoleCommand> = Vec::new();
        std::mem::swap(&mut self.commands, &mut commands);
        assert(self@.commands =~= Seq::empty());
        commands
    }

    /// How many events wait to be delivered.
    pub fn waiting_events(&self) -> (count: usize)
        ensures
            count == self@.events.len(),
    {
        self.event_buffer.len()
    }

    /// Erases the whole screen buffer and homes the cursor.
    pub fn clear(&mut self, info: &ScreenBufferInfo)
        ensures
            final(self)@ == old(self)@.commanded(clear_commands(*info)),
    {
        assert(info.size_x * info.size_y <= 0xFFFF * 0xFFFF) by (nonlinear_arith)
            requires
                0 <= info.size_x <= 0xFFFF,
                0 <= info.size_y <= 0xFFFF,
        ;
        let console_size: u32 = info.size_x as u32 * info.size_y as u32;
        self.push_command(
            ConsoleCommand::FillCharacter { character: 32, count: console_size, x: 0, y: 0 },
        );
        self.push_command(
            ConsoleCommand::FillAttribute {
                attribute: info.attributes,
                count: console_size,
                x: 0,
                y: 0,
            },
        );
        self.push_command(ConsoleCommand::SetCursorPosition { x: 0, y: 0 });
        assert(self@.commands =~= old(self)@.commands + clear_commands(*info));
    }

    /// The region of the window, as it was last measured.
    pub fn full_screen(&self) -> (region: WindowsRegion)
        ensures
            region == self@.full_screen_region,
    {
        self.full_screen_region
    }

    fn resume(&mut self) -> (request: Request)
        ensures
            (final(self)@, request) == old(self)@.resumed(),
    {
        match self.event_buffer.pop_front() {
            Some(event) => Request::Deliver(event),
            None => Request::Poll,
        }
    }

    /// Takes one step towards the next event: given what the platform
    /// answered to the last request, says what is needed next. The caller
    /// starts with [`Answer::Start`] and goes on until an event is delivered.
    pub fn get_next_event(&mut self, answer: Answer) -> (request: Request)
        ensures
            (final(self)@, request) == old(self)@.stepped(answer),
    {
        match answer {
            Answer::Start => self.resume(),
            Answer::Record(InputRecord::Key(record)) => match get_key_event(&record) {
                Some(event) => {
                    let mut queued: u16 = 1;
                    while queued < record.repeat_count
                        invariant
                            1 <= queued,
                            queued <= record.repeat_count || queued == 1,
                            self.full_screen_region == old(self).full_screen_region,
                            self.commands == old(self).commands,
                            self.event_buffer@ == old(self).event_buffer@ + Seq::new(
                                (queued - 1) as nat,
                                |i: int| event,
                            ),
                        decreases record.repeat_count - queued,
                    {
                        self.event_buffer.push_back(event);
                        queued = queued + 1;
                        assert(self.event_buffer@ =~= old(self).event_buffer@ + Seq::new(
                            (queued - 1) as nat,
                            |i: int| event,
                        ));
                    }
                    assert(self.event_buffer@ =~= old(self).event_buffer@ + Seq::new(
                        repeats_spec(record),
                        |i: int| event,
                    ));
                    Request::Deliver(event)
                },
                None => self.resume(),
            },
            Answer::Record(InputRecord::Mouse(record)) => match get_mouse_event(&record) {
                Some(event) => Request::Deliver(event),
                None => self.resume(),
            },
            Answer::Record(InputRecord::WindowBufferSize) => Request::Measure,
            Answer::Record(InputRecord::Other) => self.resume(),
            Answer::Idle(window) => {
                if window != self.full_screen_region {
                    self.full_screen_region = window;
                    Request::Deliver(
                        Event::Resize { width: window.width(), height: window.height() },
                    )
                } else {
                    self.resume()
                }
            },
            Answer::Measured(window) => {
                self.full_screen_region = window;
                Request::Deliver(Event::Resize { width: window.width(), height: window.height() })
            },
        }
    }
}

impl Region for WindowsRegion {
    type Console = WindowsConsole;

    type Canvas = NativeConsole;

    /// A region whose right edge lies left of its left edge has no width, and
    /// one whose bottom lies above its top no height.
    open spec fn bounds(&self) -> Bounds {
        Bounds {
            left: self.left as int,
            top: self.top as int,
            width: span(self.left, self.right),
            height: span(self.top, self.bottom),
        }
    }

    open spec fn canvas(console: &WindowsConsole) -> NativeConsole {
        console@
    }

    open spec fn drawable(console: &WindowsConsole) -> bool {
        true
    }

    open spec fn can_carve(&self, rel_x: int, rel_y: int, width: int, height: int) -> bool {
        self.left + rel_x + width <= u16::MAX && self.top + rel_y + height <= u16::MAX
    }

    open spec fn carved(&self, rel_x: int, rel_y: int, width: int, height: int) -> WindowsRegion {
        WindowsRegion {
            top: (self.top + rel_y) as u16,
            left: (self.left + rel_x) as u16,
            bottom: (self.top + rel_y + height) as u16,
            right: (self.left + rel_x + width) as u16,
        }
    }

    open spec fn can_print(&self, rel_x: int, rel_y: int, len: nat) -> bool {
        self.left + rel_x <= u16::MAX && self.top + rel_y <= u16::MAX
    }

    open spec fn can_fill(&self) -> bool {
        true
    }

    /// The text is written on one row, from `(rel_x, rel_y)` on; it is not
    /// wrapped at the edge of the region.
    open spec fn printed(
        &self,
        canvas: NativeConsole,
        rel_x: int,
        rel_y: int,
        background: Color,
        foreground: Color,
        text: Seq<char>,
    ) -> NativeConsole {
        canvas.commanded(print_commands(*self, rel_x, rel_y, background, foreground, text))
    }

    open spec fn filled(&self, canvas: NativeConsole, color: Color) -> NativeConsole {
        canvas.commanded(fill_commands(*self, color))
    }

    proof fn carved_bounds(&self, rel_x: int, rel_y: int, width: int, height: int) {
    }

    fn height(&self) -> (height: u16) {
        distance(self.top, self.bottom)
    }

    fn width(&self) -> (width: u16) {
        distance(self.left, self.right)
    }

    fn sub_region(&self, rel_x: u16, rel_y: u16, width: u16, height: u16) -> (sub: WindowsRegion) {
        WindowsRegion {
            top: self.top + rel_y,
            left: self.left + rel_x,
            bottom: self.top + rel_y + height,
            right: self.left + rel_x + width,
        }
    }

    fn fill(&self, console: &mut WindowsConsole, color: Color) {
        let height = self.height();
        let width = self.width();
        let attribute = color_to_background_attributes(color);
        let mut row: u16 = 0;
        assert(console@.commands =~= old(console)@.commands + fill_commands(*self, color).subrange(
            0,
            0,
        ));
        while row < height
            invariant
                row <= height,
                height == self.bounds().height,
                width == self.bounds().width,
                attribute == background_attributes_spec(color),
                console@.events == old(console)@.events,
                console@.full_screen_region == old(console)@.full_screen_region,
                console@.commands == old(console)@.commands + fill_commands(*self, color).subrange(
                    0,
                    2 * row as int,
                ),
            decreases height - row,
        {
            let ghost all = fill_commands(*self, color);
            console.push_command(
                ConsoleCommand::FillCharacter {
                    character: 32,
                    count: width as u32,
                    x: self.left,
                    y: self.top + row,
                },
            );
            console.push_command(
                ConsoleCommand::FillAttribute {
                    attribute,
                    count: width as u32,
                    x: self.left,
                    y: self.top + row,
                },
            );
            assert(all.subrange(0, 2 * row + 2) =~= all.subrange(0, 2 * row as int) + seq![
                all[2 * row as int],
                all[2 * row + 1],
            ]);
            assert(console@.commands =~= old(console)@.commands + all.subrange(0, 2 * row + 2));
            row = row + 1;
        }
        assert(fill_commands(*self, color).subrange(0, 2 * height as int) =~= fill_commands(
            *self,
            color,
        ));
    }

    fn print(
        &self,
        console: &mut WindowsConsole,
        rel_x: u16,
        rel_y: u16,
        background: Color,
        foreground: Color,
        text: &str,
    ) {
        let x: u16 = self.left + rel_x;
        let y: u16 = self.top + rel_y;
        let chars = chars_of(text);
        let text_u16 = encode_utf16(&chars);
        let length = text_u16.len();
        let background_bits = color_to_background_attributes(background);
        let foreground_bits = color_to_foreground_attributes(foreground);
        let attribute = background_bits | foreground_bits;
        assert(attribute == background_bits + foreground_bits) by (bit_vector)
            requires
                attribute == background_bits | foreground_bits,
                background_bits % 16 == 0,
                background_bits < 256,
                foreground_bits < 16,
        ;
        console.push_command(ConsoleCommand::WriteCharacters { text: text_u16, x, y });
        console.push_command(ConsoleCommand::WriteAttributes { attribute, length, x, y });
        assert(console@.commands =~= old(console)@.commands + print_commands(
            *self,
            rel_x as int,
            rel_y as int,
            background,
            foreground,
            text@,
        ));
    }
}

/// Filling stays in the region: there are two commands for every row of the
/// region, each starts at the left edge of its row and covers exactly the
/// width of the region.
pub proof fn fill_commands_stay_in_the_region(region: WindowsRegion, color: Color, i: int)
    requires
        0 <= i < 2 * region.bounds().height,
        region.top <= region.bottom,
        region.left <= region.right,
    ensures
        fill_commands(region, color).len() == 2 * region.bounds().height,
        match fill_commands(region, color)[i] {
            Command::FillCharacter { character, count, x, y } => {
                &&& i % 2 == 0
                &&& character == 32
                &&& x == region.left
                &&& region.top <= y < region.bottom
                &&& y == region.top + i / 2
                &&& x + count == region.right
            },
            Command::FillAttribute { attribute, count, x, y } => {
                &&& i % 2 == 1
                &&& attribute == background_attributes_spec(color)
                &&& x == region.left
                &&& region.top <= y < region.bottom
                &&& y == region.top + i / 2
                &&& x + count == region.right
            },
            _ => false,
        },
{
}

/// The console after the caller asked for the next event `count` times, each
/// time from the start.
pub open spec fn asked(console: NativeConsole, count: nat) -> NativeConsole
    decreases count,
{
    if count == 0 {
        console
    } else {
        asked(console, (count - 1) as nat).stepped(Answer::Start).0
    }
}

/// What the console said when the caller asked for the next event for the
/// `count`-th time, counted from 0.
pub open spec fn asked_for(console: NativeConsole, count: nat) -> Request {
    asked(console, count).stepped(Answer::Start).1
}

/// A keyboard record that repeats its key stands for as many events as it
/// repeats: read while no event waits, a record with repeat count `n >= 1`
/// delivers its event at once, delivers the same event on each of the next
/// `n - 1` requests, and has the console poll the platform again on the
/// request after those.
pub proof fn key_repeat_is_expanded(console: NativeConsole, record: KeyEventRecord, event: Event)
    requires
        console.events.len() == 0,
        record.repeat_count >= 1,
        key_event_spec(record) == Some(event),
    ensures
        console.stepped(Answer::Record(InputRecord::Key(record))).1 == Request::Deliver(event),
        forall|k: nat|
            k < record.repeat_count - 1 ==> #[trigger] asked_for(
                console.stepped(Answer::Record(InputRecord::Key(record))).0,
                k,
            ) == Request::Deliver(event),
        asked_for(
            console.stepped(Answer::Record(InputRecord::Key(record))).0,
            (record.repeat_count - 1) as nat,
        ) == Request::Poll,
{
    let after = console.stepped(Answer::Record(InputRecord::Key(record))).0;
    let copies = (record.repeat_count - 1) as nat;
    assert(after.events =~= Seq::new(copies, |i: int| event));
    assert forall|k: nat| k <= copies implies (#[trigger] asked(after, k)).events == Seq::new(
        (copies - k) as nat,
        |i: int| event,
    ) by {
        events_after_asking(after, event, copies, k);
    }
    assert(asked(after, copies).events.len() == 0);
    assert forall|k: nat| k < copies implies #[trigger] asked_for(after, k) == Request::Deliver(
        event,
    ) by {
        assert(asked(after, k).events == Seq::new((copies - k) as nat, |i: int| event));
    }
}

proof fn events_after_asking(console: NativeConsole, event: Event, copies: nat, count: nat)
    requires
        console.events == Seq::new(copies, |i: int| event),
        count <= copies,
    ensures
        asked(console, count).events == Seq::new((copies - count) as nat, |i: int| event),
    decreases count,
{
    if count > 0 {
        events_after_asking(console, event, copies, (count - 1) as nat);
        let before = asked(console, (count - 1) as nat);
        assert(before.events.len() > 0);
        assert(before.events.drop_first() =~= Seq::new((copies - count) as nat, |i: int| event));
    }
}

} // verus!
