use rut::color::Color;
use rut::event::{ControlKeyStates, Event, Key};
use rut::frame::{Frame, FrameStyle};
use rut::region::Region;
use rut::windows::utils::{
    color_to_background_attributes, color_to_foreground_attributes, get_control_key_states,
    get_key, KeyEventRecord,
};
use rut::windows::{
    create_console, get_key_event, get_mouse_event, wheel_amount, Answer, ConsoleCommand,
    InputRecord, MouseEventRecord, Request, ScreenBufferInfo, WindowsConsole, WindowsRegion,
    CONSOLE_INPUT_MODE,
};

const PALETTE: [Color; 16] = [
    Color::Black,
    Color::Blue,
    Color::Green,
    Color::Cyan,
    Color::Red,
    Color::Magenta,
    Color::Brown,
    Color::LightGray,
    Color::DarkGray,
    Color::LightBlue,
    Color::LightGreen,
    Color::LightCyan,
    Color::LightRed,
    Color::LightMagenta,
    Color::Yellow,
    Color::White,
];

const NO_KEYS: ControlKeyStates = ControlKeyStates {
    capslock: false,
    numlock: false,
    scrolllock: false,
    shift: false,
    left_alt: false,
    right_alt: false,
    left_ctrl: false,
    right_ctrl: false,
};

fn info() -> ScreenBufferInfo {
    ScreenBufferInfo {
        size_x: 120,
        size_y: 300,
        attributes: 0x07,
        window_left: 0,
        window_top: 10,
        window_right: 79,
        window_bottom: 34,
    }
}

fn key(code: u16, ch: char, flags: u32) -> KeyEventRecord {
    KeyEventRecord {
        key_down: true,
        repeat_count: 1,
        virtual_key_code: code,
        unicode_char: ch as u16,
        control_key_state: flags,
    }
}

fn show(commands: &[ConsoleCommand]) -> Vec<String> {
    commands.iter().map(|c| format!("{:?}", c)).collect()
}

#[test]
fn control_key_states_from_bits() {
    assert_eq!(get_control_key_states(0), NO_KEYS);
    assert_eq!(get_control_key_states(0x0001), ControlKeyStates { right_alt: true, ..NO_KEYS });
    assert_eq!(get_control_key_states(0x0002), ControlKeyStates { left_alt: true, ..NO_KEYS });
    assert_eq!(get_control_key_states(0x0004), ControlKeyStates { right_ctrl: true, ..NO_KEYS });
    assert_eq!(get_control_key_states(0x0008), ControlKeyStates { left_ctrl: true, ..NO_KEYS });
    assert_eq!(get_control_key_states(0x0010), ControlKeyStates { shift: true, ..NO_KEYS });
    assert_eq!(get_control_key_states(0x0020), ControlKeyStates { numlock: true, ..NO_KEYS });
    assert_eq!(get_control_key_states(0x0040), ControlKeyStates { scrolllock: true, ..NO_KEYS });
    assert_eq!(get_control_key_states(0x0080), ControlKeyStates { capslock: true, ..NO_KEYS });
    assert_eq!(get_control_key_states(0x0100), NO_KEYS);
    let all = get_control_key_states(0xFFFF_FFFF);
    assert!(all.capslock && all.numlock && all.scrolllock && all.shift);
    assert!(all.left_alt && all.right_alt && all.left_ctrl && all.right_ctrl);
}

#[test]
fn alt_and_ctrl_are_either_side() {
    assert!(!NO_KEYS.alt());
    assert!(!NO_KEYS.ctrl());
    assert!(get_control_key_states(0x0001).alt());
    assert!(get_control_key_states(0x0002).alt());
    assert!(!get_control_key_states(0x0002).ctrl());
    assert!(get_control_key_states(0x0004).ctrl());
    assert!(get_control_key_states(0x0008).ctrl());
    assert!(!get_control_key_states(0x0008).alt());
    assert!(!get_control_key_states(0x0010).alt());
}

#[test]
fn named_keys() {
    let cases = [
        (0x08, Key::Backspace),
        (0x09, Key::Tab),
        (0x0D, Key::Enter),
        (0x10, Key::Shift),
        (0x14, Key::CapsLock),
        (0x90, Key::NumLock),
        (0x1B, Key::Escape),
        (0x21, Key::PageUp),
        (0x22, Key::PageDown),
        (0x24, Key::Home),
        (0x23, Key::End),
        (0x2E, Key::Delete),
        (0x2D, Key::Insert),
        (0x25, Key::Left),
        (0x27, Key::Right),
        (0x26, Key::Up),
        (0x28, Key::Down),
        (0x2C, Key::PrintScreen),
    ];
    for (code, expected) in cases {
        assert_eq!(get_key(&key(code, '\0', 0)), Some(expected));
        assert_eq!(get_key(&key(code, 'x', 0x0008)), Some(expected));
    }
}

#[test]
fn function_keys() {
    for n in 1..=24u16 {
        assert_eq!(get_key(&key(0x70 + n - 1, '\0', 0)), Some(Key::Function(n as u8)));
    }
    assert_eq!(get_key(&key(0x6F, '\0', 0)), None);
    assert_eq!(get_key(&key(0x88, '\0', 0)), None);
}

#[test]
fn character_keys() {
    assert_eq!(get_key(&key(0x41, 'a', 0)), Some(Key::CharKey('a')));
    assert_eq!(get_key(&key(0x41, 'A', 0x0010)), Some(Key::CharKey('A')));
    assert_eq!(get_key(&key(0x31, '!', 0x0010)), Some(Key::CharKey('!')));
    assert_eq!(get_key(&key(0xBA, '\u{e9}', 0)), Some(Key::CharKey('\u{e9}')));
    assert_eq!(get_key(&key(0x41, '\0', 0)), None);
}

#[test]
fn letters_with_ctrl_or_alt_come_from_the_key() {
    for flags in [0x0001, 0x0002, 0x0004, 0x0008, 0x000C] {
        assert_eq!(get_key(&key(0x41, '\u{1}', flags)), Some(Key::CharKey('a')));
        assert_eq!(get_key(&key(0x5A, '\u{1a}', flags)), Some(Key::CharKey('z')));
        assert_eq!(get_key(&key(0x41, '\u{1}', flags | 0x0010)), Some(Key::CharKey('A')));
        assert_eq!(get_key(&key(0x5A, '\u{1a}', flags | 0x0010)), Some(Key::CharKey('Z')));
        assert_eq!(get_key(&key(0x31, '1', flags)), Some(Key::CharKey('1')));
        assert_eq!(get_key(&key(0x40, '@', flags)), Some(Key::CharKey('@')));
        assert_eq!(get_key(&key(0x5B, '[', flags)), Some(Key::CharKey('[')));
        assert_eq!(get_key(&key(0x41, '\0', flags)), None);
    }
}

#[test]
fn half_a_surrogate_pair_is_no_key() {
    let mut record = key(0xE7, 'x', 0);
    record.unicode_char = 0xD83D;
    assert_eq!(get_key(&record), None);
    record.unicode_char = 0xDFFF;
    assert_eq!(get_key(&record), None);
    record.unicode_char = 0xD7FF;
    assert_eq!(get_key(&record), Some(Key::CharKey('\u{d7ff}')));
    record.unicode_char = 0xE000;
    assert_eq!(get_key(&record), Some(Key::CharKey('\u{e000}')));
    record.unicode_char = 0xFFFF;
    assert_eq!(get_key(&record), Some(Key::CharKey('\u{ffff}')));
}

#[test]
fn background_attributes() {
    let bits: Vec<u16> = PALETTE.iter().map(|c| color_to_background_attributes(*c)).collect();
    assert_eq!(
        bits,
        vec![
            0x00, 0x10, 0x20, 0x30, 0x40, 0x50, 0x60, 0x70, 0x80, 0x90, 0xA0, 0xB0, 0xC0, 0xD0,
            0xE0, 0xF0
        ]
    );
}

#[test]
fn foreground_attributes() {
    let bits: Vec<u16> = PALETTE.iter().map(|c| color_to_foreground_attributes(*c)).collect();
    assert_eq!(bits, vec![0, 1, 2, 3, 4, 5, 6, 7, 8, 9, 10, 11, 12, 13, 14, 15]);
}

#[test]
fn attributes_do_not_collide() {
    for (i, a) in PALETTE.iter().enumerate() {
        for (j, b) in PALETTE.iter().enumerate() {
            if i != j {
                assert_ne!(color_to_foreground_attributes(*a), color_to_foreground_attributes(*b));
                assert_ne!(color_to_background_attributes(*a), color_to_background_attributes(*b));
            }
        }
        assert_eq!(color_to_foreground_attributes(*a), color_to_foreground_attributes(*a));
        assert_eq!(color_to_background_attributes(*a), color_to_background_attributes(*a));
    }
}

#[test]
fn console_input_mode_enables_window_mouse_and_extended_flags() {
    assert_eq!(CONSOLE_INPUT_MODE, 0x0098);
}

#[test]
fn wheel_amount_is_the_signed_high_word() {
    assert_eq!(wheel_amount(0x0078_0000), 120);
    assert_eq!(wheel_amount(0xFF88_0000), -120);
    assert_eq!(wheel_amount(0x0000_FFFF), 0);
    assert_eq!(wheel_amount(0x7FFF_0003), 32767);
    assert_eq!(wheel_amount(0x8000_0000), -32768);
    assert_eq!(wheel_amount(0xFFFF_FFFF), -1);
}

#[test]
fn mouse_events_by_their_flags() {
    let record = |event_flags: u32, button_state: u32| MouseEventRecord {
        x: 7,
        y: -3,
        button_state,
        control_key_state: 0x0010,
        event_flags,
    };
    let control_key_state = ControlKeyStates { shift: true, ..NO_KEYS };
    assert_eq!(
        get_mouse_event(&record(0, 0x1)),
        Some(Event::MouseButtonStateChange {
            x: 7,
            y: -3,
            left_button: true,
            right_button: false,
            control_key_state
        })
    );
    assert_eq!(
        get_mouse_event(&record(0, 0x2)),
        Some(Event::MouseButtonStateChange {
            x: 7,
            y: -3,
            left_button: false,
            right_button: true,
            control_key_state
        })
    );
    assert_eq!(
        get_mouse_event(&record(2, 0x3)),
        Some(Event::MouseDoubleClick {
            x: 7,
            y: -3,
            left_button: true,
            right_button: true,
            control_key_state
        })
    );
    assert_eq!(
        get_mouse_event(&record(8, 0xFF88_0000)),
        Some(Event::MouseHorizontalWheel { x: 7, y: -3, amount: -120, control_key_state })
    );
    assert_eq!(
        get_mouse_event(&record(4, 0x0078_0001)),
        Some(Event::MouseWheel { x: 7, y: -3, amount: 120, control_key_state })
    );
    assert_eq!(
        get_mouse_event(&record(1, 0)),
        Some(Event::MouseMove { x: 7, y: -3, control_key_state })
    );
    assert_eq!(get_mouse_event(&record(3, 0)), None);
    assert_eq!(get_mouse_event(&record(16, 0)), None);
}

#[test]
fn key_events_pressed_and_released() {
    let mut record = key(0x41, 'a', 0x0080);
    let control_key_state = ControlKeyStates { capslock: true, ..NO_KEYS };
    assert_eq!(
        get_key_event(&record),
        Some(Event::KeyPressed { key: Key::CharKey('a'), control_key_state })
    );
    record.key_down = false;
    assert_eq!(
        get_key_event(&record),
        Some(Event::KeyReleased { key: Key::CharKey('a'), control_key_state })
    );
    record.unicode_char = 0;
    assert_eq!(get_key_event(&record), None);
}

#[test]
fn create_console_remembers_the_window() {
    let console = create_console(&info());
    assert_eq!(
        console.full_screen(),
        WindowsRegion { top: 10, left: 0, bottom: 34, right: 79 }
    );
    assert_eq!(console.full_screen(), WindowsRegion::from_screen(&info()));
    assert_eq!(console.full_screen().width(), 79);
    assert_eq!(console.full_screen().height(), 24);
    assert_eq!(console.waiting_events(), 0);
}

#[test]
fn key_repeat_count_three_yields_three_events() {
    let mut console = create_console(&info());
    let mut record = key(0x41, 'a', 0x0010);
    record.repeat_count = 3;
    let event = Event::KeyPressed {
        key: Key::CharKey('a'),
        control_key_state: ControlKeyStates { shift: true, ..NO_KEYS },
    };
    assert_eq!(console.get_next_event(Answer::Start), Request::Poll);
    assert_eq!(
        console.get_next_event(Answer::Record(InputRecord::Key(record))),
        Request::Deliver(event)
    );
    assert_eq!(console.waiting_events(), 2);
    assert_eq!(console.get_next_event(Answer::Start), Request::Deliver(event));
    assert_eq!(console.get_next_event(Answer::Start), Request::Deliver(event));
    assert_eq!(console.waiting_events(), 0);
    assert_eq!(console.get_next_event(Answer::Start), Request::Poll);
}

#[test]
fn key_release_repeats_too() {
    let mut console = create_console(&info());
    let mut record = key(0x26, '\0', 0);
    record.repeat_count = 3;
    record.key_down = false;
    let event = Event::KeyReleased { key: Key::Up, control_key_state: NO_KEYS };
    assert_eq!(
        console.get_next_event(Answer::Record(InputRecord::Key(record))),
        Request::Deliver(event)
    );
    assert_eq!(console.get_next_event(Answer::Start), Request::Deliver(event));
    assert_eq!(console.get_next_event(Answer::Start), Request::Deliver(event));
    assert_eq!(console.get_next_event(Answer::Start), Request::Poll);
}

#[test]
fn key_without_repeat_queues_nothing() {
    for count in [0u16, 1] {
        let mut console = create_console(&info());
        let mut record = key(0x1B, '\u{1b}', 0);
        record.repeat_count = count;
        assert_eq!(
            console.get_next_event(Answer::Record(InputRecord::Key(record))),
            Request::Deliver(Event::KeyPressed { key: Key::Escape, control_key_state: NO_KEYS })
        );
        assert_eq!(console.waiting_events(), 0);
        assert_eq!(console.get_next_event(Answer::Start), Request::Poll);
    }
}

#[test]
fn records_without_an_event_poll_again() {
    let mut console = create_console(&info());
    let mut record = key(0x41, '\0', 0);
    record.repeat_count = 5;
    assert_eq!(console.get_next_event(Answer::Record(InputRecord::Key(record))), Request::Poll);
    assert_eq!(console.waiting_events(), 0);
    assert_eq!(console.get_next_event(Answer::Record(InputRecord::Other)), Request::Poll);
    let mouse =
        MouseEventRecord { x: 0, y: 0, button_state: 0, control_key_state: 0, event_flags: 32 };
    assert_eq!(console.get_next_event(Answer::Record(InputRecord::Mouse(mouse))), Request::Poll);
}

#[test]
fn mouse_record_is_delivered() {
    let mut console = create_console(&info());
    let mouse =
        MouseEventRecord { x: 4, y: 5, button_state: 1, control_key_state: 0, event_flags: 0 };
    assert_eq!(
        console.get_next_event(Answer::Record(InputRecord::Mouse(mouse))),
        Request::Deliver(Event::MouseButtonStateChange {
            x: 4,
            y: 5,
            left_button: true,
            right_button: false,
            control_key_state: NO_KEYS
        })
    );
}

#[test]
fn size_record_measures_and_reports_the_window() {
    let mut console = create_console(&info());
    assert_eq!(
        console.get_next_event(Answer::Record(InputRecord::WindowBufferSize)),
        Request::Measure
    );
    let same = console.full_screen();
    assert_eq!(
        console.get_next_event(Answer::Measured(same)),
        Request::Deliver(Event::Resize { width: 79, height: 24 })
    );
    let wider = WindowsRegion { top: 0, left: 0, bottom: 49, right: 131 };
    assert_eq!(
        console.get_next_event(Answer::Measured(wider)),
        Request::Deliver(Event::Resize { width: 131, height: 49 })
    );
    assert_eq!(console.full_screen(), wider);
}

#[test]
fn idle_input_reports_a_changed_window_only() {
    let mut console = create_console(&info());
    let same = console.full_screen();
    assert_eq!(console.get_next_event(Answer::Idle(same)), Request::Poll);
    let moved = WindowsRegion { top: 11, left: 0, bottom: 35, right: 79 };
    assert_eq!(
        console.get_next_event(Answer::Idle(moved)),
        Request::Deliver(Event::Resize { width: 79, height: 24 })
    );
    assert_eq!(console.full_screen(), moved);
    assert_eq!(console.get_next_event(Answer::Idle(moved)), Request::Poll);
}

#[test]
fn waiting_events_come_before_anything_else() {
    let mut console = create_console(&info());
    let mut record = key(0x41, 'a', 0);
    record.repeat_count = 2;
    let event = Event::KeyPressed { key: Key::CharKey('a'), control_key_state: NO_KEYS };
    assert_eq!(
        console.get_next_event(Answer::Record(InputRecord::Key(record))),
        Request::Deliver(event)
    );
    let same = console.full_screen();
    assert_eq!(console.get_next_event(Answer::Idle(same)), Request::Deliver(event));
    assert_eq!(console.get_next_event(Answer::Idle(same)), Request::Poll);
}

#[test]
fn windows_sub_region_keeps_edges() {
    let region = WindowsRegion { top: 10, left: 5, bottom: 30, right: 45 };
    assert_eq!(region.width(), 40);
    assert_eq!(region.height(), 20);
    let sub = region.sub_region(2, 3, 10, 4);
    assert_eq!(sub, WindowsRegion { top: 13, left: 7, bottom: 17, right: 17 });
    assert_eq!(sub.width(), 10);
    assert_eq!(sub.height(), 4);
    assert_eq!(sub.sub_region(1, 1, 2, 2), region.sub_region(3, 4, 2, 2));
    assert_eq!(region.inside(), WindowsRegion { top: 11, left: 6, bottom: 29, right: 44 });
    let upside_down = WindowsRegion { top: 9, left: 9, bottom: 3, right: 3 };
    assert_eq!(upside_down.width(), 0);
    assert_eq!(upside_down.height(), 0);
}

#[test]
fn windows_fill_queues_two_commands_a_row() {
    let mut console = create_console(&info());
    let region = WindowsRegion { top: 2, left: 3, bottom: 4, right: 8 };
    region.fill(&mut console, Color::LightRed);
    let commands = console.take_commands();
    assert_eq!(
        show(&commands),
        vec![
            "FillCharacter { character: 32, count: 5, x: 3, y: 2 }",
            "FillAttribute { attribute: 192, count: 5, x: 3, y: 2 }",
            "FillCharacter { character: 32, count: 5, x: 3, y: 3 }",
            "FillAttribute { attribute: 192, count: 5, x: 3, y: 3 }",
        ]
    );
    assert!(console.take_commands().is_empty());
}

#[test]
fn windows_clear_region_fills_with_black() {
    let mut console = create_console(&info());
    let region = WindowsRegion { top: 0, left: 0, bottom: 1, right: 2 };
    region.clear(&mut console);
    assert_eq!(
        show(&console.take_commands()),
        vec![
            "FillCharacter { character: 32, count: 2, x: 0, y: 0 }",
            "FillAttribute { attribute: 0, count: 2, x: 0, y: 0 }",
        ]
    );
}

#[test]
fn windows_print_queues_text_then_attributes() {
    let mut console = create_console(&info());
    let region = WindowsRegion { top: 2, left: 3, bottom: 4, right: 8 };
    region.print(&mut console, 1, 1, Color::Blue, Color::Yellow, "h\u{e9}\u{1f600}!");
    assert_eq!(
        show(&console.take_commands()),
        vec![
            "WriteCharacters { text: [104, 233, 55357, 56832, 33], x: 4, y: 3 }",
            "WriteAttributes { attribute: 30, length: 5, x: 4, y: 3 }",
        ]
    );
    region.print(&mut console, 0, 0, Color::White, Color::White, "a long text that is not wrapped");
    let commands = console.take_commands();
    assert_eq!(commands.len(), 2);
    match &commands[0] {
        ConsoleCommand::WriteCharacters { text, x, y } => {
            assert_eq!(text.len(), 31);
            assert_eq!((*x, *y), (3, 2));
        }
        other => panic!("unexpected {:?}", other),
    }
    assert_eq!(
        format!("{:?}", commands[1]),
        "WriteAttributes { attribute: 255, length: 31, x: 3, y: 2 }"
    );
}

#[test]
fn windows_print_char_is_print_of_one_character() {
    let mut console = create_console(&info());
    let region = WindowsRegion { top: 0, left: 0, bottom: 5, right: 5 };
    region.print_char(&mut console, 2, 2, Color::Black, Color::Green, '\u{2550}');
    assert_eq!(
        show(&console.take_commands()),
        vec![
            "WriteCharacters { text: [9552], x: 2, y: 2 }",
            "WriteAttributes { attribute: 2, length: 1, x: 2, y: 2 }",
        ]
    );
}

#[test]
fn windows_console_clear_covers_the_buffer() {
    let mut console = create_console(&info());
    console.clear(&info());
    assert_eq!(
        show(&console.take_commands()),
        vec![
            "FillCharacter { character: 32, count: 36000, x: 0, y: 0 }",
            "FillAttribute { attribute: 7, count: 36000, x: 0, y: 0 }",
            "SetCursorPosition { x: 0, y: 0 }",
        ]
    );
    let huge = ScreenBufferInfo { size_x: 65535, size_y: 65535, ..info() };
    console.clear(&huge);
    let commands = console.take_commands();
    assert_eq!(
        format!("{:?}", commands[0]),
        "FillCharacter { character: 32, count: 4294836225, x: 0, y: 0 }"
    );
}

#[test]
fn windows_draw_frame_queues_every_stroke() {
    let mut console: WindowsConsole = create_console(&info());
    let region = WindowsRegion { top: 0, left: 0, bottom: 3, right: 4 };
    region.draw_frame(&mut console, Color::Black, Color::White, FrameStyle::Double);
    let commands = show(&console.take_commands());
    assert_eq!(commands.len(), 2 * (2 + 2 + 4));
    assert_eq!(commands[0], "WriteCharacters { text: [9552, 9552, 9552, 9552], x: 0, y: 0 }");
    assert_eq!(commands[1], "WriteAttributes { attribute: 15, length: 4, x: 0, y: 0 }");
    assert_eq!(commands[2], "WriteCharacters { text: [9552, 9552, 9552, 9552], x: 0, y: 2 }");
    assert_eq!(commands[4], "WriteCharacters { text: [9553], x: 0, y: 1 }");
    assert_eq!(commands[6], "WriteCharacters { text: [9553], x: 3, y: 1 }");
    assert_eq!(commands[8], "WriteCharacters { text: [9556], x: 0, y: 0 }");
    assert_eq!(commands[10], "WriteCharacters { text: [9559], x: 3, y: 0 }");
    assert_eq!(commands[12], "WriteCharacters { text: [9562], x: 0, y: 2 }");
    assert_eq!(commands[14], "WriteCharacters { text: [9565], x: 3, y: 2 }");
}
