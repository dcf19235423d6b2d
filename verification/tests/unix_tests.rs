use rut::color::Color;
use rut::error::RutError;
use rut::event::Event;
use rut::frame::{Frame, FrameStyle};
use rut::region::Region;
use rut::unix::sequences::{term_mapping, TerminalFamily};
use rut::unix::utils::{bg_color_code, fg_color_code};
use rut::unix::{create_console, resolve_terminal, UnixConsole, UnixRegion};

const COLORS: [Color; 16] = [
    Color::Black,
    Color::Blue,
    Color::Green,
    Color::Cyan,
    Color::Red,
    Color::Magenta,
    Color::Brown,
    Color::LightGray,
    Color::DarkGray,
    Color::LightBlue,
    Color::LightGreen,
    Color::LightCyan,
    Color::LightRed,
    Color::LightMagenta,
    Color::Yellow,
    Color::White,
];

fn console(width: u16, height: u16) -> UnixConsole {
    let mut console = create_console(Some("xterm"), Ok((width, height))).unwrap();
    let _ = console.take_output();
    console
}

fn unsupported(result: Result<TerminalFamily, RutError>) -> String {
    match result {
        Err(RutError::UnsupportedTerminal(details)) => details,
        other => panic!("expected an unsupported terminal, got {:?}", other),
    }
}

#[test]
fn fg_color_codes_are_the_sgr_codes() {
    let codes: Vec<u8> = COLORS.iter().map(|c| fg_color_code(*c)).collect();
    assert_eq!(codes, vec![30, 31, 32, 33, 34, 35, 36, 37, 90, 91, 92, 93, 94, 95, 96, 97]);
}

#[test]
fn bg_color_codes_are_the_sgr_codes() {
    let codes: Vec<u8> = COLORS.iter().map(|c| bg_color_code(*c)).collect();
    assert_eq!(
        codes,
        vec![40, 41, 42, 43, 44, 45, 46, 47, 100, 101, 102, 103, 104, 105, 106, 107]
    );
}

#[test]
fn color_codes_do_not_collide() {
    for (i, a) in COLORS.iter().enumerate() {
        for (j, b) in COLORS.iter().enumerate() {
            if i != j {
                assert_ne!(fg_color_code(*a), fg_color_code(*b));
                assert_ne!(bg_color_code(*a), bg_color_code(*b));
            }
            assert_ne!(fg_color_code(*a), bg_color_code(*b));
        }
        assert_eq!(fg_color_code(*a), fg_color_code(*a));
        assert_eq!(bg_color_code(*a), bg_color_code(*a));
    }
}

#[test]
fn term_mapping_lists_the_families_in_order() {
    let names: Vec<&str> = term_mapping().iter().map(|f| f.name()).collect();
    assert_eq!(names, vec!["rxvt-256color", "Eterm", "screen", "rxvt-unicode", "linux", "xterm"]);
}

#[test]
fn resolve_exact_names() {
    for family in term_mapping() {
        assert_eq!(resolve_terminal(Some(family.name())).unwrap(), family);
    }
}

#[test]
fn resolve_xterm_256color_by_substring() {
    assert!(term_mapping().iter().all(|f| f.name() != "xterm-256color"));
    assert_eq!(resolve_terminal(Some("xterm-256color")).unwrap(), TerminalFamily::Xterm);
}

#[test]
fn resolve_takes_the_first_family_contained() {
    assert_eq!(resolve_terminal(Some("screen.xterm-256color")).unwrap(), TerminalFamily::Screen);
    assert_eq!(
        resolve_terminal(Some("rxvt-unicode-256color")).unwrap(),
        TerminalFamily::RxvtUnicode
    );
    assert_eq!(resolve_terminal(Some("my-linux-console")).unwrap(), TerminalFamily::Linux);
}

#[test]
fn resolve_prefers_the_exact_name() {
    assert_eq!(resolve_terminal(Some("xterm")).unwrap(), TerminalFamily::Xterm);
    assert_eq!(resolve_terminal(Some("rxvt-256color")).unwrap(), TerminalFamily::Rxvt256Color);
}

#[test]
fn resolve_unknown_term_names_it() {
    assert_eq!(
        unsupported(resolve_terminal(Some("unknown-term"))),
        "Unsupported terminal type: unknown-term"
    );
    assert_eq!(unsupported(resolve_terminal(Some(""))), "Unsupported terminal type: ");
    assert_eq!(unsupported(resolve_terminal(Some("eterm"))), "Unsupported terminal type: eterm");
    assert_eq!(unsupported(resolve_terminal(Some("xter"))), "Unsupported terminal type: xter");
}

#[test]
fn resolve_missing_term() {
    assert_eq!(unsupported(resolve_terminal(None)), "TERM environment variable is not defined");
}

#[test]
fn sequences_of_the_families() {
    let xterm = TerminalFamily::Xterm.sequences();
    assert_eq!(xterm.enter, "\x1b[?1049h");
    assert_eq!(xterm.exit, "\x1b[?1049l");
    assert_eq!(xterm.show_cursor, "\x1b[?12l\x1b[?25h");
    assert_eq!(xterm.hide_cursor, "\x1b[?25l");
    assert_eq!(xterm.clear_screen, "\x1b[H\x1b[2J");
    assert_eq!(xterm.reset_all_attributes, "\x1b(B\x1b[m");
    assert_eq!(xterm.enter_keypad, "\x1b[?1h\x1b=");
    assert_eq!(xterm.exit_mouse, "\x1b[?1006l\x1b[?1015l\x1b[?1002l\x1b[?1000l");
    let linux = TerminalFamily::Linux.sequences();
    assert_eq!(linux.enter, "");
    assert_eq!(linux.clear_screen, "\x1b[H\x1b[J");
    assert_eq!(linux.reset_all_attributes, "\x1b[0;10m");
    assert_eq!(linux.show_cursor, "\x1b[?25h\x1b[?0c");
    let eterm = TerminalFamily::Eterm.sequences();
    assert_eq!(eterm.enter, "\x1b7\x1b[?47h");
    assert_eq!(eterm.exit, "\x1b[2J\x1b[?47l\x1b8");
    assert_eq!(eterm.enter_mouse, "");
    let screen = TerminalFamily::Screen.sequences();
    assert_eq!(screen.show_cursor, "\x1b[34h\x1b[?25h");
    let rxvt = TerminalFamily::RxvtUnicode.sequences();
    assert_eq!(rxvt.exit, "\x1b[r\x1b[?1049l");
    assert_eq!(rxvt.reset_all_attributes, "\x1b[m\x1b(B");
    let rxvt256 = TerminalFamily::Rxvt256Color.sequences();
    assert_eq!(rxvt256.enter_keypad, "\x1b=");
    assert_eq!(rxvt256.underline, "\x1b[4m");
    assert_eq!(rxvt256.bold, "\x1b[1m");
    assert_eq!(rxvt256.blink, "\x1b[5m");
    assert_eq!(rxvt256.reverse, "\x1b[7m");
}

#[test]
fn create_console_homes_the_cursor_and_selects_colors() {
    let console = create_console(Some("xterm-256color"), Ok((80, 24))).unwrap();
    assert_eq!(console.output(), "\x1b[1;1H\x1b[37;40m");
    assert_eq!(console.cursor(), (0, 0));
    assert_eq!(console.attributes(), (Color::Black, Color::LightGray));
    assert_eq!(console.function_sequences().clear_screen, "\x1b[H\x1b[2J");
    assert_eq!(console.full_screen(), UnixRegion { left: 0, top: 0, width: 80, height: 24 });
}

#[test]
fn create_console_reports_the_terminal_before_the_size() {
    let size_error =
        || RutError::SystemCallFailure("tiocgwinsz".to_string(), 25, "ENOTTY".to_string());
    match create_console(Some("unknown-term"), Err(size_error())) {
        Err(RutError::UnsupportedTerminal(details)) => {
            assert_eq!(details, "Unsupported terminal type: unknown-term")
        }
        other => panic!("unexpected {:?}", other),
    }
    match create_console(None, Ok((80, 24))) {
        Err(RutError::UnsupportedTerminal(details)) => {
            assert_eq!(details, "TERM environment variable is not defined")
        }
        other => panic!("unexpected {:?}", other),
    }
    match create_console(Some("linux"), Err(size_error())) {
        Err(RutError::SystemCallFailure(call, code, message)) => {
            assert_eq!(call, "tiocgwinsz");
            assert_eq!(code, 25);
            assert_eq!(message, "ENOTTY");
        }
        other => panic!("unexpected {:?}", other),
    }
}

#[test]
fn take_output_leaves_nothing_queued() {
    let mut console = create_console(Some("xterm"), Ok((80, 24))).unwrap();
    assert_eq!(console.take_output(), "\x1b[1;1H\x1b[37;40m");
    assert_eq!(console.output(), "");
    assert_eq!(console.take_output(), "");
    assert_eq!(console.attributes(), (Color::Black, Color::LightGray));
}

#[test]
fn move_cursor_counts_from_one() {
    let mut console = console(80, 24);
    console.move_cursor(9, 4);
    assert_eq!(console.output(), "\x1b[5;10H");
    assert_eq!(console.cursor(), (9, 4));
    console.move_cursor(65535, 65535);
    assert_eq!(console.output(), "\x1b[5;10H\x1b[65536;65536H");
}

#[test]
fn set_attributes_sends_only_a_new_pair() {
    let mut console = console(80, 24);
    console.set_attributes(Color::Black, Color::LightGray);
    assert_eq!(console.output(), "");
    console.set_attributes(Color::Blue, Color::Yellow);
    assert_eq!(console.output(), "\x1b[96;41m");
    assert_eq!(console.attributes(), (Color::Blue, Color::Yellow));
    console.set_attributes(Color::Blue, Color::Yellow);
    assert_eq!(console.output(), "\x1b[96;41m");
    console.set_attributes(Color::Blue, Color::White);
    assert_eq!(console.output(), "\x1b[96;41m\x1b[97;41m");
    console.set_attributes(Color::White, Color::White);
    assert_eq!(console.output(), "\x1b[96;41m\x1b[97;41m\x1b[97;107m");
}

#[test]
fn write_char_moves_unless_the_cursor_stands_there() {
    let mut console = console(80, 24);
    console.write_char(0, 0, 'a');
    assert_eq!(console.output(), "a");
    assert_eq!(console.cursor(), (1, 0));
    console.write_char(1, 0, 'b');
    assert_eq!(console.output(), "ab");
    assert_eq!(console.cursor(), (2, 0));
    console.write_char(1, 0, 'c');
    assert_eq!(console.output(), "ab\x1b[1;2Hc");
    console.write_char(2, 1, 'd');
    assert_eq!(console.output(), "ab\x1b[1;2Hc\x1b[2;3Hd");
    console.write_char(3, 1, '\u{2550}');
    assert_eq!(console.output(), "ab\x1b[1;2Hc\x1b[2;3Hd\u{2550}");
    assert_eq!(console.cursor(), (4, 1));
}

#[test]
fn write_char_after_a_move_goes_where_it_is_told() {
    let mut console = console(80, 24);
    console.move_cursor(5, 0);
    let _ = console.take_output();
    console.write_char(6, 0, 'x');
    assert_eq!(console.output(), "\x1b[1;7Hx");
    console.move_cursor(9, 3);
    console.write_char(9, 3, 'y');
    assert_eq!(console.output(), "\x1b[1;7Hx\x1b[4;10Hy");
    console.write_char(65535, 3, 'z');
    assert_eq!(console.cursor(), (65536, 3));
}

#[test]
fn first_print_beside_the_corner_moves_the_cursor() {
    let mut console = create_console(Some("xterm"), Ok((80, 24))).unwrap();
    let screen = console.full_screen();
    screen.print(&mut console, 1, 0, Color::Black, Color::LightGray, "x");
    assert_eq!(console.output(), "\x1b[1;1H\x1b[37;40m\x1b[1;2Hx");
}

#[test]
fn print_writes_a_row_with_one_move() {
    let mut console = console(80, 24);
    let screen = console.full_screen();
    screen.print(&mut console, 2, 0, Color::Black, Color::LightGray, "abc");
    assert_eq!(console.output(), "\x1b[1;3Habc");
    screen.print(&mut console, 5, 0, Color::Black, Color::LightGray, "de");
    assert_eq!(console.output(), "\x1b[1;3Habcde");
    screen.print(&mut console, 10, 2, Color::Red, Color::White, "x");
    assert_eq!(console.output(), "\x1b[1;3Habcde\x1b[97;44m\x1b[3;11Hx");
}

#[test]
fn print_in_the_corner_of_a_fresh_console_needs_no_move() {
    let mut console = console(80, 24);
    let screen = console.full_screen();
    screen.print(&mut console, 0, 0, Color::Black, Color::LightGray, "abc");
    assert_eq!(console.output(), "abc");
}

#[test]
fn print_wraps_at_the_right_edge_of_the_region() {
    let mut console = console(80, 24);
    let region = console.full_screen().sub_region(2, 1, 3, 2);
    assert_eq!(region, UnixRegion { left: 2, top: 1, width: 3, height: 2 });
    region.print(&mut console, 1, 0, Color::Black, Color::LightGray, "abcd");
    assert_eq!(console.output(), "\x1b[2;4Hab\x1b[3;3Hcd");
    assert_eq!(console.cursor(), (4, 2));
}

#[test]
fn print_of_an_empty_text_selects_the_colors_only() {
    let mut console = console(80, 24);
    let screen = console.full_screen();
    screen.print(&mut console, 5, 5, Color::Green, Color::Black, "");
    assert_eq!(console.output(), "\x1b[30;42m");
    assert_eq!(console.cursor(), (0, 0));
}

#[test]
fn print_char_is_print_of_one_character() {
    let mut one = console(80, 24);
    let mut other = console(80, 24);
    let region = one.full_screen().sub_region(4, 4, 10, 10);
    region.print_char(&mut one, 2, 3, Color::Cyan, Color::Magenta, 'q');
    region.print(&mut other, 2, 3, Color::Cyan, Color::Magenta, "q");
    assert_eq!(one.output(), "\x1b[35;43m\x1b[8;7Hq");
    assert_eq!(one.output(), other.output());
}

#[test]
fn unix_fill_prints_dots_and_the_size() {
    let mut console = console(80, 24);
    let region = console.full_screen().sub_region(0, 0, 8, 6);
    region.fill(&mut console, Color::Green);
    let expected = String::new()
        + "\x1b[37;42m"
        + "........"
        + "\x1b[2;1H........"
        + "\x1b[3;1H........"
        + "\x1b[4;1H........"
        + "\x1b[5;1H........"
        + "\x1b[6;1H........"
        + "\x1b[30;42m\x1b[6;4H8 6";
    assert_eq!(console.output(), expected);
    assert_eq!(console.attributes(), (Color::Green, Color::Black));
}

#[test]
fn unix_fill_puts_the_size_where_it_just_fits() {
    let mut console = console(80, 24);
    let region = console.full_screen().sub_region(10, 2, 6, 6);
    region.fill(&mut console, Color::Red);
    let output = console.take_output();
    assert!(output.ends_with("\x1b[8;11H......\x1b[30;44m\x1b[8;14H6 6"), "{:?}", output);
    assert_eq!(console.cursor(), (16, 7));
}

#[test]
fn unix_fill_of_a_small_region_stays_inside_it() {
    let mut console = console(80, 24);
    let region = console.full_screen().sub_region(0, 0, 2, 2);
    region.fill(&mut console, Color::Green);
    assert_eq!(console.output(), "\x1b[37;42m..\x1b[2;1H..");
    assert_eq!(console.attributes(), (Color::Green, Color::LightGray));
}

#[test]
fn unix_fill_of_a_sub_region_writes_no_cell_outside() {
    let mut console = console(10, 10);
    let root = console.full_screen();
    root.fill(&mut console, Color::Green);
    let _ = console.take_output();
    let sub = root.sub_region(2, 2, 4, 4);
    sub.fill(&mut console, Color::Red);
    assert_eq!(
        console.output(),
        "\x1b[30;44m\x1b[3;3H....\x1b[4;3H....\x1b[5;3H....\x1b[6;3H...."
    );
    assert_eq!(console.cursor(), (6, 5));
}

#[test]
fn unix_fill_leaves_the_size_out_where_it_does_not_fit() {
    for (width, height) in [(5u16, 6u16), (10, 5), (5, 5), (6, 3)] {
        let mut console = console(80, 24);
        let region = console.full_screen().sub_region(0, 0, width, height);
        region.fill(&mut console, Color::Blue);
        assert_eq!(console.attributes(), (Color::Blue, Color::LightGray));
        let dots = console.output().chars().filter(|c| *c == '.').count();
        assert_eq!(dots, width as usize * height as usize);
        assert!(!console.output().contains(' '));
    }
    let mut console = console(80, 24);
    let wide = console.full_screen().sub_region(0, 0, 7, 12);
    wide.fill(&mut console, Color::Blue);
    assert!(console.output().ends_with("\x1b[30;41m\x1b[6;4H7 12"));
    let mut console = self::console(80, 24);
    let narrow = console.full_screen().sub_region(0, 0, 6, 12);
    narrow.fill(&mut console, Color::Blue);
    assert!(!console.output().contains("6 12"));
}

#[test]
fn unix_fill_of_an_empty_region_sends_nothing() {
    let mut console = console(80, 24);
    let region = console.full_screen().sub_region(10, 10, 0, 0);
    region.fill(&mut console, Color::Black);
    assert_eq!(console.output(), "");
    assert_eq!(console.attributes(), (Color::Black, Color::LightGray));
}

#[test]
fn unix_clear_region_fills_with_black() {
    let mut one = console(80, 24);
    let mut other = console(80, 24);
    let region = one.full_screen().sub_region(1, 1, 3, 1);
    region.clear(&mut one);
    region.fill(&mut other, Color::Black);
    assert_eq!(one.output(), other.output());
    assert_eq!(one.output(), "\x1b[2;2H...");
}

#[test]
fn console_clear_sends_the_clear_sequence() {
    let mut xterm = console(80, 24);
    xterm.clear();
    assert_eq!(xterm.output(), "\x1b[H\x1b[2J");
    let mut linux = create_console(Some("linux"), Ok((80, 24))).unwrap();
    let _ = linux.take_output();
    linux.clear();
    assert_eq!(linux.output(), "\x1b[H\x1b[J");
}

#[test]
fn console_clear_leaves_the_cursor_in_the_corner() {
    let mut console = console(80, 24);
    console.move_cursor(5, 5);
    console.clear();
    assert_eq!(console.cursor(), (0, 0));
    let _ = console.take_output();
    console.write_char(0, 0, 'x');
    assert_eq!(console.output(), "x");
    console.clear();
    console.write_char(1, 0, 'y');
    assert_eq!(console.output(), "x\x1b[H\x1b[2J\x1b[1;2Hy");
}

#[test]
fn unix_get_next_event_reports_the_startup_size() {
    let mut console = console(132, 43);
    assert_eq!(console.get_next_event(), Event::Resize { width: 132, height: 43 });
    assert_eq!(console.get_next_event(), Event::Resize { width: 132, height: 43 });
    assert_eq!(console.output(), "");
}

#[test]
fn unix_sub_regions_add_their_offsets() {
    let console = console(80, 24);
    let root = console.full_screen();
    let a = root.sub_region(5, 6, 20, 10);
    let b = a.sub_region(3, 2, 4, 4);
    assert_eq!(b, UnixRegion { left: 8, top: 8, width: 4, height: 4 });
    assert_eq!(b, root.sub_region(8, 8, 4, 4));
    assert_eq!(a.inside(), UnixRegion { left: 6, top: 7, width: 18, height: 8 });
    assert_eq!(a.width(), 20);
    assert_eq!(a.height(), 10);
}

#[test]
fn unix_draw_frame_sends_edges_sides_and_corners() {
    let mut console = console(80, 24);
    let region = console.full_screen().sub_region(0, 0, 3, 3);
    region.draw_frame(&mut console, Color::Black, Color::LightGray, FrameStyle::Single);
    let expected = String::new()
        + "\u{2500}\u{2500}\u{2500}"
        + "\x1b[3;1H\u{2500}\u{2500}\u{2500}"
        + "\x1b[2;1H\u{2502}"
        + "\x1b[2;3H\u{2502}"
        + "\x1b[1;1H\u{250c}"
        + "\x1b[1;3H\u{2510}"
        + "\x1b[3;1H\u{2514}"
        + "\x1b[3;3H\u{2518}";
    assert_eq!(console.output(), expected);
}
