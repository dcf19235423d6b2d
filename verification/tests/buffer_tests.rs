use rut::buffer::{
    Buffer, BufferName, BufferRenderEvent, BufferViewName, Cursor, EnrichedSegment, Line, StyleId,
};
use rut::buffer_view::BufferView;
use rut::color::Color;
use rut::commands::{handle_key_event, GlobalAction};
use rut::error::RutError;
use rut::event::Key;
use rut::region::Region;
use rut::render::{render_buffer, render_status_area};
use rut::screen::Screen;
use rut::state::{State, StateMessage};
use rut::text::{
    char_to_string, chars_of, contains, encode_utf16, matches_at, push_decimal, repeated, split,
};

fn show(events: &[BufferRenderEvent]) -> String {
    let mut text = String::new();
    for event in events {
        match event {
            BufferRenderEvent::Char(ch) => text.push(*ch),
            BufferRenderEvent::SwitchStyle(StyleId(name)) => {
                text.push('<');
                text.push_str(name);
                text.push('>');
            }
        }
    }
    text
}

fn rows(screen: &Screen) -> Vec<String> {
    (0..screen.height())
        .map(|y| (0..screen.width()).map(|x| screen.cell(x, y).unwrap().ch).collect())
        .collect()
}

#[test]
fn split_at_separators() {
    assert_eq!(split("a b", ' '), vec!["a", "b"]);
    assert_eq!(split("", ' '), vec![""]);
    assert_eq!(split(" ", ' '), vec!["", ""]);
    assert_eq!(split("a  b ", ' '), vec!["a", "", "b", ""]);
    assert_eq!(split("one\ntwo\n", '\n'), vec!["one", "two", ""]);
    assert_eq!(split("no separator", '\n'), vec!["no separator"]);
}

#[test]
fn repeated_and_single_characters() {
    assert_eq!(repeated('.', 3), "...");
    assert_eq!(repeated('\u{2500}', 2), "\u{2500}\u{2500}");
    assert_eq!(repeated('x', 0), "");
    assert_eq!(char_to_string('q'), "q");
    assert_eq!(char_to_string('\u{1f600}'), "\u{1f600}");
}

#[test]
fn decimal_numbers() {
    let mut text = String::from("n=");
    push_decimal(&mut text, 0);
    text.push(',');
    push_decimal(&mut text, 7);
    text.push(',');
    push_decimal(&mut text, 10);
    text.push(',');
    push_decimal(&mut text, 65536);
    text.push(',');
    push_decimal(&mut text, 4294967295);
    assert_eq!(text, "n=0,7,10,65536,4294967295");
}

#[test]
fn characters_and_substrings() {
    assert_eq!(chars_of("a\u{e9}\u{1f600}"), vec!['a', '\u{e9}', '\u{1f600}']);
    assert_eq!(chars_of(""), Vec::<char>::new());
    let text = chars_of("xterm-256color");
    assert!(contains(&text, &chars_of("xterm")));
    assert!(contains(&text, &chars_of("256")));
    assert!(contains(&text, &chars_of("color")));
    assert!(contains(&text, &chars_of("")));
    assert!(contains(&text, &text));
    assert!(!contains(&text, &chars_of("xterm-256colors")));
    assert!(!contains(&text, &chars_of("linux")));
    assert!(!contains(&chars_of(""), &chars_of("x")));
    assert!(contains(&chars_of(""), &chars_of("")));
    assert!(matches_at(&text, &chars_of("term"), 1));
    assert!(!matches_at(&text, &chars_of("term"), 0));
    assert!(matches_at(&text, &chars_of(""), 14));
    assert!(!matches_at(&text, &chars_of(""), 15));
    assert!(!matches_at(&text, &chars_of("color"), 10));
}

#[test]
fn utf16_units() {
    assert_eq!(encode_utf16(&chars_of("az")), vec![97, 122]);
    assert_eq!(encode_utf16(&chars_of("\u{ffff}")), vec![0xFFFF]);
    assert_eq!(encode_utf16(&chars_of("\u{10000}")), vec![0xD800, 0xDC00]);
    assert_eq!(encode_utf16(&chars_of("\u{10ffff}")), vec![0xDBFF, 0xDFFF]);
    let text = "h\u{e9}\u{1f600}!";
    assert_eq!(encode_utf16(&chars_of(text)), text.encode_utf16().collect::<Vec<u16>>());
}

#[test]
fn error_messages() {
    assert_eq!(
        RutError::SystemCallFailure("ioctl".to_string(), 25, "not a tty".to_string()).message(),
        "System call ioctl failed with code: [25] not a tty"
    );
    assert_eq!(
        RutError::IOFailure("write".to_string(), "broken pipe".to_string()).message(),
        "I/O error when calling write: broken pipe"
    );
    assert_eq!(
        RutError::UnsupportedTerminal("Unsupported terminal type: vt52".to_string()).message(),
        "Unsupported terminal: Unsupported terminal type: vt52"
    );
}

#[test]
fn segment_yields_its_style_then_its_characters() {
    let segment = EnrichedSegment::new("ab ".to_string(), StyleId("bold".to_string()));
    let mut walk = segment.iter();
    let mut events = Vec::new();
    while let Some(event) = walk.next() {
        events.push(event);
    }
    assert_eq!(show(&events), "<bold>ab ");
    assert!(walk.next().is_none());
    let empty = EnrichedSegment::new(String::new(), StyleId("x".to_string()));
    let mut walk = empty.iter();
    assert!(matches!(walk.next(), Some(BufferRenderEvent::SwitchStyle(_))));
    assert!(walk.next().is_none());
}

#[test]
fn line_is_one_segment_a_word() {
    assert_eq!(show(&Line::process("hello world").iter()), "<default>hello <default>world ");
    assert_eq!(show(&Line::process("").iter()), "<default> ");
    assert_eq!(show(&Line::process("a  b").iter()), "<default>a <default> <default>b ");
    assert_eq!(show(&Line::process(" x").iter()), "<default> <default>x ");
}

#[test]
fn find_col_names_segment_and_offset() {
    let line = Line::process("hello world");
    assert_eq!(line.find_col(0), Some((0, 0)));
    assert_eq!(line.find_col(5), Some((0, 5)));
    assert_eq!(line.find_col(6), Some((1, 0)));
    assert_eq!(line.find_col(11), Some((1, 5)));
    assert_eq!(line.find_col(12), None);
    assert_eq!(line.find_col(u32::MAX), None);
    assert_eq!(Line::process("").find_col(0), Some((0, 0)));
    assert_eq!(Line::process("").find_col(1), None);
}

#[test]
fn get_reads_the_character_at_a_column() {
    let line = Line::process("hello world");
    assert_eq!(line.get(0), Some('h'));
    assert_eq!(line.get(4), Some('o'));
    assert_eq!(line.get(5), Some(' '));
    assert_eq!(line.get(6), Some('w'));
    assert_eq!(line.get(11), Some(' '));
    assert_eq!(line.get(12), None);
}

#[test]
fn columns_count_bytes_and_offsets_count_characters() {
    let line = Line::process("\u{e9} x");
    assert_eq!(line.find_col(0), Some((0, 0)));
    assert_eq!(line.find_col(2), Some((0, 2)));
    assert_eq!(line.find_col(3), Some((1, 0)));
    assert_eq!(line.find_col(4), Some((1, 1)));
    assert_eq!(line.find_col(5), None);
    assert_eq!(line.get(0), Some('\u{e9}'));
    assert_eq!(line.get(1), Some(' '));
    assert_eq!(line.get(2), None);
    assert_eq!(line.get(3), Some('x'));
}

#[test]
fn buffer_from_string_has_a_line_for_every_line() {
    let buffer = Buffer::from_string("ab cd\nef\n");
    assert_eq!(buffer.lines.len(), 3);
    assert!(buffer.cursors.is_empty());
    assert_eq!(show(&buffer.lines[0].iter()), "<default>ab <default>cd ");
    assert_eq!(show(&buffer.lines[1].iter()), "<default>ef ");
    assert_eq!(show(&buffer.lines[2].iter()), "<default> ");
    let empty = Buffer::from_string("");
    assert_eq!(empty.lines.len(), 1);
    assert_eq!(show(&empty.lines[0].iter()), "<default> ");
}

#[test]
fn cursor_is_a_row_and_a_column() {
    let cursor = Cursor { row: 3, col: 4 };
    assert_eq!(cursor, Cursor { row: 3, col: 4 });
    assert_ne!(cursor, Cursor { row: 4, col: 3 });
}

#[test]
fn names_compare_by_their_text() {
    let name = BufferName::new("scratch");
    assert_eq!(name.0, "scratch");
    assert!(name.same(&name.clone()));
    assert!(!name.same(&BufferName::new("Scratch")));
    let view = BufferViewName::new("left");
    assert!(view.same(&BufferViewName::new("left")));
    assert!(!view.same(&BufferViewName::new("right")));
    assert_eq!(StyleId("default".to_string()).clone().0, "default");
}

#[test]
fn buffer_view_starts_at_the_top() {
    let view = BufferView::create(BufferName::new("scratch"));
    assert_eq!(view.top_line, 0);
    assert_eq!(view.buffer.0, "scratch");
}

#[test]
fn keys_and_what_they_do() {
    assert_eq!(handle_key_event(Key::Escape), (Some(GlobalAction::Quit), None));
    assert_eq!(handle_key_event(Key::CharKey('x')), (None, Some(StateMessage::InsertChar('x'))));
    assert_eq!(handle_key_event(Key::Enter), (None, None));
    assert_eq!(handle_key_event(Key::Function(1)), (None, None));
    assert_eq!(handle_key_event(Key::Backspace), (None, None));
}

#[test]
fn initial_state_has_an_empty_default_buffer() {
    let state = State::initial();
    let buffer = state.borrow_active_buffer().unwrap();
    assert_eq!(buffer.lines.len(), 1);
    assert_eq!(show(&buffer.lines[0].iter()), "<default> ");
    assert!(buffer.cursors.is_empty());
}

#[test]
fn add_buffer_replaces_a_buffer_of_the_same_name() {
    let mut state = State::initial();
    state.add_buffer(BufferName::new("other"), Buffer::from_string("a\nb\nc"));
    assert_eq!(state.borrow_active_buffer().unwrap().lines.len(), 1);
    state.add_buffer(BufferName::new("default"), Buffer::from_string("x\ny"));
    let buffer = state.borrow_active_buffer().unwrap();
    assert_eq!(buffer.lines.len(), 2);
    assert_eq!(show(&buffer.lines[1].iter()), "<default>y ");
}

#[test]
fn status_area_is_the_last_row() {
    let mut screen = Screen::new(30, 4);
    let root = screen.full_screen();
    render_status_area(&root, &mut screen);
    let rows = rows(&screen);
    assert_eq!(rows[0], " ".repeat(30));
    assert_eq!(rows[2], " ".repeat(30));
    assert_eq!(rows[3], "*** WELCOME TO R.E.D ***      ");
    for x in 0..30 {
        let cell = screen.cell(x, 3).unwrap();
        assert_eq!(cell.background, Color::Red);
        assert_eq!(cell.foreground, Color::White);
        assert_eq!(screen.cell(x, 2).unwrap().background, Color::Black);
    }
}

#[test]
fn buffer_is_drawn_inside_a_double_frame() {
    let mut screen = Screen::new(12, 6);
    let root = screen.full_screen();
    let buffer = Buffer::from_string("ab cd\nef\ngh\nij");
    let view = BufferView::create(BufferName::new("default"));
    render_buffer(&root, &mut screen, &buffer, &view);
    let rows = rows(&screen);
    assert_eq!(rows[0], "\u{2554}\u{2550}\u{2550}\u{2550}\u{2550}\u{2550}\u{2550}\u{2550}\u{2550}\u{2550}\u{2550}\u{2557}");
    assert_eq!(rows[1], "\u{2551}ab cd     \u{2551}");
    assert_eq!(rows[2], "\u{2551}ef        \u{2551}");
    assert_eq!(rows[3], "\u{2551}gh        \u{2551}");
    assert_eq!(rows[4], "\u{255a}\u{2550}\u{2550}\u{2550}\u{2550}\u{2550}\u{2550}\u{2550}\u{2550}\u{2550}\u{2550}\u{255d}");
    assert_eq!(rows[5], " ".repeat(12));
    assert_eq!(screen.cell(0, 0).unwrap().foreground, Color::Red);
    assert_eq!(screen.cell(1, 1).unwrap().foreground, Color::White);
    assert_eq!(screen.cell(1, 1).unwrap().background, Color::Black);
    assert_eq!(root.width(), 12);
}

#[test]
fn view_passes_over_twice_its_top_line() {
    let mut screen = Screen::new(8, 6);
    let root = screen.full_screen();
    let buffer = Buffer::from_string("l0\nl1\nl2\nl3\nl4");
    let view = BufferView { top_line: 1, buffer: BufferName::new("default") };
    render_buffer(&root, &mut screen, &buffer, &view);
    let rows = rows(&screen);
    assert_eq!(rows[1], "\u{2551}l2    \u{2551}");
    assert_eq!(rows[2], "\u{2551}l3    \u{2551}");
    assert_eq!(rows[3], "\u{2551}l4    \u{2551}");
    let far = BufferView { top_line: 3, buffer: BufferName::new("default") };
    let mut empty = Screen::new(8, 6);
    render_buffer(&root, &mut empty, &buffer, &far);
    assert_eq!(self::rows(&empty)[1], "\u{2551}      \u{2551}");
}
