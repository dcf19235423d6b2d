use rut::color::Color;
use rut::frame::{frame_characters, Frame, FrameStyle};
use rut::region::Region;
use rut::screen::{Cell, Screen, Subregion};

fn cell(screen: &Screen, x: u16, y: u16) -> Cell {
    screen.cell(x, y).unwrap()
}

#[test]
fn new_screen_is_blank() {
    let screen = Screen::new(4, 3);
    assert_eq!(screen.width(), 4);
    assert_eq!(screen.height(), 3);
    for y in 0..3 {
        for x in 0..4 {
            assert_eq!(
                cell(&screen, x, y),
                Cell { ch: ' ', background: Color::Black, foreground: Color::LightGray }
            );
        }
    }
    assert_eq!(screen.cell(4, 0), None);
    assert_eq!(screen.cell(0, 3), None);
}

#[test]
fn fill_then_fill_sub_region() {
    let mut screen = Screen::new(10, 10);
    let root = screen.full_screen();
    assert_eq!(root.width(), 10);
    assert_eq!(root.height(), 10);
    root.fill(&mut screen, Color::Green);
    for y in 0..10 {
        for x in 0..10 {
            assert_eq!(cell(&screen, x, y).background, Color::Green);
        }
    }
    let sub = root.sub_region(2, 2, 4, 4);
    sub.fill(&mut screen, Color::Red);
    for y in 0..10 {
        for x in 0..10 {
            let inside = (2..6).contains(&x) && (2..6).contains(&y);
            let expected = if inside { Color::Red } else { Color::Green };
            assert_eq!(cell(&screen, x, y).background, expected, "cell ({}, {})", x, y);
        }
    }
}

#[test]
fn fill_leaves_spaces_in_white() {
    let mut screen = Screen::new(3, 2);
    let root = screen.full_screen();
    root.print(&mut screen, 0, 0, Color::Blue, Color::Yellow, "abc");
    root.fill(&mut screen, Color::Cyan);
    assert_eq!(
        cell(&screen, 1, 0),
        Cell { ch: ' ', background: Color::Cyan, foreground: Color::White }
    );
}

#[test]
fn clear_fills_with_black() {
    let mut screen = Screen::new(3, 3);
    let root = screen.full_screen();
    root.fill(&mut screen, Color::Green);
    let sub = root.sub_region(1, 1, 2, 2);
    sub.clear(&mut screen);
    assert_eq!(cell(&screen, 0, 0).background, Color::Green);
    assert_eq!(cell(&screen, 1, 1).background, Color::Black);
    assert_eq!(cell(&screen, 2, 2).background, Color::Black);
}

#[test]
fn screen_clear_blanks_every_cell() {
    let mut screen = Screen::new(3, 3);
    let root = screen.full_screen();
    root.fill(&mut screen, Color::Green);
    screen.clear();
    for y in 0..3 {
        for x in 0..3 {
            assert_eq!(
                cell(&screen, x, y),
                Cell { ch: ' ', background: Color::Black, foreground: Color::LightGray }
            );
        }
    }
}

#[test]
fn print_shifts_by_the_region_offset() {
    let mut screen = Screen::new(8, 4);
    let sub = screen.full_screen().sub_region(2, 1, 4, 2);
    sub.print(&mut screen, 1, 1, Color::Blue, Color::Yellow, "hi");
    assert_eq!(
        cell(&screen, 3, 2),
        Cell { ch: 'h', background: Color::Blue, foreground: Color::Yellow }
    );
    assert_eq!(
        cell(&screen, 4, 2),
        Cell { ch: 'i', background: Color::Blue, foreground: Color::Yellow }
    );
    assert_eq!(cell(&screen, 2, 2).ch, ' ');
    assert_eq!(cell(&screen, 5, 2).ch, ' ');
}

#[test]
fn print_drops_what_falls_off_the_screen() {
    let mut screen = Screen::new(4, 2);
    let root = screen.full_screen();
    root.print(&mut screen, 2, 0, Color::Black, Color::White, "abcdef");
    assert_eq!(cell(&screen, 2, 0).ch, 'a');
    assert_eq!(cell(&screen, 3, 0).ch, 'b');
    assert_eq!(cell(&screen, 0, 1).ch, ' ');
    root.print(&mut screen, 0, 5, Color::Black, Color::White, "x");
    root.print(&mut screen, 9, 0, Color::Black, Color::White, "x");
    assert_eq!(cell(&screen, 0, 0).ch, ' ');
}

#[test]
fn print_char_writes_one_cell() {
    let mut screen = Screen::new(3, 3);
    let root = screen.full_screen();
    root.print_char(&mut screen, 1, 2, Color::Red, Color::White, '\u{2500}');
    assert_eq!(
        cell(&screen, 1, 2),
        Cell { ch: '\u{2500}', background: Color::Red, foreground: Color::White }
    );
    assert_eq!(cell(&screen, 0, 2).ch, ' ');
    assert_eq!(cell(&screen, 2, 2).ch, ' ');
}

#[test]
fn sub_region_offsets_add_up() {
    let screen = Screen::new(20, 20);
    let root = screen.full_screen();
    let a = root.sub_region(3, 4, 10, 10);
    assert_eq!(a, Subregion { x: 3, y: 4, width: 10, height: 10 });
    let b = a.sub_region(2, 5, 3, 3);
    assert_eq!(b, Subregion { x: 5, y: 9, width: 3, height: 3 });
    assert_eq!(b, root.sub_region(5, 9, 3, 3));
    assert_eq!(root.sub_region(3, 4, 7, 7).sub_region(2, 5, 7, 7).sub_region(1, 1, 2, 2),
        root.sub_region(3, 4, 7, 7).sub_region(3, 6, 2, 2));
}

#[test]
fn sub_region_is_not_held_inside_its_parent() {
    let screen = Screen::new(5, 5);
    let sub = screen.full_screen().sub_region(1, 1, 2, 2).sub_region(3, 3, 40, 50);
    assert_eq!(sub, Subregion { x: 4, y: 4, width: 40, height: 50 });
}

#[test]
fn inside_is_one_cell_in() {
    let screen = Screen::new(12, 9);
    let outer = screen.full_screen().sub_region(2, 3, 8, 5);
    let inner = outer.inside();
    assert_eq!(inner, Subregion { x: 3, y: 4, width: 6, height: 3 });
    assert_eq!(inner.width(), outer.width() - 2);
    assert_eq!(inner.height(), outer.height() - 2);
}

#[test]
fn inside_of_the_smallest_frame_is_empty() {
    let screen = Screen::new(2, 2);
    let inner = screen.full_screen().inside();
    assert_eq!(inner, Subregion { x: 1, y: 1, width: 0, height: 0 });
}

#[test]
fn frame_characters_of_every_style() {
    assert_eq!(
        frame_characters(FrameStyle::Single),
        vec!['\u{2500}', '\u{2502}', '\u{250c}', '\u{2510}', '\u{2514}', '\u{2518}']
    );
    assert_eq!(
        frame_characters(FrameStyle::SingleRounded),
        vec!['\u{2500}', '\u{2502}', '\u{256d}', '\u{256e}', '\u{2570}', '\u{256f}']
    );
    assert_eq!(
        frame_characters(FrameStyle::Dashed),
        vec!['\u{2504}', '\u{250a}', '\u{250c}', '\u{2510}', '\u{2514}', '\u{2518}']
    );
    assert_eq!(
        frame_characters(FrameStyle::Double),
        vec!['\u{2550}', '\u{2551}', '\u{2554}', '\u{2557}', '\u{255a}', '\u{255d}']
    );
    assert_eq!(frame_characters(FrameStyle::Double), frame_characters(FrameStyle::Double));
}

#[test]
fn draw_frame_on_a_screen() {
    let mut screen = Screen::new(6, 5);
    let region = screen.full_screen().sub_region(1, 1, 4, 3);
    region.draw_frame(&mut screen, Color::Black, Color::Red, FrameStyle::Double);
    let rows: Vec<String> = (0..5)
        .map(|y| (0..6).map(|x| cell(&screen, x, y).ch).collect())
        .collect();
    assert_eq!(rows[0], "      ");
    assert_eq!(rows[1], " \u{2554}\u{2550}\u{2550}\u{2557} ");
    assert_eq!(rows[2], " \u{2551}  \u{2551} ");
    assert_eq!(rows[3], " \u{255a}\u{2550}\u{2550}\u{255d} ");
    assert_eq!(rows[4], "      ");
    assert_eq!(cell(&screen, 1, 1).foreground, Color::Red);
    assert_eq!(cell(&screen, 2, 2).foreground, Color::LightGray);
}

#[test]
fn draw_frame_of_the_smallest_region_is_four_corners() {
    let mut screen = Screen::new(2, 2);
    let region = screen.full_screen();
    region.draw_frame(&mut screen, Color::Black, Color::White, FrameStyle::SingleRounded);
    assert_eq!(cell(&screen, 0, 0).ch, '\u{256d}');
    assert_eq!(cell(&screen, 1, 0).ch, '\u{256e}');
    assert_eq!(cell(&screen, 0, 1).ch, '\u{2570}');
    assert_eq!(cell(&screen, 1, 1).ch, '\u{256f}');
}
