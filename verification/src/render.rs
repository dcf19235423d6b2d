//! Drawing the editor: its buffer in a frame, and its status line.

use crate::buffer::{events_of, Buffer, BufferRenderEvent, RenderEvent, Segment};
use crate::buffer_view::BufferView;
use crate::color::Color;
use crate::frame::{can_paint, frame_strokes, painted, painted_one_more, Frame, FrameStyle, Stroke};
use crate::region::Region;
use vstd::prelude::*;

verus! {

/// The text of the status line.
pub open spec fn welcome_spec() -> Seq<char> {
    "*** WELCOME TO R.E.D ***"@
}

/// The last row of a region, over its full width: where the status line goes.
pub open spec fn status_region<R: Region>(region: &R) -> R {
    region.carved(0, region.bounds().height - 1, region.bounds().width, 1)
}

/// Draws the status line: the last row of the region, filled with red, with
/// the welcome text in white on it.
pub fn render_status_area<R: Region>(region: &R, console: &mut R::Console)
    requires
        region.bounds().height >= 1,
        region.can_carve(0, region.bounds().height - 1, region.bounds().width, 1),
        status_region(region).can_fill(),
        status_region(region).can_print(0, 0, welcome_spec().len()),
        R::drawable(old(console)),
    ensures
        R::drawable(final(console)),
        R::canvas(final(console)) == status_region(region).printed(
            status_region(region).filled(R::canvas(old(console)), Color::Red),
            0,
            0,
            Color::Red,
            Color::White,
            welcome_spec(),
        ),
{
    let status = region.sub_region(0, region.height() - 1, region.width(), 1);
    status.fill(console, Color::Red);
    status.print(console, 0, 0, Color::Red, Color::White, "*** WELCOME TO R.E.D ***");
}

/// The characters among the events of a line, in order.
pub open spec fn characters_of(events: Seq<RenderEvent>) -> Seq<char>
    decreases events.len(),
{
    if events.len() == 0 {
        Seq::empty()
    } else {
        match events.last() {
            RenderEvent::Char(ch) => characters_of(events.drop_last()).push(ch),
            RenderEvent::SwitchStyle(_) => characters_of(events.drop_last()),
        }
    }
}

/// The text of a line as it is drawn: the characters of all its segments.
pub open spec fn line_text(line: Seq<Segment>) -> Seq<char> {
    characters_of(events_of(line, line.len()))
}

/// How many lines of a buffer are shown in `rows` rows where the first
/// `skipped` lines are passed over.
pub open spec fn shown_count(lines: nat, skipped: nat, rows: nat) -> nat {
    if lines <= skipped {
        0
    } else if lines - skipped < rows {
        (lines - skipped) as nat
    } else {
        rows
    }
}

/// The texts of the lines that a view shows in `rows` rows. The view passes
/// over twice as many lines as its top line says.
pub open spec fn shown_lines(buffer: &Buffer, view: &BufferView, rows: nat) -> Seq<Seq<char>> {
    Seq::new(
        shown_count(buffer.lines@.len(), 2 * view.top_line as nat, rows),
        |j: int| line_text(buffer.lines@[2 * view.top_line + j]@),
    )
}

/// The strokes of the first `count` characters of one row of text: each
/// character by itself, in white on black, one column after the other.
pub open spec fn row_strokes(text: Seq<char>, y: int, count: nat) -> Seq<Stroke> {
    Seq::new(
        count,
        |k: int|
            Stroke {
                x: k,
                y,
                background: Color::Black,
                foreground: Color::White,
                text: seq![text[k]],
            },
    )
}

/// The strokes of the first `count` rows of text, row after row from the top.
pub open spec fn text_strokes(lines: Seq<Seq<char>>, count: nat) -> Seq<Stroke>
    decreases count,
{
    if count == 0 {
        Seq::empty()
    } else {
        text_strokes(lines, (count - 1) as nat) + row_strokes(
            lines[count - 1],
            count - 1,
            lines[count - 1].len(),
        )
    }
}

/// The part of a region that the buffer is drawn in: all but its last row.
pub open spec fn buffer_region<R: Region>(region: &R) -> R {
    region.carved(0, 0, region.bounds().width, region.bounds().height - 1)
}

/// The part of a region that the text of the buffer is drawn in: the inside
/// of the frame around the buffer region.
pub open spec fn text_region<R: Region>(region: &R) -> R {
    buffer_region(region).carved(1, 1, region.bounds().width - 2, region.bounds().height - 3)
}

/// Draws a buffer: the region but for its last row is filled with black and
/// gets a double frame in red; the lines that the view shows are written
/// inside the frame in white on black, one line to a row from the top, each
/// from the left edge on.
pub fn render_buffer<R: Region>(
    region: &R,
    console: &mut R::Console,
    buffer: &Buffer,
    view: &BufferView,
)
    requires
        region.bounds().width >= 2,
        region.bounds().height >= 3,
        region.can_carve(0, 0, region.bounds().width, region.bounds().height - 1),
        buffer_region(region).can_carve(
            1,
            1,
            region.bounds().width - 2,
            region.bounds().height - 3,
        ),
        buffer_region(region).can_fill(),
        can_paint(
            &buffer_region(region),
            frame_strokes(
                region.bounds().width,
                region.bounds().height - 1,
                Color::Black,
                Color::Red,
                FrameStyle::Double,
            ),
        ),
        forall|j: int|
            0 <= j < shown_lines(buffer, view, (region.bounds().height - 3) as nat).len() ==> (
            #[trigger] shown_lines(buffer, view, (region.bounds().height - 3) as nat)[j]).len()
                <= u16::MAX,
        can_paint(
            &text_region(region),
            text_strokes(
                shown_lines(buffer, view, (region.bounds().height - 3) as nat),
                shown_lines(buffer, view, (region.bounds().height - 3) as nat).len(),
            ),
        ),
        R::drawable(old(console)),
    ensures
        R::drawable(final(console)),
        R::canvas(final(console)) == painted(
            &text_region(region),
            painted(
                &buffer_region(region),
                buffer_region(region).filled(R::canvas(old(console)), Color::Black),
                frame_strokes(
                    region.bounds().width,
                    region.bounds().height - 1,
                    Color::Black,
                    Color::Red,
                    FrameStyle::Double,
                ),
            ),
            text_strokes(
                shown_lines(buffer, view, (region.bounds().height - 3) as nat),
                shown_lines(buffer, view, (region.bounds().height - 3) as nat).len(),
            ),
        ),
{
    let buffer_region = region.sub_region(0, 0, region.width(), region.height() - 1);
    buffer_region.fill(console, Color::Black);
    buffer_region.draw_frame(console, Color::Black, Color::Red, FrameStyle::Double);
    let inner_region = buffer_region.inside();
    let rows: u16 = inner_region.height();

    let ghost shown = shown_lines(buffer, view, rows as nat);
    let ghost framed = R::canvas(console);
    let ghost all = text_strokes(shown, shown.len());

    let lines: usize = buffer.lines.len();
    let skipped: u64 = 2 * (view.top_line as u64);
    let count: usize = if lines as u64 <= skipped {
        0
    } else {
        let left: usize = lines - (skipped as usize);
        if left < (rows as usize) {
            left
        } else {
            rows as usize
        }
    };
    assert(count == shown.len());

    let mut y: u16 = 0;
    while (y as usize) < count
        invariant
            y <= count <= rows,
            count == shown.len(),
            skipped == 2 * view.top_line,
            skipped + count <= buffer.lines@.len() || count == 0,
            shown == shown_lines(buffer, view, rows as nat),
            all == text_strokes(shown, shown.len()),
            can_paint(&inner_region, all),
            forall|j: int| 0 <= j < shown.len() ==> (#[trigger] shown[j]).len() <= u16::MAX,
            R::drawable(console),
            R::canvas(console) == painted(&inner_region, framed, text_strokes(shown, y as nat)),
        decreases count - y,
    {
        assert(skipped + y < buffer.lines.len());
        let line = &buffer.lines[skipped as usize + y as usize];
        let events = line.iter();
        let ghost evs = events_of(line@, line@.len());
        let ghost text = shown[y as int];
        let ghost above = text_strokes(shown, y as nat);
        assert(shown[y as int] == line_text(buffer.lines@[2 * view.top_line + y]@));
        assert(text == characters_of(evs));
        proof {
            text_strokes_are_a_prefix(shown, (y + 1) as nat, shown.len());
        }
        let mut x: u16 = 0;
        let mut e: usize = 0;
        assert(evs.subrange(0, 0) =~= Seq::<RenderEvent>::empty());
        assert(above + row_strokes(text, y as int, 0) =~= above);
        while e < events.len()
            invariant
                e <= events.len(),
                events@.len() == evs.len(),
                forall|i: int| 0 <= i < events@.len() ==> (#[trigger] events@[i])@ == evs[i],
                text == characters_of(evs),
                text.len() <= u16::MAX,
                x == characters_of(evs.subrange(0, e as int)).len(),
                x <= text.len(),
                characters_of(evs.subrange(0, e as int)) == text.subrange(0, x as int),
                above + row_strokes(text, y as int, text.len()) == all.subrange(
                    0,
                    (above.len() + text.len()) as int,
                ),
                above.len() + text.len() <= all.len(),
                can_paint(&inner_region, all),
                R::drawable(console),
                R::canvas(console) == painted(
                    &inner_region,
                    framed,
                    above + row_strokes(text, y as int, x as nat),
                ),
            decreases events.len() - e,
        {
            let ghost prefix = evs.subrange(0, e + 1);
            assert(prefix.drop_last() =~= evs.subrange(0, e as int));
            assert(prefix.last() == evs[e as int]);
            proof {
                characters_are_a_prefix(evs, (e + 1) as nat);
            }
            match &events[e] {
                BufferRenderEvent::Char(ch) => {
                    let ghost stroke = Stroke {
                        x: x as int,
                        y: y as int,
                        background: Color::Black,
                        foreground: Color::White,
                        text: seq![*ch],
                    };
                    assert(characters_of(prefix) == characters_of(evs.subrange(0, e as int)).push(
                        *ch,
                    ));
                    assert(characters_of(prefix).len() == x + 1);
                    assert(characters_of(prefix) == text.subrange(0, x + 1));
                    assert(text.subrange(0, x + 1)[x as int] == *ch);
                    assert(text[x as int] == *ch);
                    assert(all[above.len() + x] == (above + row_strokes(
                        text,
                        y as int,
                        text.len(),
                    ))[above.len() + x]);
                    assert(all[above.len() + x] == stroke);
                    inner_region.print_char(console, x, y, Color::Black, Color::White, *ch);
                    proof {
                        painted_one_more(
                            &inner_region,
                            framed,
                            above + row_strokes(text, y as int, x as nat),
                            stroke,
                        );
                        assert((above + row_strokes(text, y as int, x as nat)).push(stroke)
                            =~= above + row_strokes(text, y as int, (x + 1) as nat));
                    }
                    x = x + 1;
                },
                BufferRenderEvent::SwitchStyle(_style_id) => {
                    assert(characters_of(prefix) == characters_of(evs.subrange(0, e as int)));
                },
            }
            e = e + 1;
        }
        assert(evs.subrange(0, evs.len() as int) =~= evs);
        assert(text.subrange(0, text.len() as int) =~= text);
        y = y + 1;
    }
}

/// The characters among the first events of a line are the first characters
/// of the line.
pub proof fn characters_are_a_prefix(events: Seq<RenderEvent>, count: nat)
    requires
        count <= events.len(),
    ensures
        characters_of(events.subrange(0, count as int)).len() <= characters_of(events).len(),
        characters_of(events.subrange(0, count as int)) == characters_of(events).subrange(
            0,
            characters_of(events.subrange(0, count as int)).len() as int,
        ),
    decreases events.len(),
{
    if count == events.len() {
        assert(events.subrange(0, count as int) =~= events);
        assert(characters_of(events).subrange(0, characters_of(events).len() as int)
            =~= characters_of(events));
    } else {
        characters_are_a_prefix(events.drop_last(), count);
        assert(events.drop_last().subrange(0, count as int) =~= events.subrange(0, count as int));
        let part = characters_of(events.subrange(0, count as int));
        assert(part =~= characters_of(events).subrange(0, part.len() as int));
    }
}

/// The strokes of the first rows of a text are the first strokes of the
/// whole text.
pub proof fn text_strokes_are_a_prefix(lines: Seq<Seq<char>>, fewer: nat, more: nat)
    requires
        fewer <= more,
    ensures
        text_strokes(lines, fewer).len() <= text_strokes(lines, more).len(),
        text_strokes(lines, fewer) == text_strokes(lines, more).subrange(
            0,
            text_strokes(lines, fewer).len() as int,
        ),
    decreases more,
{
    if fewer == more {
        assert(text_strokes(lines, more).subrange(0, text_strokes(lines, more).len() as int)
            =~= text_strokes(lines, more));
    } else {
        text_strokes_are_a_prefix(lines, fewer, (more - 1) as nat);
        assert(text_strokes(lines, fewer) =~= text_strokes(lines, more).subrange(
            0,
            text_strokes(lines, fewer).len() as int,
        ));
    }
}

} // verus!
