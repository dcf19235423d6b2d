//! Frames drawn along the border of a region.

use crate::color::Color;
use crate::region::{Bounds, Region};
use crate::text::{repeated, repeated_spec};
use vstd::prelude::*;

verus! {

/// The line styles a frame can be drawn in.
#[derive(Clone, Copy, Debug, PartialEq, Eq, Structural)]
pub enum FrameStyle {
    Single,
    SingleRounded,
    Dashed,
    Double,
}

/// The parts of a frame, in the order in which a style lists its glyphs.
#[derive(Clone, Copy, Debug, PartialEq, Eq, Structural)]
pub enum FrameCharacter {
    Horizontal,
    Vertical,
    TopLeft,
    TopRight,
    BottomLeft,
    BottomRight,
}

impl FrameCharacter {
    /// Position of the part among the glyphs of a style.
    pub open spec fn index_spec(self) -> int {
        match self {
            FrameCharacter::Horizontal => 0,
            FrameCharacter::Vertical => 1,
            FrameCharacter::TopLeft => 2,
            FrameCharacter::TopRight => 3,
            FrameCharacter::BottomLeft => 4,
            FrameCharacter::BottomRight => 5,
        }
    }

    /// Position of the part among the glyphs of a style.
    pub fn index(self) -> (index: usize)
        ensures
            index == self.index_spec(),
            index < 6,
    {
        match self {
            FrameCharacter::Horizontal => 0,
            FrameCharacter::Vertical => 1,
            FrameCharacter::TopLeft => 2,
            FrameCharacter::TopRight => 3,
            FrameCharacter::BottomLeft => 4,
            FrameCharacter::BottomRight => 5,
        }
    }
}

/// The six glyphs of a style: horizontal, vertical, then the corners top
/// left, top right, bottom left, bottom right.
pub open spec fn frame_characters_spec(style: FrameStyle) -> Seq<char> {
    match style {
        FrameStyle::Single => seq![
            '\u{2500}',
            '\u{2502}',
            '\u{250c}',
            '\u{2510}',
            '\u{2514}',
            '\u{2518}',
        ],
        FrameStyle::SingleRounded => seq![
            '\u{2500}',
            '\u{2502}',
            '\u{256d}',
            '\u{256e}',
            '\u{2570}',
            '\u{256f}',
        ],
        FrameStyle::Dashed => seq![
            '\u{2504}',
            '\u{250a}',
            '\u{250c}',
            '\u{2510}',
            '\u{2514}',
            '\u{2518}',
        ],
        FrameStyle::Double => seq![
            '\u{2550}',
            '\u{2551}',
            '\u{2554}',
            '\u{2557}',
            '\u{255a}',
            '\u{255d}',
        ],
    }
}

/// The glyphs of a frame style, in the order of [`FrameCharacter`].
pub fn frame_characters(style: FrameStyle) -> (glyphs: Vec<char>)
    ensures
        glyphs@ == frame_characters_spec(style),
        glyphs@.len() == 6,
{
    let glyphs = match style {
        FrameStyle::Single => vec![
            '\u{2500}',
            '\u{2502}',
            '\u{250c}',
            '\u{2510}',
            '\u{2514}',
            '\u{2518}',
        ],
        FrameStyle::SingleRounded => vec![
            '\u{2500}',
            '\u{2502}',
            '\u{256d}',
            '\u{256e}',
            '\u{2570}',
            '\u{256f}',
        ],
        FrameStyle::Dashed => vec![
            '\u{2504}',
            '\u{250a}',
            '\u{250c}',
            '\u{2510}',
            '\u{2514}',
            '\u{2518}',
        ],
        FrameStyle::Double => vec![
            '\u{2550}',
            '\u{2551}',
            '\u{2554}',
            '\u{2557}',
            '\u{255a}',
            '\u{255d}',
        ],
    };
    assert(glyphs@ =~= frame_characters_spec(style));
    glyphs
}

/// Every style has exactly six glyphs, one for each part of a frame at the
/// position of that part, and no two parts of a style share a glyph.
pub proof fn frame_characters_are_six(style: FrameStyle, part: FrameCharacter, other: FrameCharacter)
    ensures
        frame_characters_spec(style).len() == 6,
        0 <= part.index_spec() < 6,
        part != other ==> part.index_spec() != other.index_spec(),
        part != other ==> frame_characters_spec(style)[part.index_spec()]
            != frame_characters_spec(style)[other.index_spec()],
{
}

/// One call of `print`: a text, its colors and where it starts, relative to
/// the region.
pub struct Stroke {
    pub x: int,
    pub y: int,
    pub background: Color,
    pub foreground: Color,
    pub text: Seq<char>,
}

/// The canvas after the strokes were printed through a region, one after the
/// other.
pub open spec fn painted<R: Region>(region: &R, canvas: R::Canvas, strokes: Seq<Stroke>) -> R::Canvas
    decreases strokes.len(),
{
    if strokes.len() == 0 {
        canvas
    } else {
        let last = strokes.last();
        region.printed(
            painted(region, canvas, strokes.drop_last()),
            last.x,
            last.y,
            last.background,
            last.foreground,
            last.text,
        )
    }
}

/// Whether each of the strokes stays within the machine's coordinates.
pub open spec fn can_paint<R: Region>(region: &R, strokes: Seq<Stroke>) -> bool {
    forall|i: int|
        0 <= i < strokes.len() ==> region.can_print(
            (#[trigger] strokes[i]).x,
            strokes[i].y,
            strokes[i].text.len(),
        )
}

/// The strokes of a frame around a region of the given size, in the order in
/// which they are drawn: the top and the bottom edge over the full width;
/// then, row by row between them, the left and the right side; at last the
/// four corners, over the ends of the edges.
pub open spec fn frame_strokes(
    width: int,
    height: int,
    background: Color,
    foreground: Color,
    style: FrameStyle,
) -> Seq<Stroke> {
    let glyphs = frame_characters_spec(style);
    let edge = repeated_spec(glyphs[0], width as nat);
    let stroke = |x: int, y: int, text: Seq<char>| Stroke { x, y, background, foreground, text };
    seq![stroke(0, 0, edge), stroke(0, height - 1, edge)] + Seq::new(
        (2 * (height - 2)) as nat,
        |i: int|
            stroke(
                if i % 2 == 0 {
                    0
                } else {
                    width - 1
                },
                1 + i / 2,
                seq![glyphs[1]],
            ),
    ) + seq![
        stroke(0, 0, seq![glyphs[2]]),
        stroke(width - 1, 0, seq![glyphs[3]]),
        stroke(0, height - 1, seq![glyphs[4]]),
        stroke(width - 1, height - 1, seq![glyphs[5]]),
    ]
}

/// A frame around a region at least two cells wide and high takes two edges,
/// two sides for every row between them, and four corners.
pub proof fn frame_strokes_count(
    width: int,
    height: int,
    background: Color,
    foreground: Color,
    style: FrameStyle,
)
    requires
        height >= 2,
    ensures
        frame_strokes(width, height, background, foreground, style).len() == 2 * height + 2,
{
}

/// Painting one more stroke is printing it on what the strokes before it
/// left.
pub proof fn painted_one_more<R: Region>(
    region: &R,
    canvas: R::Canvas,
    strokes: Seq<Stroke>,
    next: Stroke,
)
    ensures
        painted(region, canvas, strokes.push(next)) == region.printed(
            painted(region, canvas, strokes),
            next.x,
            next.y,
            next.background,
            next.foreground,
            next.text,
        ),
{
    assert(strokes.push(next).drop_last() =~= strokes);
}

/// Painting the strokes of two sequences one after the other is painting the
/// second sequence on what the first one left.
pub proof fn painted_in_turn<R: Region>(
    region: &R,
    canvas: R::Canvas,
    first: Seq<Stroke>,
    second: Seq<Stroke>,
)
    ensures
        painted(region, canvas, first + second) == painted(
            region,
            painted(region, canvas, first),
            second,
        ),
    decreases second.len(),
{
    if second.len() == 0 {
        assert(first + second =~= first);
    } else {
        painted_in_turn(region, canvas, first, second.drop_last());
        assert((first + second).drop_last() =~= first + second.drop_last());
        assert((first + second).last() == second.last());
    }
}

/// Frames on regions.
pub trait Frame: Region {
    /// Draws a frame along the border of the region.
    fn draw_frame(
        &self,
        console: &mut Self::Console,
        background: Color,
        foreground: Color,
        style: FrameStyle,
    )
        requires
            self.bounds().width >= 2,
            self.bounds().height >= 2,
            Self::drawable(old(console)),
            can_paint(
                self,
                frame_strokes(
                    self.bounds().width,
                    self.bounds().height,
                    background,
                    foreground,
                    style,
                ),
            ),
        ensures
            Self::drawable(final(console)),
            Self::canvas(final(console)) == painted(
                self,
                Self::canvas(old(console)),
                frame_strokes(
                    self.bounds().width,
                    self.bounds().height,
                    background,
                    foreground,
                    style,
                ),
            ),
    ;

    /// The region inside the frame: one cell in from every side.
    fn inside(&self) -> (inner: Self)
        requires
            self.bounds().width >= 2,
            self.bounds().height >= 2,
            self.can_carve(1, 1, self.bounds().width - 2, self.bounds().height - 2),
        ensures
            inner == self.carved(1, 1, self.bounds().width - 2, self.bounds().height - 2),
            inner.bounds() == self.bounds().inset(),
    ;
}

impl<R: Region> Frame for R {
    fn draw_frame(
        &self,
        console: &mut R::Console,
        background: Color,
        foreground: Color,
        style: FrameStyle,
    ) {
        let chars = frame_characters(style);
        let width = self.width();
        let height = self.height();
        let ghost strokes = frame_strokes(
            width as int,
            height as int,
            background,
            foreground,
            style,
        );
        let ghost start = R::canvas(console);
        let horizontal = repeated(chars[FrameCharacter::Horizontal.index()], width as usize);

        assert(strokes.len() == 2 * height + 2);
        assert(strokes[0].text == horizontal@ && strokes[0].x == 0 && strokes[0].y == 0);
        self.print(console, 0, 0, background, foreground, horizontal.as_str());
        proof {
            painted_one_more(self, start, strokes.subrange(0, 0), strokes[0]);
            assert(strokes.subrange(0, 0).push(strokes[0]) =~= strokes.subrange(0, 1));
            assert(painted(self, start, strokes.subrange(0, 0)) == start);
        }
        assert(strokes[1].text == horizontal@ && strokes[1].x == 0 && strokes[1].y == height - 1);
        self.print(console, 0, height - 1, background, foreground, horizontal.as_str());
        proof {
            painted_one_more(self, start, strokes.subrange(0, 1), strokes[1]);
            assert(strokes.subrange(0, 1).push(strokes[1]) =~= strokes.subrange(0, 2));
        }

        let vertical = chars[FrameCharacter::Vertical.index()];
        let mut y: u16 = 1;
        while y < height - 1
            invariant
                1 <= y <= height - 1,
                width == self.bounds().width,
                height == self.bounds().height,
                width >= 2,
                strokes == frame_strokes(
                    width as int,
                    height as int,
                    background,
                    foreground,
                    style,
                ),
                strokes.len() == 2 * height + 2,
                can_paint(self, strokes),
                vertical == frame_characters_spec(style)[1],
                R::drawable(console),
                R::canvas(console) == painted(self, start, strokes.subrange(0, 2 * y as int)),
            decreases height - y,
        {
            let ghost k = 2 * y as int;
            assert(strokes[k].text == seq![vertical] && strokes[k].x == 0 && strokes[k].y == y);
            self.print_char(console, 0, y, background, foreground, vertical);
            proof {
                painted_one_more(self, start, strokes.subrange(0, k), strokes[k]);
                assert(strokes.subrange(0, k).push(strokes[k]) =~= strokes.subrange(0, k + 1));
            }
            assert(strokes[k + 1].text == seq![vertical] && strokes[k + 1].x == width - 1
                && strokes[k + 1].y == y);
            self.print_char(console, width - 1, y, background, foreground, vertical);
            proof {
                painted_one_more(self, start, strokes.subrange(0, k + 1), strokes[k + 1]);
                assert(strokes.subrange(0, k + 1).push(strokes[k + 1]) =~= strokes.subrange(
                    0,
                    k + 2,
                ));
            }
            y = y + 1;
        }

        let ghost k = 2 * height as int - 2;
        assert(strokes[k].text == seq![chars@[2]] && strokes[k].x == 0 && strokes[k].y == 0);
        self.print_char(
            console,
            0,
            0,
            background,
            foreground,
            chars[FrameCharacter::TopLeft.index()],
        );
        proof {
            painted_one_more(self, start, strokes.subrange(0, k), strokes[k]);
            assert(strokes.subrange(0, k).push(strokes[k]) =~= strokes.subrange(0, k + 1));
        }
        assert(strokes[k + 1].text == seq![chars@[3]] && strokes[k + 1].x == width - 1
            && strokes[k + 1].y == 0);
        self.print_char(
            console,
            width - 1,
            0,
            background,
            foreground,
            chars[FrameCharacter::TopRight.index()],
        );
        proof {
            painted_one_more(self, start, strokes.subrange(0, k + 1), strokes[k + 1]);
            assert(strokes.subrange(0, k + 1).push(strokes[k + 1]) =~= strokes.subrange(0, k + 2));
        }
        assert(strokes[k + 2].text == seq![chars@[4]] && strokes[k + 2].x == 0 && strokes[k
            + 2].y == height - 1);
        self.print_char(
            console,
            0,
            height - 1,
            background,
            foreground,
            chars[FrameCharacter::BottomLeft.index()],
        );
        proof {
            painted_one_more(self, start, strokes.subrange(0, k + 2), strokes[k + 2]);
            assert(strokes.subrange(0, k + 2).push(strokes[k + 2]) =~= strokes.subrange(0, k + 3));
        }
        assert(strokes[k + 3].text == seq![chars@[5]] && strokes[k + 3].x == width - 1
            && strokes[k + 3].y == height - 1);
        self.print_char(
            console,
            width - 1,
            height - 1,
            background,
            foreground,
            chars[FrameCharacter::BottomRight.index()],
        );
        proof {
            painted_one_more(self, start, strokes.subrange(0, k + 3), strokes[k + 3]);
            assert(strokes.subrange(0, k + 3).push(strokes[k + 3]) =~= strokes);
        }
    }

    fn inside(&self) -> (inner: R) {
        self.sub_region(1, 1, self.width() - 2, self.height() - 2)
    }
}

/// The inside of a framed region is two cells narrower and lower than the
/// region and starts one cell further right and down, whatever was drawn.
pub proof fn inside_of_a_frame<R: Region>(outer: &R)
    requires
        2 <= outer.bounds().width <= u16::MAX,
        2 <= outer.bounds().height <= u16::MAX,
        outer.can_carve(1, 1, outer.bounds().width - 2, outer.bounds().height - 2),
    ensures
        outer.carved(1, 1, outer.bounds().width - 2, outer.bounds().height - 2).bounds() == (
        Bounds {
            left: outer.bounds().left + 1,
            top: outer.bounds().top + 1,
            width: outer.bounds().width - 2,
            height: outer.bounds().height - 2,
        }),
{
    outer.carved_bounds(1, 1, outer.bounds().width - 2, outer.bounds().height - 2);
}

} // verus!
