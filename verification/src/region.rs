//! Rectangular drawing surfaces.

use crate::color::Color;
use crate::text::char_to_string;
use vstd::prelude::*;

verus! {

/// A rectangle in the absolute coordinates of a console.
pub struct Bounds {
    pub left: int,
    pub top: int,
    pub width: int,
    pub height: int,
}

impl Bounds {
    /// The rectangle of the given size whose corner lies `(rel_x, rel_y)`
    /// away from the corner of this one. Nothing ties it to the inside of
    /// this rectangle.
    pub open spec fn carved(self, rel_x: int, rel_y: int, width: int, height: int) -> Bounds {
        Bounds { left: self.left + rel_x, top: self.top + rel_y, width, height }
    }

    /// The rectangle one cell inside this one on every side.
    pub open spec fn inset(self) -> Bounds {
        self.carved(1, 1, self.width - 2, self.height - 2)
    }

    /// Whether the cell `(x, y)` of the console lies in the rectangle.
    pub open spec fn contains(self, x: int, y: int) -> bool {
        self.left <= x < self.left + self.width && self.top <= y < self.top + self.height
    }
}

/// Carving twice adds the relative offsets: a region carved from a carved
/// region is the region carved from the parent at the sum of both offsets.
pub proof fn carving_composes(
    parent: Bounds,
    rel_x: int,
    rel_y: int,
    width: int,
    height: int,
    inner_x: int,
    inner_y: int,
    inner_width: int,
    inner_height: int,
)
    ensures
        parent.carved(rel_x, rel_y, width, height).left == parent.left + rel_x,
        parent.carved(rel_x, rel_y, width, height).top == parent.top + rel_y,
        parent.carved(rel_x, rel_y, width, height).carved(
            inner_x,
            inner_y,
            inner_width,
            inner_height,
        ) == parent.carved(rel_x + inner_x, rel_y + inner_y, inner_width, inner_height),
{
}

/// Carving is associative in its offsets: however three offsets are grouped,
/// the innermost region lies at their sum.
pub proof fn carving_is_associative(
    parent: Bounds,
    first: (int, int),
    second: (int, int),
    third: (int, int),
    width: int,
    height: int,
)
    ensures
        parent.carved(first.0 + second.0, first.1 + second.1, width, height).carved(
            third.0,
            third.1,
            width,
            height,
        ) == parent.carved(first.0, first.1, width, height).carved(
            second.0 + third.0,
            second.1 + third.1,
            width,
            height,
        ),
{
}

/// The inside of a frame is two cells narrower and lower than the framed
/// rectangle and starts one cell further right and down.
pub proof fn inset_shrinks_by_one_cell(outer: Bounds)
    requires
        outer.width >= 2,
        outer.height >= 2,
    ensures
        outer.inset().width == outer.width - 2,
        outer.inset().height == outer.height - 2,
        outer.inset().left == outer.left + 1,
        outer.inset().top == outer.top + 1,
        forall|x: int, y: int| #[trigger] outer.inset().contains(x, y) ==> outer.contains(x, y),
{
}

/// A rectangular drawing surface of one kind of console.
///
/// A region is a plain rectangle: it owns nothing, and every drawing
/// operation names the console to draw on. All regions carved from one
/// console therefore share that console's state.
pub trait Region: Sized {
    /// The console that regions of this kind draw on.
    type Console;

    /// What a console looks like to its reader: the mathematical value that
    /// drawing changes.
    type Canvas;

    /// The rectangle that the region covers.
    spec fn bounds(&self) -> Bounds;

    /// The canvas of a console.
    spec fn canvas(console: &Self::Console) -> Self::Canvas;

    /// Whether a console is in a state that drawing may start from.
    spec fn drawable(console: &Self::Console) -> bool;

    /// Whether a region of the given size fits the machine's coordinates when
    /// carved at `(rel_x, rel_y)`.
    spec fn can_carve(&self, rel_x: int, rel_y: int, width: int, height: int) -> bool;

    /// The region of the given size carved at `(rel_x, rel_y)`.
    spec fn carved(&self, rel_x: int, rel_y: int, width: int, height: int) -> Self;

    /// Whether printing `len` characters at `(rel_x, rel_y)` stays within the
    /// machine's coordinates.
    spec fn can_print(&self, rel_x: int, rel_y: int, len: nat) -> bool;

    /// Whether filling the region stays within the machine's coordinates.
    spec fn can_fill(&self) -> bool;

    /// The canvas after `text` was printed at `(rel_x, rel_y)` of the region.
    spec fn printed(
        &self,
        canvas: Self::Canvas,
        rel_x: int,
        rel_y: int,
        background: Color,
        foreground: Color,
        text: Seq<char>,
    ) -> Self::Canvas;

    /// The canvas after the region was filled with a color.
    spec fn filled(&self, canvas: Self::Canvas, color: Color) -> Self::Canvas;

    /// A carved region covers the rectangle carved out of the bounds.
    proof fn carved_bounds(&self, rel_x: int, rel_y: int, width: int, height: int)
        requires
            0 <= rel_x <= u16::MAX,
            0 <= rel_y <= u16::MAX,
            0 <= width <= u16::MAX,
            0 <= height <= u16::MAX,
            self.can_carve(rel_x, rel_y, width, height),
        ensures
            self.carved(rel_x, rel_y, width, height).bounds() == self.bounds().carved(
                rel_x,
                rel_y,
                width,
                height,
            ),
    ;

    fn height(&self) -> (height: u16)
        ensures
            height == self.bounds().height,
    ;

    fn width(&self) -> (width: u16)
        ensures
            width == self.bounds().width,
    ;

    /// Fills the region with black.
    fn clear(&self, console: &mut Self::Console)
        requires
            Self::drawable(old(console)),
            self.can_fill(),
        ensures
            Self::drawable(final(console)),
            Self::canvas(final(console)) == self.filled(Self::canvas(old(console)), Color::Black),
    {
        self.fill(console, Color::Black)
    }

    /// Overwrites every cell of the region with the given background color.
    fn fill(&self, console: &mut Self::Console, color: Color)
        requires
            Self::drawable(old(console)),
            self.can_fill(),
        ensures
            Self::drawable(final(console)),
            Self::canvas(final(console)) == self.filled(Self::canvas(old(console)), color),
    ;

    /// Writes `text` in the given colors, starting at `(rel_x, rel_y)` of the
    /// region.
    fn print(
        &self,
        console: &mut Self::Console,
        rel_x: u16,
        rel_y: u16,
        background: Color,
        foreground: Color,
        text: &str,
    )
        requires
            Self::drawable(old(console)),
            self.can_print(rel_x as int, rel_y as int, text@.len()),
        ensures
            Self::drawable(final(console)),
            Self::canvas(final(console)) == self.printed(
                Self::canvas(old(console)),
                rel_x as int,
                rel_y as int,
                background,
                foreground,
                text@,
            ),
    ;

    /// Writes one character: `print` with a text of that character alone.
    fn print_char(
        &self,
        console: &mut Self::Console,
        rel_x: u16,
        rel_y: u16,
        background: Color,
        foreground: Color,
        ch: char,
    )
        requires
            Self::drawable(old(console)),
            self.can_print(rel_x as int, rel_y as int, 1),
        ensures
            Self::drawable(final(console)),
            Self::canvas(final(console)) == self.printed(
                Self::canvas(old(console)),
                rel_x as int,
                rel_y as int,
                background,
                foreground,
                seq![ch],
            ),
    {
        let text = char_to_string(ch);
        self.print(console, rel_x, rel_y, background, foreground, text.as_str())
    }

    /// Carves a region of the given size whose corner lies `(rel_x, rel_y)`
    /// away from the corner of this one. The new region draws on the same
    /// console; whether it lies inside this one is the caller's business.
    fn sub_region(&self, rel_x: u16, rel_y: u16, width: u16, height: u16) -> (sub: Self)
        requires
            self.can_carve(rel_x as int, rel_y as int, width as int, height as int),
        ensures
            sub == self.carved(rel_x as int, rel_y as int, width as int, height as int),
            sub.bounds() == self.bounds().carved(
                rel_x as int,
                rel_y as int,
                width as int,
                height as int,
            ),
    ;
}

/// Sub-regions compose: a region carved out of a carved region lies where
/// both offsets add up, measured from the parent, and has the size it was
/// given.
pub proof fn sub_regions_compose<R: Region>(
    parent: &R,
    rel_x: int,
    rel_y: int,
    width: int,
    height: int,
    inner_x: int,
    inner_y: int,
    inner_width: int,
    inner_height: int,
)
    requires
        0 <= rel_x <= u16::MAX,
        0 <= rel_y <= u16::MAX,
        0 <= width <= u16::MAX,
        0 <= height <= u16::MAX,
        0 <= inner_x <= u16::MAX,
        0 <= inner_y <= u16::MAX,
        0 <= inner_width <= u16::MAX,
        0 <= inner_height <= u16::MAX,
        parent.can_carve(rel_x, rel_y, width, height),
        parent.carved(rel_x, rel_y, width, height).can_carve(
            inner_x,
            inner_y,
            inner_width,
            inner_height,
        ),
    ensures
        parent.carved(rel_x, rel_y, width, height).bounds().left == parent.bounds().left + rel_x,
        parent.carved(rel_x, rel_y, width, height).bounds().top == parent.bounds().top + rel_y,
        parent.carved(rel_x, rel_y, width, height).carved(
            inner_x,
            inner_y,
            inner_width,
            inner_height,
        ).bounds() == parent.bounds().carved(
            rel_x + inner_x,
            rel_y + inner_y,
            inner_width,
            inner_height,
        ),
{
    parent.carved_bounds(rel_x, rel_y, width, height);
    parent.carved(rel_x, rel_y, width, height).carved_bounds(
        inner_x,
        inner_y,
        inner_width,
        inner_height,
    );
}

} // verus!
