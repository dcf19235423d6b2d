//! A console that keeps its cells in memory.

use crate::color::Color;
use crate::frame::{
    frame_characters_spec, frame_strokes, painted, FrameCharacter, FrameStyle, Stroke,
};
use crate::region::{Bounds, Region};
use crate::text::repeated;
use vstd::arithmetic::div_mod::lemma_fundamental_div_mod_converse;
use vstd::arithmetic::mul::lemma_mul_inequality;
use vstd::prelude::*;
use vstd::string::*;

verus! {

/// One character cell of a screen.
#[derive(Clone, Copy, Debug, PartialEq, Eq, Structural)]
pub struct Cell {
    pub ch: char,
    pub background: Color,
    pub foreground: Color,
}

/// The cell of a screen that nothing was drawn on: a space in light gray on
/// black.
pub open spec fn blank_cell() -> Cell {
    Cell { ch: ' ', background: Color::Black, foreground: Color::LightGray }
}

/// The cell that filling leaves behind: a space in white on the fill color.
pub open spec fn fill_cell(color: Color) -> Cell {
    Cell { ch: ' ', background: color, foreground: Color::White }
}

/// A screen as a grid: `rows[y][x]` is the cell in column `x` of row `y`.
pub struct Grid {
    pub width: int,
    pub height: int,
    pub rows: Seq<Seq<Cell>>,
}

impl Grid {
    /// Whether the grid has `height` rows of `width` cells each.
    pub open spec fn well_formed(self) -> bool {
        &&& 0 <= self.width
        &&& 0 <= self.height
        &&& self.rows.len() == self.height
        &&& forall|y: int| 0 <= y < self.height ==> (#[trigger] self.rows[y]).len() == self.width
    }

    /// Whether `(x, y)` is a cell of the grid.
    pub open spec fn holds(self, x: int, y: int) -> bool {
        0 <= x < self.width && 0 <= y < self.height
    }

    /// The grid in which every cell that `change` has a value for takes that
    /// value, and every other cell stays.
    pub open spec fn repainted(self, change: spec_fn(int, int) -> Option<Cell>) -> Grid {
        Grid {
            width: self.width,
            height: self.height,
            rows: Seq::new(
                self.height as nat,
                |y: int|
                    Seq::new(
                        self.width as nat,
                        |x: int|
                            match change(x, y) {
                                Some(cell) => cell,
                                None => self.rows[y][x],
                            },
                    ),
            ),
        }
    }
}

/// Repainting depends only on what the change says of the cells of the grid.
pub proof fn repainting_agrees(
    grid: Grid,
    change: spec_fn(int, int) -> Option<Cell>,
    other: spec_fn(int, int) -> Option<Cell>,
)
    requires
        grid.well_formed(),
        forall|x: int, y: int| grid.holds(x, y) ==> change(x, y) == other(x, y),
    ensures
        grid.repainted(change) == grid.repainted(other),
{
    let a = grid.repainted(change);
    let b = grid.repainted(other);
    assert forall|y: int| 0 <= y < grid.height implies #[trigger] a.rows[y] =~= b.rows[y] by {
        assert forall|x: int| 0 <= x < grid.width implies a.rows[y][x] == b.rows[y][x] by {
            assert(grid.holds(x, y));
        }
    }
    assert(a.rows =~= b.rows);
}

/// A change without a value for any cell of the grid leaves the grid as it
/// is.
pub proof fn repainting_nothing(grid: Grid, change: spec_fn(int, int) -> Option<Cell>)
    requires
        grid.well_formed(),
        forall|x: int, y: int| grid.holds(x, y) ==> change(x, y) is None,
    ensures
        grid.repainted(change) == grid,
{
    let a = grid.repainted(change);
    assert forall|y: int| 0 <= y < grid.height implies #[trigger] a.rows[y] =~= grid.rows[y] by {
        assert forall|x: int| 0 <= x < grid.width implies a.rows[y][x] == grid.rows[y][x] by {
            assert(grid.holds(x, y));
        }
    }
    assert(a.rows =~= grid.rows);
}

/// Repainting twice is repainting once with the later change laid over the
/// earlier one.
pub proof fn repainting_twice(
    grid: Grid,
    first: spec_fn(int, int) -> Option<Cell>,
    second: spec_fn(int, int) -> Option<Cell>,
    both: spec_fn(int, int) -> Option<Cell>,
)
    requires
        grid.well_formed(),
        forall|x: int, y: int|
            grid.holds(x, y) ==> both(x, y) == (match second(x, y) {
                Some(cell) => Some(cell),
                None => first(x, y),
            }),
    ensures
        grid.repainted(first).repainted(second) == grid.repainted(both),
{
    let a = grid.repainted(first).repainted(second);
    let b = grid.repainted(both);
    assert forall|y: int| 0 <= y < grid.height implies #[trigger] a.rows[y] =~= b.rows[y] by {
        assert forall|x: int| 0 <= x < grid.width implies a.rows[y][x] == b.rows[y][x] by {
            assert(grid.holds(x, y));
        }
    }
    assert(a.rows =~= b.rows);
}

/// A screen of character cells held in memory: a console without a terminal.
pub struct Screen {
    width: u16,
    height: u16,
    cells: Vec<Cell>,
}

impl View for Screen {
    type V = Grid;

    closed spec fn view(&self) -> Grid {
        Grid {
            width: self.width as int,
            height: self.height as int,
            rows: Seq::new(
                self.height as nat,
                |y: int| Seq::new(self.width as nat, |x: int| self.cells@[y * self.width + x]),
            ),
        }
    }
}

proof fn cell_index_in_range(x: int, y: int, width: int, height: int)
    requires
        0 <= x < width <= 0xFFFF,
        0 <= y < height <= 0xFFFF,
    ensures
        0 <= y * width,
        width * height <= 0xFFFF * 0xFFFF,
        0 <= y * width + x < width * height,
        (y * width + x) / width == y,
        (y * width + x) % width == x,
{
    lemma_fundamental_div_mod_converse(y * width + x, width, y, x);
    lemma_mul_inequality(y + 1, height, width);
    assert(width * height <= 0xFFFF * 0xFFFF) by (nonlinear_arith)
        requires
            0 <= width <= 0xFFFF,
            0 <= height <= 0xFFFF,
    ;
    assert((y + 1) * width == y * width + width) by (nonlinear_arith);
    assert(height * width == width * height) by (nonlinear_arith);
    assert(0 <= y * width) by (nonlinear_arith)
        requires
            0 <= y,
            0 <= width,
    ;
}

impl Screen {
    /// Whether the screen holds exactly one cell for every position.
    pub closed spec fn well_formed(&self) -> bool {
        self.cells@.len() == self.width * self.height
    }

    /// A well-formed screen shows a well-formed grid of its own size.
    pub proof fn view_is_well_formed(&self)
        requires
            self.well_formed(),
        ensures
            self@.well_formed(),
    {
    }

    /// Creates a screen of the given size with every cell blank.
    pub fn new(width: u16, height: u16) -> (screen: Screen)
        ensures
            screen.well_formed(),
            screen@.width == width,
            screen@.height == height,
            screen@.well_formed(),
            forall|x: int, y: int| screen@.holds(x, y) ==> #[trigger] screen@.rows[y][x] == blank_cell(),
    {
        assert(width * height <= 0xFFFF * 0xFFFF) by (nonlinear_arith)
            requires
                0 <= width <= 0xFFFF,
                0 <= height <= 0xFFFF,
        ;
        let count: usize = width as usize * height as usize;
        let mut cells: Vec<Cell> = Vec::new();
        let mut i: usize = 0;
        while i < count
            invariant
                i <= count,
                cells@.len() == i,
                forall|j: int| 0 <= j < i ==> cells@[j] == blank_cell(),
            decreases count - i,
        {
            cells.push(Cell { ch: ' ', background: Color::Black, foreground: Color::LightGray });
            i = i + 1;
        }
        let screen = Screen { width, height, cells };
        proof {
            assert forall|x: int, y: int| screen@.holds(x, y) implies #[trigger] screen@.rows[y][x]
                == blank_cell() by {
                cell_index_in_range(x, y, width as int, height as int);
            }
        }
        screen
    }

    /// The number of columns.
    pub fn width(&self) -> (width: u16)
        ensures
            width == self@.width,
    {
        self.width
    }

    /// The number of rows.
    pub fn height(&self) -> (height: u16)
        ensures
            height == self@.height,
    {
        self.height
    }

    /// The cell in column `x` of row `y`, or `None` outside the screen.
    pub fn cell(&self, x: u16, y: u16) -> (cell: Option<Cell>)
        requires
            self.well_formed(),
        ensures
            cell == if self@.holds(x as int, y as int) {
                Some(self@.rows[y as int][x as int])
            } else {
                None
            },
    {
        if x < self.width && y < self.height {
            proof {
                cell_index_in_range(x as int, y as int, self.width as int, self.height as int);
            }
            let index: usize = y as usize * self.width as usize + x as usize;
            Some(self.cells[index])
        } else {
            None
        }
    }

    /// The region that covers the whole screen.
    pub fn full_screen(&self) -> (region: Subregion)
        ensures
            region.bounds() == (Bounds {
                left: 0,
                top: 0,
                width: self@.width,
                height: self@.height,
            }),
    {
        Subregion { x: 0, y: 0, width: self.width, height: self.height }
    }

    /// Makes every cell blank again.
    pub fn clear(&mut self)
        requires
            old(self).well_formed(),
        ensures
            final(self).well_formed(),
            final(self)@ == old(self)@.repainted(|x: int, y: int| Some(blank_cell())),
    {
        let count: usize = self.cells.len();
        let mut i: usize = 0;
        while i < count
            invariant
                i <= count,
                count == self.cells@.len(),
                self.width == old(self).width,
                self.height == old(self).height,
                self.well_formed(),
                forall|j: int| 0 <= j < i ==> self.cells@[j] == blank_cell(),
            decreases count - i,
        {
            self.cells.set(i, Cell { ch: ' ', background: Color::Black, foreground: Color::LightGray });
            i = i + 1;
        }
        proof {
            let goal = old(self)@.repainted(|x: int, y: int| Some(blank_cell()));
            assert forall|y: int| 0 <= y < self.height implies #[trigger] self@.rows[y] =~= goal.rows[y] by {
                assert forall|x: int| 0 <= x < self.width implies self@.rows[y][x] == goal.rows[y][x] by {
                    cell_index_in_range(x, y, self.width as int, self.height as int);
                }
            }
            assert(self@.rows =~= goal.rows);
        }
    }

    /// Overwrites one cell; a position outside the screen is ignored.
    fn put(&mut self, x: usize, y: usize, cell: Cell)
        requires
            old(self).well_formed(),
        ensures
            final(self).well_formed(),
            final(self)@ == old(self)@.repainted(
                |cx: int, cy: int|
                    if cx == x && cy == y {
                        Some(cell)
                    } else {
                        None
                    },
            ),
    {
        let ghost goal = self@.repainted(
            |cx: int, cy: int|
                if cx == x && cy == y {
                    Some(cell)
                } else {
                    None
                },
        );
        if x < self.width as usize && y < self.height as usize {
            proof {
                cell_index_in_range(x as int, y as int, self.width as int, self.height as int);
            }
            let index: usize = y * self.width as usize + x;
            self.cells.set(index, cell);
            proof {
                assert forall|cy: int| 0 <= cy < self.height implies #[trigger] self@.rows[cy]
                    =~= goal.rows[cy] by {
                    assert forall|cx: int| 0 <= cx < self.width implies self@.rows[cy][cx]
                        == goal.rows[cy][cx] by {
                        cell_index_in_range(cx, cy, self.width as int, self.height as int);
                    }
                }
                assert(self@.rows =~= goal.rows);
            }
        } else {
            proof {
                assert forall|cy: int| 0 <= cy < self.height implies #[trigger] self@.rows[cy]
                    =~= goal.rows[cy] by {
                    assert forall|cx: int| 0 <= cx < self.width implies self@.rows[cy][cx]
                        == goal.rows[cy][cx] by {}
                }
                assert(self@.rows =~= goal.rows);
            }
        }
    }
}

/// A region of a [`Screen`].
#[derive(Clone, Copy, Debug, PartialEq, Eq, Structural)]
pub struct Subregion {
    pub x: u16,
    pub y: u16,
    pub width: u16,
    pub height: u16,
}

/// What printing changes on a screen: the first `count` characters of `text`
/// land side by side on one row, starting at the absolute cell `(x, y)`;
/// every other cell keeps its value.
pub open spec fn print_change(
    x: int,
    y: int,
    background: Color,
    foreground: Color,
    text: Seq<char>,
    count: int,
) -> spec_fn(int, int) -> Option<Cell> {
    |cx: int, cy: int|
        if cy == y && x <= cx < x + count {
            Some(Cell { ch: text[cx - x], background, foreground })
        } else {
            None
        }
}

/// What filling changes on a screen: the first `rows` rows of the rectangle
/// become fill cells; every other cell keeps its value.
pub open spec fn fill_change(bounds: Bounds, color: Color, rows: int) -> spec_fn(int, int) -> Option<
    Cell,
> {
    |cx: int, cy: int|
        if bounds.contains(cx, cy) && cy < bounds.top + rows {
            Some(fill_cell(color))
        } else {
            None
        }
}

impl Region for Subregion {
    type Console = Screen;

    type Canvas = Grid;

    open spec fn bounds(&self) -> Bounds {
        Bounds {
            left: self.x as int,
            top: self.y as int,
            width: self.width as int,
            height: self.height as int,
        }
    }

    open spec fn canvas(console: &Screen) -> Grid {
        console@
    }

    open spec fn drawable(console: &Screen) -> bool {
        console.well_formed()
    }

    open spec fn can_carve(&self, rel_x: int, rel_y: int, width: int, height: int) -> bool {
        self.bounds().left + rel_x <= u16::MAX && self.bounds().top + rel_y <= u16::MAX
    }

    open spec fn carved(&self, rel_x: int, rel_y: int, width: int, height: int) -> Subregion {
        Subregion {
            x: (self.x + rel_x) as u16,
            y: (self.y + rel_y) as u16,
            width: width as u16,
            height: height as u16,
        }
    }

    open spec fn can_print(&self, rel_x: int, rel_y: int, len: nat) -> bool {
        true
    }

    open spec fn can_fill(&self) -> bool {
        true
    }

    /// The text lands on one row of the screen. It is neither wrapped nor
    /// held inside the region; what would fall off the screen is dropped.
    open spec fn printed(
        &self,
        canvas: Grid,
        rel_x: int,
        rel_y: int,
        background: Color,
        foreground: Color,
        text: Seq<char>,
    ) -> Grid {
        canvas.repainted(
            print_change(
                self.bounds().left + rel_x,
                self.bounds().top + rel_y,
                background,
                foreground,
                text,
                text.len() as int,
            ),
        )
    }

    /// Every cell of the region that lies on the screen becomes a space in
    /// white on the fill color; no other cell changes.
    open spec fn filled(&self, canvas: Grid, color: Color) -> Grid {
        canvas.repainted(fill_change(self.bounds(), color, self.bounds().height))
    }

    proof fn carved_bounds(&self, rel_x: int, rel_y: int, width: int, height: int) {
    }

    fn height(&self) -> (height: u16) {
        self.height
    }

    fn width(&self) -> (width: u16) {
        self.width
    }

    fn fill(&self, console: &mut Screen, color: Color) {
        let horizontal = repeated(' ', self.width as usize);
        let mut y: u16 = 0;
        proof {
            console.view_is_well_formed();
            repainting_nothing(console@, fill_change(self.bounds(), color, 0));
        }
        while y < self.height
            invariant
                y <= self.height,
                console.well_formed(),
                old(console)@.well_formed(),
                horizontal@ == crate::text::repeated_spec(' ', self.width as nat),
                console@ == old(console)@.repainted(fill_change(self.bounds(), color, y as int)),
            decreases self.height - y,
        {
            let ghost before = console@;
            assert(self.can_print(0, y as int, horizontal@.len()));
            self.print(console, 0, y, color, Color::White, horizontal.as_str());
            proof {
                assert(console@ == before.repainted(
                    print_change(
                        self.bounds().left,
                        self.bounds().top + y,
                        color,
                        Color::White,
                        horizontal@,
                        horizontal@.len() as int,
                    ),
                ));
                repainting_twice(
                    old(console)@,
                    fill_change(self.bounds(), color, y as int),
                    print_change(
                        self.bounds().left,
                        self.bounds().top + y,
                        color,
                        Color::White,
                        horizontal@,
                        horizontal@.len() as int,
                    ),
                    fill_change(self.bounds(), color, y + 1),
                );
            }
            y = y + 1;
        }
    }

    fn print(
        &self,
        console: &mut Screen,
        rel_x: u16,
        rel_y: u16,
        background: Color,
        foreground: Color,
        text: &str,
    ) {
        let x: usize = self.x as usize + rel_x as usize;
        let y: usize = self.y as usize + rel_y as usize;
        let len: usize = text.unicode_len();
        let width: usize = console.width as usize;
        let room: usize = if x < width {
            width - x
        } else {
            0
        };
        let count: usize = if len < room {
            len
        } else {
            room
        };
        let mut i: usize = 0;
        proof {
            console.view_is_well_formed();
            repainting_nothing(
                console@,
                print_change(x as int, y as int, background, foreground, text@, 0),
            );
        }
        while i < count
            invariant
                i <= count <= len,
                len == text@.len(),
                x + count <= width || count == 0,
                width == console@.width,
                console.well_formed(),
                old(console)@.well_formed(),
                console@ == old(console)@.repainted(
                    print_change(x as int, y as int, background, foreground, text@, i as int),
                ),
            decreases count - i,
        {
            let ch = text.get_char(i);
            console.put(x + i, y, Cell { ch, background, foreground });
            proof {
                repainting_twice(
                    old(console)@,
                    print_change(x as int, y as int, background, foreground, text@, i as int),
                    |cx: int, cy: int|
                        if cx == x + i && cy == y {
                            Some(Cell { ch, background, foreground })
                        } else {
                            None
                        },
                    print_change(x as int, y as int, background, foreground, text@, i + 1),
                );
            }
            i = i + 1;
        }
        proof {
            repainting_agrees(
                old(console)@,
                print_change(x as int, y as int, background, foreground, text@, count as int),
                print_change(x as int, y as int, background, foreground, text@, len as int),
            );
            assert(console@ == self.printed(
                old(console)@,
                rel_x as int,
                rel_y as int,
                background,
                foreground,
                text@,
            ));
        }
    }

    fn sub_region(&self, rel_x: u16, rel_y: u16, width: u16, height: u16) -> (sub: Subregion) {
        Subregion { x: self.x + rel_x, y: self.y + rel_y, width, height }
    }
}

/// Filling paints the cells of the region and no other: afterwards every cell
/// of the screen that lies in the region is a space in white on the fill
/// color, and every cell outside it is what it was.
pub proof fn fill_paints_the_region_alone(region: Subregion, grid: Grid, color: Color)
    requires
        grid.well_formed(),
    ensures
        region.filled(grid, color).well_formed(),
        region.filled(grid, color).width == grid.width,
        region.filled(grid, color).height == grid.height,
        forall|x: int, y: int|
            grid.holds(x, y) ==> #[trigger] region.filled(grid, color).rows[y][x] == (if region.bounds().contains(
                x,
                y,
            ) {
                fill_cell(color)
            } else {
                grid.rows[y][x]
            }),
{
}

/// Filling a region and then a second one leaves three kinds of cells: those
/// of the second region in its color, those of the first region outside the
/// second in the first color, and all others untouched.
pub proof fn fill_twice(
    first: Subregion,
    second: Subregion,
    grid: Grid,
    first_color: Color,
    second_color: Color,
)
    requires
        grid.well_formed(),
    ensures
        forall|x: int, y: int|
            grid.holds(x, y) ==> #[trigger] second.filled(
                first.filled(grid, first_color),
                second_color,
            ).rows[y][x] == (if second.bounds().contains(x, y) {
                fill_cell(second_color)
            } else if first.bounds().contains(x, y) {
                fill_cell(first_color)
            } else {
                grid.rows[y][x]
            }),
{
    fill_paints_the_region_alone(first, grid, first_color);
    fill_paints_the_region_alone(second, first.filled(grid, first_color), second_color);
    assert forall|x: int, y: int| grid.holds(x, y) implies #[trigger] second.filled(
        first.filled(grid, first_color),
        second_color,
    ).rows[y][x] == (if second.bounds().contains(x, y) {
        fill_cell(second_color)
    } else if first.bounds().contains(x, y) {
        fill_cell(first_color)
    } else {
        grid.rows[y][x]
    }) by {
        assert(first.filled(grid, first_color).holds(x, y));
    }
}

/// Printing writes one row and nothing else: the characters of the text land
/// side by side from the start within the region on, in the given colors, and every
/// other cell of the screen is what it was.
pub proof fn print_writes_one_row(
    region: Subregion,
    grid: Grid,
    rel_x: int,
    rel_y: int,
    background: Color,
    foreground: Color,
    text: Seq<char>,
)
    requires
        grid.well_formed(),
    ensures
        region.printed(grid, rel_x, rel_y, background, foreground, text).well_formed(),
        forall|x: int, y: int|
            grid.holds(x, y) ==> #[trigger] region.printed(
                grid,
                rel_x,
                rel_y,
                background,
                foreground,
                text,
            ).rows[y][x] == (if y == region.bounds().top + rel_y && region.bounds().left + rel_x
                <= x < region.bounds().left + rel_x + text.len() {
                Cell { ch: text[x - region.bounds().left - rel_x], background, foreground }
            } else {
                grid.rows[y][x]
            }),
{
}

/// Whether a stroke printed through a region writes the cell `(x, y)` of the
/// screen.
pub open spec fn stroke_covers(bounds: Bounds, stroke: Stroke, x: int, y: int) -> bool {
    y == bounds.top + stroke.y && bounds.left + stroke.x <= x < bounds.left + stroke.x
        + stroke.text.len()
}

/// The cell that a stroke printed through a region writes at `(x, y)`.
pub open spec fn stroke_cell(bounds: Bounds, stroke: Stroke, x: int) -> Cell {
    Cell {
        ch: stroke.text[x - bounds.left - stroke.x],
        background: stroke.background,
        foreground: stroke.foreground,
    }
}

/// What the last of the strokes that write the cell `(x, y)` writes there;
/// `None` where no stroke writes it.
pub open spec fn last_cover(bounds: Bounds, strokes: Seq<Stroke>, x: int, y: int) -> Option<Cell>
    decreases strokes.len(),
{
    if strokes.len() == 0 {
        None
    } else if stroke_covers(bounds, strokes.last(), x, y) {
        Some(stroke_cell(bounds, strokes.last(), x))
    } else {
        last_cover(bounds, strokes.drop_last(), x, y)
    }
}

/// Painting strokes on a screen leaves in every cell what the last stroke
/// over that cell wrote, and the cells that no stroke wrote as they were.
pub proof fn painted_cells(region: Subregion, grid: Grid, strokes: Seq<Stroke>)
    requires
        grid.well_formed(),
    ensures
        painted(&region, grid, strokes).well_formed(),
        painted(&region, grid, strokes).width == grid.width,
        painted(&region, grid, strokes).height == grid.height,
        forall|x: int, y: int|
            grid.holds(x, y) ==> #[trigger] painted(&region, grid, strokes).rows[y][x] == (
            match last_cover(region.bounds(), strokes, x, y) {
                Some(cell) => cell,
                None => grid.rows[y][x],
            }),
    decreases strokes.len(),
{
    if strokes.len() > 0 {
        painted_cells(region, grid, strokes.drop_last());
        let before = painted(&region, grid, strokes.drop_last());
        let last = strokes.last();
        print_writes_one_row(
            region,
            before,
            last.x,
            last.y,
            last.background,
            last.foreground,
            last.text,
        );
        assert forall|x: int, y: int| grid.holds(x, y) implies #[trigger] painted(
            &region,
            grid,
            strokes,
        ).rows[y][x] == (match last_cover(region.bounds(), strokes, x, y) {
            Some(cell) => cell,
            None => grid.rows[y][x],
        }) by {
            assert(before.holds(x, y));
        }
    }
}

/// Of two sequences of strokes painted in turn, the later one covers the
/// earlier one.
pub proof fn last_cover_in_turn(
    bounds: Bounds,
    first: Seq<Stroke>,
    second: Seq<Stroke>,
    x: int,
    y: int,
)
    ensures
        last_cover(bounds, first + second, x, y) == (match last_cover(bounds, second, x, y) {
            Some(cell) => Some(cell),
            None => last_cover(bounds, first, x, y),
        }),
    decreases second.len(),
{
    if second.len() == 0 {
        assert(first + second =~= first);
    } else {
        last_cover_in_turn(bounds, first, second.drop_last(), x, y);
        assert((first + second).drop_last() =~= first + second.drop_last());
        assert((first + second).last() == second.last());
    }
}

/// The part of a frame that lies on the cell `(x, y)` of the screen; `None`
/// inside the frame and outside the rectangle.
pub open spec fn frame_part(bounds: Bounds, x: int, y: int) -> Option<FrameCharacter> {
    let right = bounds.left + bounds.width - 1;
    let bottom = bounds.top + bounds.height - 1;
    if !bounds.contains(x, y) {
        None
    } else if y == bounds.top {
        if x == bounds.left {
            Some(FrameCharacter::TopLeft)
        } else if x == right {
            Some(FrameCharacter::TopRight)
        } else {
            Some(FrameCharacter::Horizontal)
        }
    } else if y == bottom {
        if x == bounds.left {
            Some(FrameCharacter::BottomLeft)
        } else if x == right {
            Some(FrameCharacter::BottomRight)
        } else {
            Some(FrameCharacter::Horizontal)
        }
    } else if x == bounds.left || x == right {
        Some(FrameCharacter::Vertical)
    } else {
        None
    }
}

/// The sides of a frame, as its strokes list them.
pub open spec fn side_strokes(
    width: int,
    height: int,
    background: Color,
    foreground: Color,
    style: FrameStyle,
) -> Seq<Stroke> {
    frame_strokes(width, height, background, foreground, style).subrange(2, 2 * height - 2)
}

proof fn sides_cover(
    bounds: Bounds,
    background: Color,
    foreground: Color,
    style: FrameStyle,
    count: int,
    x: int,
    y: int,
)
    requires
        bounds.width >= 2,
        bounds.height >= 2,
        0 <= count <= 2 * (bounds.height - 2),
    ensures
        last_cover(
            bounds,
            side_strokes(bounds.width, bounds.height, background, foreground, style).subrange(
                0,
                count,
            ),
            x,
            y,
        ) == (if (x == bounds.left && bounds.top + 1 <= y < bounds.top + 1 + (count + 1) / 2) || (x
            == bounds.left + bounds.width - 1 && bounds.top + 1 <= y < bounds.top + 1 + count
            / 2) {
            Some(
                Cell { ch: frame_characters_spec(style)[1], background, foreground },
            )
        } else {
            None
        }),
    decreases count,
{
    let sides = side_strokes(bounds.width, bounds.height, background, foreground, style);
    if count > 0 {
        sides_cover(bounds, background, foreground, style, count - 1, x, y);
        let part = sides.subrange(0, count);
        assert(part.drop_last() =~= sides.subrange(0, count - 1));
        let last = part.last();
        assert(last == sides[count - 1]);
        assert(last == frame_strokes(bounds.width, bounds.height, background, foreground, style)[count
            + 1]);
        assert(last.text == seq![frame_characters_spec(style)[1]]);
        assert(last.y == 1 + (count - 1) / 2);
        assert(last.x == if (count - 1) % 2 == 0 {
            0
        } else {
            bounds.width - 1
        });
    }
}

/// A frame drawn on a screen is a frame: afterwards every cell of the screen
/// on the border of the region holds the glyph of its part of the frame, in
/// the colors of the frame, and every other cell is what it was.
pub proof fn frame_on_a_screen(
    region: Subregion,
    grid: Grid,
    background: Color,
    foreground: Color,
    style: FrameStyle,
)
    requires
        grid.well_formed(),
        region.bounds().width >= 2,
        region.bounds().height >= 2,
    ensures
        forall|x: int, y: int|
            grid.holds(x, y) ==> #[trigger] painted(
                &region,
                grid,
                frame_strokes(
                    region.bounds().width,
                    region.bounds().height,
                    background,
                    foreground,
                    style,
                ),
            ).rows[y][x] == (match frame_part(region.bounds(), x, y) {
                Some(part) => Cell {
                    ch: frame_characters_spec(style)[part.index_spec()],
                    background,
                    foreground,
                },
                None => grid.rows[y][x],
            }),
{
    let bounds = region.bounds();
    let strokes = frame_strokes(bounds.width, bounds.height, background, foreground, style);
    let glyphs = frame_characters_spec(style);
    let edges = strokes.subrange(0, 2);
    let sides = side_strokes(bounds.width, bounds.height, background, foreground, style);
    let corners = strokes.subrange(2 * bounds.height - 2, 2 * bounds.height + 2);
    assert(strokes =~= edges + sides + corners);
    painted_cells(region, grid, strokes);
    assert forall|x: int, y: int| grid.holds(x, y) implies #[trigger] painted(
        &region,
        grid,
        strokes,
    ).rows[y][x] == (match frame_part(bounds, x, y) {
        Some(part) => Cell { ch: glyphs[part.index_spec()], background, foreground },
        None => grid.rows[y][x],
    }) by {
        last_cover_in_turn(bounds, edges + sides, corners, x, y);
        last_cover_in_turn(bounds, edges, sides, x, y);
        sides_cover(bounds, background, foreground, style, 2 * (bounds.height - 2), x, y);
        assert(sides.subrange(0, 2 * (bounds.height - 2)) =~= sides);
        // The corners, last stroke first.
        let c3 = corners;
        let c2 = c3.drop_last();
        let c1 = c2.drop_last();
        let c0 = c1.drop_last();
        assert(c0.drop_last().len() == 0);
        assert(c3.last() == strokes[2 * bounds.height + 1]);
        assert(c2.last() == strokes[2 * bounds.height]);
        assert(c1.last() == strokes[2 * bounds.height - 1]);
        assert(c0.last() == strokes[2 * bounds.height - 2]);
        assert(last_cover(bounds, c0.drop_last(), x, y).is_none());
        // The edges, last stroke first.
        let e1 = edges;
        let e0 = e1.drop_last();
        assert(e0.drop_last().len() == 0);
        assert(e1.last() == strokes[1]);
        assert(e0.last() == strokes[0]);
        assert(last_cover(bounds, e0.drop_last(), x, y).is_none());
        let right = bounds.left + bounds.width - 1;
        let bottom = bounds.top + bounds.height - 1;
        let cell = |part: int| Cell { ch: glyphs[part], background, foreground };
        assert(last_cover(bounds, c0, x, y) == if x == bounds.left && y == bounds.top {
            Some(cell(2))
        } else {
            None
        });
        assert(last_cover(bounds, c1, x, y) == if x == right && y == bounds.top {
            Some(cell(3))
        } else {
            last_cover(bounds, c0, x, y)
        });
        assert(last_cover(bounds, c2, x, y) == if x == bounds.left && y == bottom {
            Some(cell(4))
        } else {
            last_cover(bounds, c1, x, y)
        });
        assert(last_cover(bounds, c3, x, y) == if x == right && y == bottom {
            Some(cell(5))
        } else {
            last_cover(bounds, c2, x, y)
        });
        assert(last_cover(bounds, e0, x, y) == if y == bounds.top && bounds.left <= x <= right {
            Some(cell(0))
        } else {
            None
        });
        assert(last_cover(bounds, e1, x, y) == if y == bottom && bounds.left <= x <= right {
            Some(cell(0))
        } else {
            last_cover(bounds, e0, x, y)
        });
    }
}

} // verus!
