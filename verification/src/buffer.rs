//! The character grid the widgets render into.

use vstd::prelude::*;

use crate::layout::Rect;
use crate::style::Color;
use crate::style::Modifier;
use crate::style::Style;
use crate::text::Span;

verus! {

/// One character cell: a glyph and how it is displayed.
#[derive(Debug, Clone, Copy, PartialEq, Eq, Hash)]
pub struct Cell {
    pub symbol: char,
    pub fg: Color,
    pub bg: Color,
    pub underline_color: Color,
    pub modifier: Modifier,
}

impl Cell {
    /// A blank cell with terminal-default colors and no modifiers.
    pub open spec fn spec_default() -> Cell {
        Cell {
            symbol: ' ',
            fg: Color::Reset,
            bg: Color::Reset,
            underline_color: Color::Reset,
            modifier: Modifier { bits: 0 },
        }
    }

    /// The cell after a style is merged in: explicit colors replace the
    /// cell's, added flags are set, then removed flags are cleared; the glyph
    /// is untouched.
    pub open spec fn spec_set_style(self, style: Style) -> Cell {
        Cell {
            symbol: self.symbol,
            fg: match style.fg {
                Some(c) => c,
                None => self.fg,
            },
            bg: match style.bg {
                Some(c) => c,
                None => self.bg,
            },
            underline_color: match style.underline_color {
                Some(c) => c,
                None => self.underline_color,
            },
            modifier: Modifier {
                bits: (self.modifier.spec_bits() | style.add_modifier.spec_bits())
                    & !style.sub_modifier.spec_bits(),
            },
        }
    }

    /// The cell with a style merged in.
    pub fn with_style(self, style: Style) -> (r: Cell)
        ensures
            r == self.spec_set_style(style),
    {
        Cell {
            symbol: self.symbol,
            fg: match style.fg {
                Some(c) => c,
                None => self.fg,
            },
            bg: match style.bg {
                Some(c) => c,
                None => self.bg,
            },
            underline_color: match style.underline_color {
                Some(c) => c,
                None => self.underline_color,
            },
            modifier: self.modifier.union(style.add_modifier).difference(style.sub_modifier),
        }
    }

    /// The style of the cell, every field explicit.
    pub fn style(&self) -> (r: Style)
        ensures
            r == (Style {
                fg: Some(self.fg),
                bg: Some(self.bg),
                underline_color: Some(self.underline_color),
                add_modifier: self.modifier,
                sub_modifier: Modifier { bits: 0 },
            }),
    {
        Style {
            fg: Some(self.fg),
            bg: Some(self.bg),
            underline_color: Some(self.underline_color),
            add_modifier: self.modifier,
            sub_modifier: Modifier::empty(),
        }
    }
}

impl Default for Cell {
    /// A blank cell with terminal-default colors and no modifiers.
    fn default() -> (r: Cell)
        ensures
            r == Cell::spec_default(),
    {
        Cell {
            symbol: ' ',
            fg: Color::Reset,
            bg: Color::Reset,
            underline_color: Color::Reset,
            modifier: Modifier::empty(),
        }
    }
}

/// A cell redrawn with a new glyph and a style merged in: what writing one
/// character of styled text does to a cell.
pub open spec fn spec_drawn(c: Cell, symbol: char, style: Style) -> Cell {
    Cell { symbol, ..c.spec_set_style(style) }
}

/// In a rectangle, the row-by-row position of a contained coordinate lies
/// within the cell count.
pub proof fn lemma_cell_index_bounds(area: Rect, x: int, y: int)
    requires
        area.contains(x, y),
    ensures
        0 <= (y - area.top()) * area.width + (x - area.left()) < area.width * area.height,
{
    let r = y - area.top();
    let c = x - area.left();
    let w = area.width as int;
    let h = area.height as int;
    assert(0 <= r * w + c < w * h) by (nonlinear_arith)
        requires
            0 <= r < h,
            0 <= c < w,
    ;
}

/// Distinct coordinates of a rectangle take distinct row-by-row positions.
pub proof fn lemma_cell_index_injective(area: Rect, x1: int, y1: int, x2: int, y2: int)
    requires
        area.contains(x1, y1),
        area.contains(x2, y2),
        !(x1 == x2 && y1 == y2),
    ensures
        (y1 - area.top()) * area.width + (x1 - area.left()) != (y2 - area.top()) * area.width + (
        x2 - area.left()),
{
    let r1 = y1 - area.top();
    let c1 = x1 - area.left();
    let r2 = y2 - area.top();
    let c2 = x2 - area.left();
    let w = area.width as int;
    assert(r1 * w + c1 != r2 * w + c2) by (nonlinear_arith)
        requires
            0 <= c1 < w,
            0 <= c2 < w,
            0 <= r1,
            0 <= r2,
            !(r1 == r2 && c1 == c2),
    ;
}

/// A rectangular grid of cells: the render target. Cells are stored row by
/// row over the covered area.
#[derive(Debug, Clone, PartialEq, Eq)]
pub struct Buffer {
    area: Rect,
    cells: Vec<Cell>,
}

impl Buffer {
    /// The covered area.
    pub closed spec fn spec_area(&self) -> Rect {
        self.area
    }

    /// The cells, row by row.
    pub closed spec fn grid(&self) -> Seq<Cell> {
        self.cells@
    }

    /// The position of the cell at `(x, y)` in the row-by-row order.
    pub open spec fn cell_index(&self, x: int, y: int) -> int {
        (y - self.spec_area().top()) * self.spec_area().width + (x - self.spec_area().left())
    }

    /// The cell at column `x`, row `y`.
    pub open spec fn cell_at(&self, x: int, y: int) -> Cell {
        self.grid()[self.cell_index(x, y)]
    }

    /// The grid covers the area, whose far edges stay within the coordinate
    /// type.
    pub open spec fn wf(&self) -> bool {
        self.grid().len() == self.spec_area().width * self.spec_area().height
            && self.spec_area().right() <= 0xFFFF && self.spec_area().bottom() <= 0xFFFF
    }

    /// The covered area.
    pub fn area(&self) -> (r: Rect)
        ensures
            r == self.spec_area(),
    {
        self.area
    }

    /// A buffer covering `area`, all cells blank.
    pub fn empty(area: Rect) -> (r: Buffer)
        requires
            area.right() <= 0xFFFF,
            area.bottom() <= 0xFFFF,
        ensures
            r.wf(),
            r.spec_area() == area,
            forall|x: int, y: int|
                area.contains(x, y) ==> #[trigger] r.cell_at(x, y) == Cell::spec_default(),
    {
        proof {
            vstd::arithmetic::mul::lemma_mul_upper_bound(
                area.width as int,
                0xFFFF,
                area.height as int,
                0xFFFF,
            );
        }
        let n: usize = (area.width as usize) * (area.height as usize);
        let mut cells: Vec<Cell> = Vec::new();
        while cells.len() < n
            invariant
                cells@.len() <= n,
                forall|i: int| 0 <= i < cells@.len() ==> cells@[i] == Cell::spec_default(),
            decreases n - cells@.len(),
        {
            cells.push(Cell::default());
        }
        let r = Buffer { area, cells };
        proof {
            assert forall|x: int, y: int| area.contains(x, y) implies #[trigger] r.cell_at(x, y)
                == Cell::spec_default() by {
                lemma_cell_index_bounds(area, x, y);
            }
        }
        r
    }

    /// The row-by-row position of `(x, y)`.
    fn index_of(&self, x: u16, y: u16) -> (i: usize)
        requires
            self.wf(),
            self.spec_area().contains(x as int, y as int),
        ensures
            i == self.cell_index(x as int, y as int),
            i < self.grid().len(),
    {
        proof {
            lemma_cell_index_bounds(self.area, x as int, y as int);
            vstd::arithmetic::mul::lemma_mul_upper_bound(
                (y - self.area.y) as int,
                0xFFFF,
                self.area.width as int,
                0xFFFF,
            );
        }
        ((y - self.area.y) as usize) * (self.area.width as usize) + ((x - self.area.x) as usize)
    }

    /// The cell at `(x, y)`.
    pub fn get(&self, x: u16, y: u16) -> (c: Cell)
        requires
            self.wf(),
            self.spec_area().contains(x as int, y as int),
        ensures
            c == self.cell_at(x as int, y as int),
    {
        let i = self.index_of(x, y);
        self.cells[i]
    }

    /// Replaces the cell at `(x, y)`, leaving every other cell unchanged.
    pub fn set_cell(&mut self, x: u16, y: u16, cell: Cell)
        requires
            old(self).wf(),
            old(self).spec_area().contains(x as int, y as int),
        ensures
            final (self).wf(),
            final (self).spec_area() == old(self).spec_area(),
            forall|cx: int, cy: int|
                old(self).spec_area().contains(cx, cy) ==> #[trigger] final (self).cell_at(cx, cy)
                    == (if cx == x && cy == y {
                    cell
                } else {
                    old(self).cell_at(cx, cy)
                }),
    {
        let i = self.index_of(x, y);
        self.cells.set(i, cell);
        proof {
            assert forall|cx: int, cy: int|
                old(self).spec_area().contains(cx, cy) && !(cx == x && cy == y) implies self.cell_at(
                cx,
                cy,
            ) == old(self).cell_at(cx, cy) by {
                lemma_cell_index_bounds(old(self).spec_area(), cx, cy);
                lemma_cell_index_injective(old(self).spec_area(), cx, cy, x as int, y as int);
            }
        }
    }

    /// Replaces only the glyph of the cell at `(x, y)`.
    pub fn set_symbol_at(&mut self, x: u16, y: u16, symbol: char)
        requires
            old(self).wf(),
            old(self).spec_area().contains(x as int, y as int),
        ensures
            final (self).wf(),
            final (self).spec_area() == old(self).spec_area(),
            forall|cx: int, cy: int|
                old(self).spec_area().contains(cx, cy) ==> #[trigger] final (self).cell_at(cx, cy)
                    == (if cx == x && cy == y {
                    (Cell { symbol, ..old(self).cell_at(cx, cy) })
                } else {
                    old(self).cell_at(cx, cy)
                }),
    {
        let c = self.get(x, y);
        self.set_cell(x, y, Cell { symbol, ..c });
    }

    /// Merges `style` into every cell of `rect`: the background wash.
    #[verifier::loop_isolation(false)]
    pub fn set_style(&mut self, rect: Rect, style: Style)
        requires
            old(self).wf(),
            rect.within(old(self).spec_area()),
        ensures
            final (self).wf(),
            final (self).spec_area() == old(self).spec_area(),
            forall|cx: int, cy: int|
                old(self).spec_area().contains(cx, cy) ==> #[trigger] final (self).cell_at(cx, cy)
                    == (if rect.contains(cx, cy) {
                    old(self).cell_at(cx, cy).spec_set_style(style)
                } else {
                    old(self).cell_at(cx, cy)
                }),
    {
        let mut y: u16 = rect.y;
        while y < rect.y + rect.height
            invariant
                rect.y <= y <= rect.bottom(),
                self.wf(),
                self.spec_area() == old(self).spec_area(),
                forall|cx: int, cy: int|
                    old(self).spec_area().contains(cx, cy) ==> #[trigger] self.cell_at(cx, cy) == (
                    if rect.contains(cx, cy) && cy < y {
                        old(self).cell_at(cx, cy).spec_set_style(style)
                    } else {
                        old(self).cell_at(cx, cy)
                    }),
            decreases rect.bottom() - y,
        {
            let mut x: u16 = rect.x;
            while x < rect.x + rect.width
                invariant
                    rect.y <= y < rect.bottom(),
                    rect.x <= x <= rect.right(),
                    self.wf(),
                    self.spec_area() == old(self).spec_area(),
                    forall|cx: int, cy: int|
                        old(self).spec_area().contains(cx, cy) ==> #[trigger] self.cell_at(cx, cy)
                            == (if rect.contains(cx, cy) && (cy < y || (cy == y && cx < x)) {
                            old(self).cell_at(cx, cy).spec_set_style(style)
                        } else {
                            old(self).cell_at(cx, cy)
                        }),
                decreases rect.right() - x,
            {
                let c = self.get(x, y);
                self.set_cell(x, y, c.with_style(style));
                x = x + 1;
            }
            y = y + 1;
        }
    }

    /// How many characters a write of `len` characters at distance `room`
    /// from the right edge, clipped to `max_width`, actually covers.
    pub open spec fn spec_write_len(len: int, max_width: int, room: int) -> int {
        if len <= max_width && len <= room {
            len
        } else if max_width <= room {
            max_width
        } else {
            room
        }
    }

    /// Writes up to `max_width` characters of `span` at `(x, y)`, clipped to
    /// the right edge; each written cell takes the span's glyph there and
    /// merges in the span's style. Returns the column after the last written
    /// character.
    #[verifier::loop_isolation(false)]
    pub fn set_span(&mut self, x: u16, y: u16, span: &Span, max_width: u16) -> (end: u16)
        requires
            old(self).wf(),
            old(self).spec_area().top() <= y < old(self).spec_area().bottom(),
            old(self).spec_area().left() <= x <= old(self).spec_area().right(),
        ensures
            final (self).wf(),
            final (self).spec_area() == old(self).spec_area(),
            end == x + Buffer::spec_write_len(
                span.content@.len() as int,
                max_width as int,
                old(self).spec_area().right() - x,
            ),
            forall|cx: int, cy: int|
                old(self).spec_area().contains(cx, cy) ==> #[trigger] final (self).cell_at(cx, cy)
                    == (if cy == y && x <= cx < end {
                    spec_drawn(old(self).cell_at(cx, cy), span.content@[cx - x], span.style)
                } else {
                    old(self).cell_at(cx, cy)
                }),
    {
        let room: u16 = (self.area.x + self.area.width) - x;
        let mut n: u16 = max_width;
        if (span.content.len() as u64) < (n as u64) {
            n = span.content.len() as u16;
        }
        if room < n {
            n = room;
        }
        assert(n == Buffer::spec_write_len(
            span.content@.len() as int,
            max_width as int,
            old(self).spec_area().right() - x,
        ));
        let mut i: u16 = 0;
        while i < n
            invariant
                0 <= i <= n,
                n <= span.content@.len(),
                x + n <= self.spec_area().right(),
                self.wf(),
                self.spec_area() == old(self).spec_area(),
                forall|cx: int, cy: int|
                    old(self).spec_area().contains(cx, cy) ==> #[trigger] self.cell_at(cx, cy) == (
                    if cy == y && x <= cx < x + i {
                        spec_drawn(old(self).cell_at(cx, cy), span.content@[cx - x], span.style)
                    } else {
                        old(self).cell_at(cx, cy)
                    }),
            decreases n - i,
        {
            let c = self.get(x + i, y);
            let drawn = Cell { symbol: span.content[i as usize], ..c.with_style(span.style) };
            self.set_cell(x + i, y, drawn);
            i = i + 1;
        }
        x + n
    }
}

} // verus!
