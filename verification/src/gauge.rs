//! The block-filling progress bar.

use vstd::prelude::*;

use crate::buffer::Buffer;
use crate::buffer::Cell;
use crate::buffer::spec_drawn;
use crate::layout::Rect;
use crate::ratio::ConfigError;
use crate::ratio::Ratio;
use crate::ratio::lemma_div_le;
use crate::style::Color;
use crate::style::Style;
use crate::symbols;
use crate::text::Span;

verus! {

/// `c` where present, else the terminal-default color: cells never keep an
/// undefined color.
pub open spec fn color_or_reset(c: Option<Color>) -> Color {
    match c {
        Some(color) => color,
        None => Color::Reset,
    }
}

/// The decimal digit `d` as a character.
pub open spec fn spec_digit(d: int) -> char {
    if d == 0 {
        '0'
    } else if d == 1 {
        '1'
    } else if d == 2 {
        '2'
    } else if d == 3 {
        '3'
    } else if d == 4 {
        '4'
    } else if d == 5 {
        '5'
    } else if d == 6 {
        '6'
    } else if d == 7 {
        '7'
    } else if d == 8 {
        '8'
    } else {
        '9'
    }
}

/// The synthesized label for a whole-number percentage: its digits followed
/// by a percent sign.
pub open spec fn spec_percent_label(p: int) -> Seq<char> {
    if p >= 100 {
        seq!['1', '0', '0', '%']
    } else if p >= 10 {
        seq![spec_digit(p / 10), spec_digit(p % 10), '%']
    } else {
        seq![spec_digit(p), '%']
    }
}

/// The decimal digit `d` as a character.
fn digit_char(d: u16) -> (c: char)
    requires
        d <= 9,
    ensures
        c == spec_digit(d as int),
{
    match d {
        0 => '0',
        1 => '1',
        2 => '2',
        3 => '3',
        4 => '4',
        5 => '5',
        6 => '6',
        7 => '7',
        8 => '8',
        _ => '9',
    }
}

/// The synthesized label text for a fill fraction: the rounded percentage
/// followed by a percent sign.
pub(crate) fn percent_label(ratio: &Ratio) -> (v: Vec<char>)
    ensures
        v@ == spec_percent_label(ratio.spec_rounded_percent()),
{
    let p = ratio.rounded_percent();
    let mut v: Vec<char> = Vec::new();
    if p >= 100 {
        v.push('1');
        v.push('0');
        v.push('0');
    } else if p >= 10 {
        v.push(digit_char(p / 10));
        v.push(digit_char(p % 10));
    } else {
        v.push(digit_char(p));
    }
    v.push('%');
    proof {
        assert(v@ =~= spec_percent_label(ratio.spec_rounded_percent()));
    }
    v
}

/// The partial-block glyph for a remainder of `index` eighths: blank for
/// zero, the full block for eight.
fn unicode_block(index: u64) -> (c: char)
    ensures
        c == Gauge::spec_frac_glyph(index as int),
{
    match index {
        1 => symbols::ONE_EIGHTH,
        2 => symbols::ONE_QUARTER,
        3 => symbols::THREE_EIGHTHS,
        4 => symbols::HALF,
        5 => symbols::FIVE_EIGHTHS,
        6 => symbols::THREE_QUARTERS,
        7 => symbols::SEVEN_EIGHTHS,
        8 => symbols::FULL,
        _ => ' ',
    }
}

/// A block-filling progress bar: a bar filled in proportion to its fraction,
/// with a centered label over it.
///
/// Built with chained setters and rendered once into a rectangle of a
/// [`Buffer`]. Any decorative border around the bar is the host's business:
/// the caller draws it itself and hands [`Gauge::render`] the remaining
/// working rectangle.
#[derive(Debug, Clone, PartialEq)]
pub struct Gauge {
    pub ratio: Ratio,
    pub label: Option<Span>,
    pub use_unicode: bool,
    pub style: Style,
    pub gauge_style: Style,
}

impl Default for Gauge {
    /// An empty bar: fraction zero, no explicit label, whole-cell precision,
    /// neutral styles.
    fn default() -> (g: Gauge)
        ensures
            g.ratio.spec_num() == 0,
            g.ratio.spec_den() == 1,
            g.label is None,
            g.use_unicode == false,
            g.style == Style::spec_new(),
            g.gauge_style == Style::spec_new(),
    {
        Gauge {
            ratio: Ratio::zero(),
            label: None,
            use_unicode: false,
            style: Style::new(),
            gauge_style: Style::new(),
        }
    }
}

impl Gauge {
    /// Sets the bar progression from a percentage, rejecting one above 100.
    pub fn percent(self, percent: u16) -> (r: Result<Gauge, ConfigError>)
        ensures
            r is Ok <==> percent <= 100,
            r matches Ok(g) ==> g.ratio.spec_num() == percent && g.ratio.spec_den() == 100
                && g.label == self.label && g.use_unicode == self.use_unicode && g.style
                == self.style && g.gauge_style == self.gauge_style,
            r is Err ==> r == Err::<Gauge, ConfigError>(ConfigError::PercentOutOfRange),
    {
        match Ratio::percent(percent) {
            Ok(ratio) => Ok(Gauge { ratio, ..self }),
            Err(e) => Err(e),
        }
    }

    /// Sets the bar progression from a fill fraction.
    pub fn ratio(self, ratio: Ratio) -> (g: Gauge)
        ensures
            g == (Gauge { ratio, ..self }),
    {
        Gauge { ratio, ..self }
    }

    /// Sets the label displayed over the center of the bar; without one, the
    /// rounded percentage is shown.
    pub fn label(self, label: Span) -> (g: Gauge)
        ensures
            g == (Gauge { label: Some(label), ..self }),
    {
        Gauge { label: Some(label), ..self }
    }

    /// Sets the widget style: the wash applied to the whole area.
    pub fn style(self, style: Style) -> (g: Gauge)
        ensures
            g == (Gauge { style, ..self }),
    {
        Gauge { style, ..self }
    }

    /// Sets the style of the bar itself.
    pub fn gauge_style(self, style: Style) -> (g: Gauge)
        ensures
            g == (Gauge { gauge_style: style, ..self }),
    {
        Gauge { gauge_style: style, ..self }
    }

    /// Sets whether the bar may use partial-block glyphs for sub-cell
    /// precision.
    pub fn use_unicode(self, unicode: bool) -> (g: Gauge)
        ensures
            g == (Gauge { use_unicode: unicode, ..self }),
    {
        Gauge { use_unicode: unicode, ..self }
    }

    /// The label text: the explicit label, or the rounded percentage.
    pub open spec fn spec_label_chars(self) -> Seq<char> {
        match self.label {
            Some(s) => s.content@,
            None => spec_percent_label(self.ratio.spec_rounded_percent()),
        }
    }

    /// The style the label is drawn with.
    pub open spec fn spec_label_style(self) -> Style {
        match self.label {
            Some(s) => s.style,
            None => Style::spec_new(),
        }
    }

    /// The label width clamped to the area.
    pub open spec fn spec_label_width(self, area: Rect) -> int {
        if self.spec_label_chars().len() <= area.width {
            self.spec_label_chars().len() as int
        } else {
            area.width as int
        }
    }

    /// The column of the label's first character: horizontally centered,
    /// rounding left.
    pub open spec fn spec_label_col(self, area: Rect) -> int {
        area.left() + (area.width - self.spec_label_width(area)) / 2
    }

    /// The row of the label: vertically centered, rounding down, which for
    /// even heights sits one row below the true center.
    pub open spec fn spec_label_row(self, area: Rect) -> int {
        area.top() + area.height / 2
    }

    /// The filled width scaled by the fraction's denominator: `width * num`.
    pub open spec fn spec_filled_times_den(self, area: Rect) -> int {
        area.width * self.ratio.spec_num()
    }

    /// One past the last fully filled column: the filled width rounded down
    /// with sub-cell precision (the remainder goes to the fractional glyph),
    /// else rounded to the nearest whole cell, halves up.
    pub open spec fn spec_fill_end(self, area: Rect) -> int {
        if self.use_unicode {
            area.left() + self.spec_filled_times_den(area) / (self.ratio.spec_den() as int)
        } else {
            area.left() + (2 * self.spec_filled_times_den(area) + self.ratio.spec_den()) / (2
                * self.ratio.spec_den())
        }
    }

    /// The fractional remainder of the filled width quantized to eighths,
    /// rounded to the nearest, halves up: a value in `0..=8`.
    pub open spec fn spec_frac_index(self, area: Rect) -> int {
        (16 * (self.spec_filled_times_den(area) % (self.ratio.spec_den() as int))
            + self.ratio.spec_den()) / (2 * self.ratio.spec_den())
    }

    /// The partial-block glyph for a remainder of `i` eighths: blank for
    /// zero, the full block for eight.
    pub open spec fn spec_frac_glyph(i: int) -> char {
        if i == 1 {
            symbols::ONE_EIGHTH
        } else if i == 2 {
            symbols::ONE_QUARTER
        } else if i == 3 {
            symbols::THREE_EIGHTHS
        } else if i == 4 {
            symbols::HALF
        } else if i == 5 {
            symbols::FIVE_EIGHTHS
        } else if i == 6 {
            symbols::THREE_QUARTERS
        } else if i == 7 {
            symbols::SEVEN_EIGHTHS
        } else if i == 8 {
            symbols::FULL
        } else {
            ' '
        }
    }

    /// A filled cell: a full block in the bar's colors, absent colors falling
    /// back to the terminal default; glyphless cell state is kept.
    pub open spec fn spec_fill_cell(self, c: Cell) -> Cell {
        Cell {
            symbol: symbols::FULL,
            fg: color_or_reset(self.gauge_style.fg),
            bg: color_or_reset(self.gauge_style.bg),
            underline_color: c.underline_color,
            modifier: c.modifier,
        }
    }

    /// A filled cell under the label: blank glyph with foreground and
    /// background swapped, so the label drawn afterward with normal polarity
    /// reads correctly against the fill.
    pub open spec fn spec_label_backdrop_cell(self, c: Cell) -> Cell {
        Cell {
            symbol: ' ',
            fg: color_or_reset(self.gauge_style.bg),
            bg: color_or_reset(self.gauge_style.fg),
            underline_color: c.underline_color,
            modifier: c.modifier,
        }
    }

    /// The fill pass over a washed cell: cells left of the fill boundary
    /// become full blocks, except those in the label's bounding box, which
    /// become the swapped backdrop.
    pub open spec fn spec_fill_pass(self, area: Rect, washed: Cell, x: int, y: int) -> Cell {
        if x < self.spec_fill_end(area) {
            if x < self.spec_label_col(area) || x > self.spec_label_col(area)
                + self.spec_label_width(area) || y != self.spec_label_row(area) {
                self.spec_fill_cell(washed)
            } else {
                self.spec_label_backdrop_cell(washed)
            }
        } else {
            washed
        }
    }

    /// The fractional-glyph pass: with sub-cell precision and a fraction
    /// strictly below one, the boundary column of every row takes the glyph
    /// of the quantized remainder.
    pub open spec fn spec_frac_pass(self, area: Rect, c: Cell, x: int, y: int) -> Cell {
        if self.use_unicode && self.ratio.spec_num() < self.ratio.spec_den() && x
            == self.spec_fill_end(area) && self.spec_fill_end(area) < area.right() {
            Cell { symbol: Gauge::spec_frac_glyph(self.spec_frac_index(area)), ..c }
        } else {
            c
        }
    }

    /// The label pass: the label's characters drawn over its row, each cell
    /// taking the character and merging in the label's style.
    pub open spec fn spec_label_pass(self, area: Rect, c: Cell, x: int, y: int) -> Cell {
        if y == self.spec_label_row(area) && self.spec_label_col(area) <= x
            < self.spec_label_col(area) + self.spec_label_width(area) {
            spec_drawn(c, self.spec_label_chars()[x - self.spec_label_col(area)],
                self.spec_label_style())
        } else {
            c
        }
    }

    /// What rendering into `area` leaves in the cell at `(x, y)` whose prior
    /// content was `c0`: both washes always run; in a degenerate area of zero
    /// rows nothing else is written; otherwise the fill, the fractional
    /// glyph, and finally the label are layered on.
    pub open spec fn spec_render_cell(self, area: Rect, c0: Cell, x: int, y: int) -> Cell {
        let washed = c0.spec_set_style(self.style).spec_set_style(self.gauge_style);
        if area.height == 0 {
            washed
        } else {
            self.spec_label_pass(area, self.spec_frac_pass(area, self.spec_fill_pass(area, washed,
                x, y), x, y), x, y)
        }
    }

    /// Renders the bar into `area` of `buf`: washes the area with the widget
    /// style and then the bar style, and, unless the area has zero rows,
    /// draws the proportional fill, the fractional boundary glyph, and the
    /// centered label. Every cell of `area` ends up exactly as
    /// [`Gauge::spec_render_cell`] says; no other cell changes.
    #[verifier::loop_isolation(false)]
    #[verifier::rlimit(60)]
    pub fn render(self, area: Rect, buf: &mut Buffer)
        requires
            old(buf).wf(),
            area.within(old(buf).spec_area()),
        ensures
            final (buf).wf(),
            final (buf).spec_area() == old(buf).spec_area(),
            forall|x: int, y: int|
                old(buf).spec_area().contains(x, y) ==> #[trigger] final (buf).cell_at(x, y) == (
                if area.contains(x, y) {
                    self.spec_render_cell(area, old(buf).cell_at(x, y), x, y)
                } else {
                    old(buf).cell_at(x, y)
                }),
    {
        buf.set_style(area, self.style);
        buf.set_style(area, self.gauge_style);
        let ghost washed: Buffer = *buf;
        if area.height == 0 {
            return ;
        }
        let synth: Vec<char> = percent_label(&self.ratio);
        let synth_span = Span { content: synth, style: Style::new() };
        let label_ref: &Span = match &self.label {
            Some(s) => s,
            None => &synth_span,
        };
        assert(label_ref.content@ == self.spec_label_chars());
        assert(label_ref.style == self.spec_label_style());
        let lw: u16 = if label_ref.content.len() >= area.width as usize {
            area.width
        } else {
            label_ref.content.len() as u16
        };
        assert(lw as int == self.spec_label_width(area));
        let lcol: u16 = area.x + (area.width - lw) / 2;
        let lrow: u16 = area.y + area.height / 2;
        assert(lcol as int == self.spec_label_col(area));
        assert(lrow as int == self.spec_label_row(area));
        assert(lcol + lw <= area.right());
        proof {
            use_type_invariant(&self.ratio);
        }
        let num = self.ratio.num();
        let den = self.ratio.den();
        proof {
            vstd::arithmetic::mul::lemma_mul_upper_bound(
                area.width as int,
                0xFFFF,
                num as int,
                0xFFFF_FFFF,
            );
            vstd::arithmetic::mul::lemma_mul_inequality(num as int, den as int, area.width as int);
        }
        let ftd: u64 = (area.width as u64) * (num as u64);
        let end_off: u64 = if self.use_unicode {
            proof {
                lemma_div_le(ftd as int, den as int, area.width as int);
            }
            ftd / (den as u64)
        } else {
            proof {
                assert(2 * (ftd as int) + den <= (area.width as int) * (2 * (den as int)) + (2 * (
                den as int) - 1)) by (nonlinear_arith)
                    requires
                        ftd == (area.width as u64) * (num as u64),
                        num <= den,
                        1 <= den,
                ;
                lemma_div_le(2 * (ftd as int) + den, 2 * (den as int), area.width as int);
            }
            (2 * ftd + (den as u64)) / (2 * (den as u64))
        };
        assert(end_off <= area.width);
        let end: u16 = area.x + (end_off as u16);
        assert(end as int == self.spec_fill_end(area));
        proof {
            vstd::arithmetic::div_mod::lemma_mod_division_less_than_divisor(
                ftd as int,
                den as int,
            );
        }
        let rem: u64 = ftd % (den as u64);
        proof {
            lemma_div_le(16 * (rem as int) + den, 2 * (den as int), 8);
        }
        let frac_idx: u64 = (16 * rem + (den as u64)) / (2 * (den as u64));
        let frac_glyph: char = unicode_block(frac_idx);
        assert(frac_glyph == Gauge::spec_frac_glyph(self.spec_frac_index(area)));
        let fill_fg = match self.gauge_style.fg {
            Some(c) => c,
            None => Color::Reset,
        };
        let fill_bg = match self.gauge_style.bg {
            Some(c) => c,
            None => Color::Reset,
        };
        let mut y: u16 = area.y;
        while y < area.y + area.height
            invariant
                area.y <= y <= area.bottom(),
                buf.wf(),
                buf.spec_area() == old(buf).spec_area(),
                forall|cx: int, cy: int|
                    old(buf).spec_area().contains(cx, cy) ==> #[trigger] buf.cell_at(cx, cy) == (
                    if area.contains(cx, cy) && cy < y {
                        self.spec_frac_pass(area, self.spec_fill_pass(area, washed.cell_at(cx, cy),
                            cx, cy), cx, cy)
                    } else {
                        washed.cell_at(cx, cy)
                    }),
            decreases area.bottom() - y,
        {
            let mut x: u16 = area.x;
            while x < end
                invariant
                    area.y <= y < area.bottom(),
                    area.x <= x <= end,
                    buf.wf(),
                    buf.spec_area() == old(buf).spec_area(),
                    forall|cx: int, cy: int|
                        old(buf).spec_area().contains(cx, cy) ==> #[trigger] buf.cell_at(cx, cy)
                            == (if area.contains(cx, cy) && cy < y {
                            self.spec_frac_pass(area, self.spec_fill_pass(area, washed.cell_at(cx,
                                cy), cx, cy), cx, cy)
                        } else if area.contains(cx, cy) && cy == y && cx < x {
                            self.spec_fill_pass(area, washed.cell_at(cx, cy), cx, cy)
                        } else {
                            washed.cell_at(cx, cy)
                        }),
                decreases end - x,
            {
                let c = buf.get(x, y);
                if x < lcol || x > lcol + lw || y != lrow {
                    buf.set_cell(x, y, Cell { symbol: symbols::FULL, fg: fill_fg, bg: fill_bg, ..c });
                } else {
                    buf.set_cell(x, y, Cell { symbol: ' ', fg: fill_bg, bg: fill_fg, ..c });
                }
                x = x + 1;
            }
            if self.use_unicode && num < den && end < area.x + area.width {
                buf.set_symbol_at(end, y, frac_glyph);
            }
            proof {
                assert forall|cx: int, cy: int|
                    old(buf).spec_area().contains(cx, cy) implies #[trigger] buf.cell_at(cx, cy)
                    == (if area.contains(cx, cy) && cy < y + 1 {
                    self.spec_frac_pass(area, self.spec_fill_pass(area, washed.cell_at(cx, cy), cx,
                        cy), cx, cy)
                } else {
                    washed.cell_at(cx, cy)
                }) by {}
            }
            y = y + 1;
        }
        let end_col = buf.set_span(lcol, lrow, label_ref, lw);
        assert(end_col == lcol + lw);
    }
}

/// Shorthands: mechanical sugar that merges a fixed change into the widget
/// style.
impl Gauge {
    pub fn black(self) -> (g: Gauge)
        ensures
            g == (Gauge { style: self.style.spec_fg(Color::Black), ..self }),
    {
        let style = self.style.fg(Color::Black);
        self.style(style)
    }

    pub fn on_white(self) -> (g: Gauge)
        ensures
            g == (Gauge { style: self.style.spec_bg(Color::White), ..self }),
    {
        let style = self.style.bg(Color::White);
        self.style(style)
    }

    pub fn bold(self) -> (g: Gauge)
        ensures
            g == (Gauge {
                style: self.style.spec_add_modifier(crate::style::Modifier { bits: 0x0001 }),
                ..self
            }),
    {
        let style = self.style.add_modifier(crate::style::Modifier::bold());
        self.style(style)
    }

    pub fn not_dim(self) -> (g: Gauge)
        ensures
            g == (Gauge {
                style: self.style.spec_remove_modifier(crate::style::Modifier { bits: 0x0002 }),
                ..self
            }),
    {
        let style = self.style.remove_modifier(crate::style::Modifier::dim());
        self.style(style)
    }
}

/// A fraction of zero fills no column: the boundary sits at the left edge,
/// whether or not sub-cell precision is on.
pub proof fn lemma_fill_end_empty(g: Gauge, area: Rect)
    requires
        g.ratio.spec_num() == 0,
        g.ratio.wf(),
    ensures
        g.spec_fill_end(area) == area.left(),
{
    let d = g.ratio.spec_den() as int;
    assert(area.width * g.ratio.spec_num() == 0);
    vstd::arithmetic::div_mod::lemma_div_pos_is_pos(0, d);
    lemma_div_le(0, d, 0);
    vstd::arithmetic::div_mod::lemma_div_pos_is_pos(d, 2 * d);
    lemma_div_le(d, 2 * d, 0);
}

/// A fraction of one fills every column: the boundary sits at the right
/// edge, whether or not sub-cell precision is on.
pub proof fn lemma_fill_end_full(g: Gauge, area: Rect)
    requires
        g.ratio.spec_num() == g.ratio.spec_den(),
        g.ratio.wf(),
    ensures
        g.spec_fill_end(area) == area.right(),
{
    let d = g.ratio.spec_den() as int;
    let w = area.width as int;
    vstd::arithmetic::div_mod::lemma_div_by_multiple(w, d);
    assert(w * d == d * w) by (nonlinear_arith);
    assert(2 * (w * d) + d == (2 * d) * w + d) by (nonlinear_arith);
    vstd::arithmetic::div_mod::lemma_div_multiples_vanish_fancy(w, d, 2 * d);
}

} // verus!
