//! The thin one-row progress bar.

use vstd::prelude::*;

use crate::buffer::Buffer;
use crate::buffer::Cell;
use crate::buffer::spec_drawn;
use crate::gauge::percent_label;
use crate::gauge::spec_percent_label;
use crate::layout::Rect;
use crate::ratio::Ratio;
use crate::ratio::lemma_div_le;
use crate::style::Style;
use crate::symbols::LineSet;
use crate::text::Span;

verus! {

/// A thin progress bar drawn over a single row: a left-aligned label
/// followed by a line whose filled part is drawn in the bar's foreground and
/// whose empty track reuses the same glyph in the bar's background color.
///
/// Built with chained setters and rendered once into a rectangle of a
/// [`Buffer`]. Any decorative border is the host's business: the caller draws
/// it itself and hands [`LineGauge::render`] the remaining working rectangle.
#[derive(Debug, Clone, PartialEq)]
pub struct LineGauge {
    pub ratio: Ratio,
    pub label: Option<Span>,
    pub line_set: LineSet,
    pub style: Style,
    pub gauge_style: Style,
}

impl Default for LineGauge {
    /// An empty bar: fraction zero, no explicit label, the plain line set,
    /// neutral styles.
    fn default() -> (g: LineGauge)
        ensures
            g.ratio.spec_num() == 0,
            g.ratio.spec_den() == 1,
            g.label is None,
            g.line_set == (LineSet { horizontal: crate::symbols::LINE_HORIZONTAL }),
            g.style == Style::spec_new(),
            g.gauge_style == Style::spec_new(),
    {
        LineGauge {
            ratio: Ratio::zero(),
            label: None,
            line_set: LineSet::normal(),
            style: Style::new(),
            gauge_style: Style::new(),
        }
    }
}

impl LineGauge {
    /// Sets the bar progression from a fill fraction.
    pub fn ratio(self, ratio: Ratio) -> (g: LineGauge)
        ensures
            g == (LineGauge { ratio, ..self }),
    {
        LineGauge { ratio, ..self }
    }

    /// Sets the glyph set the line is drawn with.
    pub fn line_set(self, set: LineSet) -> (g: LineGauge)
        ensures
            g == (LineGauge { line_set: set, ..self }),
    {
        LineGauge { line_set: set, ..self }
    }

    /// Sets the label drawn at the left edge; without one, the rounded
    /// percentage is shown.
    pub fn label(self, label: Span) -> (g: LineGauge)
        ensures
            g == (LineGauge { label: Some(label), ..self }),
    {
        LineGauge { label: Some(label), ..self }
    }

    /// Sets the widget style: the wash applied to the whole area.
    pub fn style(self, style: Style) -> (g: LineGauge)
        ensures
            g == (LineGauge { style, ..self }),
    {
        LineGauge { style, ..self }
    }

    /// Sets the style of the bar itself.
    pub fn gauge_style(self, style: Style) -> (g: LineGauge)
        ensures
            g == (LineGauge { gauge_style: style, ..self }),
    {
        LineGauge { gauge_style: style, ..self }
    }

    /// The label text: the explicit label, or the rounded percentage.
    pub open spec fn spec_label_chars(self) -> Seq<char> {
        match self.label {
            Some(s) => s.content@,
            None => spec_percent_label(self.ratio.spec_rounded_percent()),
        }
    }

    /// The style the label is drawn with.
    pub open spec fn spec_label_style(self) -> Style {
        match self.label {
            Some(s) => s.style,
            None => Style::spec_new(),
        }
    }

    /// The label width clamped to the area.
    pub open spec fn spec_label_len(self, area: Rect) -> int {
        if self.spec_label_chars().len() <= area.width {
            self.spec_label_chars().len() as int
        } else {
            area.width as int
        }
    }

    /// The first column of the bar: one column after the label.
    pub open spec fn spec_bar_start(self, area: Rect) -> int {
        area.left() + self.spec_label_len(area) + 1
    }

    /// One past the last filled column: the remaining width scaled by the
    /// fraction, rounded down.
    pub open spec fn spec_bar_end(self, area: Rect) -> int {
        self.spec_bar_start(area) + (area.right() - self.spec_bar_start(area))
            * self.ratio.spec_num() / (self.ratio.spec_den() as int)
    }

    /// The style of a filled line cell: the bar's foreground, background left
    /// to the underlying wash.
    pub open spec fn spec_filled_style(self) -> Style {
        Style {
            fg: self.gauge_style.fg,
            bg: None,
            underline_color: self.gauge_style.underline_color,
            add_modifier: self.gauge_style.add_modifier,
            sub_modifier: self.gauge_style.sub_modifier,
        }
    }

    /// The style of an empty track cell: the same glyph drawn with the bar's
    /// background as its color, so the track reads dimmer.
    pub open spec fn spec_unfilled_style(self) -> Style {
        Style {
            fg: self.gauge_style.bg,
            bg: None,
            underline_color: self.gauge_style.underline_color,
            add_modifier: self.gauge_style.add_modifier,
            sub_modifier: self.gauge_style.sub_modifier,
        }
    }

    /// What rendering into `area` leaves in the cell at `(x, y)` whose prior
    /// content was `c0`: the wash always runs; in a degenerate area of zero
    /// rows nothing else is written; otherwise the label is drawn at the top
    /// left, and, if a column remains after it, the line, filled up to the
    /// boundary and continued as an empty track to the right edge.
    pub open spec fn spec_render_cell(self, area: Rect, c0: Cell, x: int, y: int) -> Cell {
        let washed = c0.spec_set_style(self.style);
        if area.height == 0 {
            washed
        } else {
            let labeled = if y == area.top() && area.left() <= x < area.left()
                + self.spec_label_len(area) {
                spec_drawn(washed, self.spec_label_chars()[x - area.left()],
                    self.spec_label_style())
            } else {
                washed
            };
            let start = self.spec_bar_start(area);
            if start >= area.right() {
                labeled
            } else if y == area.top() && start <= x < self.spec_bar_end(area) {
                spec_drawn(labeled, self.line_set.horizontal, self.spec_filled_style())
            } else if y == area.top() && self.spec_bar_end(area) <= x < area.right() {
                spec_drawn(labeled, self.line_set.horizontal, self.spec_unfilled_style())
            } else {
                labeled
            }
        }
    }

    /// Renders the bar into `area` of `buf`: washes the area with the widget
    /// style and, unless the area has zero rows, draws the label and then the
    /// line, stopping early when no column remains after the label. Every
    /// cell of `area` ends up exactly as [`LineGauge::spec_render_cell`]
    /// says; no other cell changes.
    #[verifier::loop_isolation(false)]
    #[verifier::rlimit(60)]
    pub fn render(self, area: Rect, buf: &mut Buffer)
        requires
            old(buf).wf(),
            area.within(old(buf).spec_area()),
        ensures
            final (buf).wf(),
            final (buf).spec_area() == old(buf).spec_area(),
            forall|x: int, y: int|
                old(buf).spec_area().contains(x, y) ==> #[trigger] final (buf).cell_at(x, y) == (
                if area.contains(x, y) {
                    self.spec_render_cell(area, old(buf).cell_at(x, y), x, y)
                } else {
                    old(buf).cell_at(x, y)
                }),
    {
        buf.set_style(area, self.style);
        let ghost washed: Buffer = *buf;
        if area.height == 0 {
            return ;
        }
        let synth: Vec<char> = percent_label(&self.ratio);
        let synth_span = Span { content: synth, style: Style::new() };
        let label_ref: &Span = match &self.label {
            Some(s) => s,
            None => &synth_span,
        };
        assert(label_ref.content@ == self.spec_label_chars());
        assert(label_ref.style == self.spec_label_style());
        let row: u16 = area.y;
        let col = buf.set_span(area.x, row, label_ref, area.width);
        assert(col as int == area.left() + self.spec_label_len(area));
        let ghost labeled: Buffer = *buf;
        let right: u16 = area.x + area.width;
        if col >= right || col + 1 >= right {
            return ;
        }
        let start: u16 = col + 1;
        assert(start as int == self.spec_bar_start(area));
        proof {
            use_type_invariant(&self.ratio);
        }
        let num = self.ratio.num();
        let den = self.ratio.den();
        let span_w: u16 = right - start;
        proof {
            vstd::arithmetic::mul::lemma_mul_upper_bound(
                span_w as int,
                0xFFFF,
                num as int,
                0xFFFF_FFFF,
            );
            vstd::arithmetic::mul::lemma_mul_inequality(num as int, den as int, span_w as int);
            lemma_div_le((span_w as int) * (num as int), den as int, span_w as int);
        }
        let scaled: u64 = (span_w as u64) * (num as u64);
        let off: u64 = scaled / (den as u64);
        let end: u16 = start + (off as u16);
        assert(end as int == self.spec_bar_end(area));
        let filled_style = Style {
            fg: self.gauge_style.fg,
            bg: None,
            underline_color: self.gauge_style.underline_color,
            add_modifier: self.gauge_style.add_modifier,
            sub_modifier: self.gauge_style.sub_modifier,
        };
        let unfilled_style = Style {
            fg: self.gauge_style.bg,
            bg: None,
            underline_color: self.gauge_style.underline_color,
            add_modifier: self.gauge_style.add_modifier,
            sub_modifier: self.gauge_style.sub_modifier,
        };
        let mut x: u16 = start;
        while x < end
            invariant
                start <= x <= end,
                buf.wf(),
                buf.spec_area() == old(buf).spec_area(),
                forall|cx: int, cy: int|
                    old(buf).spec_area().contains(cx, cy) ==> #[trigger] buf.cell_at(cx, cy) == (
                    if cy == row && start <= cx < x {
                        spec_drawn(labeled.cell_at(cx, cy), self.line_set.horizontal,
                            self.spec_filled_style())
                    } else {
                        labeled.cell_at(cx, cy)
                    }),
            decreases end - x,
        {
            let c = buf.get(x, row);
            buf.set_cell(x, row, Cell { symbol: self.line_set.horizontal, ..c.with_style(
                filled_style,
            ) });
            x = x + 1;
        }
        let mut t: u16 = end;
        while t < right
            invariant
                end <= t <= right,
                buf.wf(),
                buf.spec_area() == old(buf).spec_area(),
                forall|cx: int, cy: int|
                    old(buf).spec_area().contains(cx, cy) ==> #[trigger] buf.cell_at(cx, cy) == (
                    if cy == row && start <= cx < end {
                        spec_drawn(labeled.cell_at(cx, cy), self.line_set.horizontal,
                            self.spec_filled_style())
                    } else if cy == row && end <= cx < t {
                        spec_drawn(labeled.cell_at(cx, cy), self.line_set.horizontal,
                            self.spec_unfilled_style())
                    } else {
                        labeled.cell_at(cx, cy)
                    }),
            decreases right - t,
        {
            let c = buf.get(t, row);
            buf.set_cell(t, row, Cell { symbol: self.line_set.horizontal, ..c.with_style(
                unfilled_style,
            ) });
            t = t + 1;
        }
    }
}

/// Shorthands: mechanical sugar that merges a fixed change into the widget
/// style.
impl LineGauge {
    pub fn black(self) -> (g: LineGauge)
        ensures
            g == (LineGauge { style: self.style.spec_fg(crate::style::Color::Black), ..self }),
    {
        let style = self.style.fg(crate::style::Color::Black);
        self.style(style)
    }

    pub fn on_white(self) -> (g: LineGauge)
        ensures
            g == (LineGauge { style: self.style.spec_bg(crate::style::Color::White), ..self }),
    {
        let style = self.style.bg(crate::style::Color::White);
        self.style(style)
    }

    pub fn bold(self) -> (g: LineGauge)
        ensures
            g == (LineGauge {
                style: self.style.spec_add_modifier(crate::style::Modifier { bits: 0x0001 }),
                ..self
            }),
    {
        let style = self.style.add_modifier(crate::style::Modifier::bold());
        self.style(style)
    }

    pub fn not_dim(self) -> (g: LineGauge)
        ensures
            g == (LineGauge {
                style: self.style.spec_remove_modifier(crate::style::Modifier { bits: 0x0002 }),
                ..self
            }),
    {
        let style = self.style.remove_modifier(crate::style::Modifier::dim());
        self.style(style)
    }
}

} // verus!
