//! The glyphs the gauge renderers draw with.

use vstd::prelude::*;

verus! {

/// A full block: the body of the filled part of a gauge.
pub const FULL: char = '█';

/// Seven eighths of a block.
pub const SEVEN_EIGHTHS: char = '▉';

/// Three quarters of a block.
pub const THREE_QUARTERS: char = '▊';

/// Five eighths of a block.
pub const FIVE_EIGHTHS: char = '▋';

/// Half of a block.
pub const HALF: char = '▌';

/// Three eighths of a block.
pub const THREE_EIGHTHS: char = '▍';

/// One quarter of a block.
pub const ONE_QUARTER: char = '▎';

/// One eighth of a block.
pub const ONE_EIGHTH: char = '▏';

/// The horizontal segment of a plain line.
pub const LINE_HORIZONTAL: char = '─';

/// The horizontal segment of a double line.
pub const DOUBLE_LINE_HORIZONTAL: char = '═';

/// The horizontal segment of a thick line.
pub const THICK_LINE_HORIZONTAL: char = '━';

/// The glyph set a [`crate::line_gauge::LineGauge`] draws its line with; each
/// set supplies the horizontal-segment glyph.
#[derive(Debug, Clone, Copy, PartialEq, Eq, Hash)]
pub struct LineSet {
    pub horizontal: char,
}

impl LineSet {
    /// The plain single-line set.
    pub fn normal() -> (r: LineSet)
        ensures
            r.horizontal == LINE_HORIZONTAL,
    {
        LineSet { horizontal: LINE_HORIZONTAL }
    }

    /// The double-line set.
    pub fn double() -> (r: LineSet)
        ensures
            r.horizontal == DOUBLE_LINE_HORIZONTAL,
    {
        LineSet { horizontal: DOUBLE_LINE_HORIZONTAL }
    }

    /// The thick-line set.
    pub fn thick() -> (r: LineSet)
        ensures
            r.horizontal == THICK_LINE_HORIZONTAL,
    {
        LineSet { horizontal: THICK_LINE_HORIZONTAL }
    }
}

impl Default for LineSet {
    /// The plain single-line set.
    fn default() -> (r: LineSet)
        ensures
            r.horizontal == LINE_HORIZONTAL,
    {
        LineSet::normal()
    }
}

} // verus!
