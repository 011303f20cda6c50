//! Styling and proportional-rendering core for a terminal user interface.
//!
//! Two components compose through a shared [`style::Style`] type:
//!
//! - the style model: an immutable attribute set with an incremental merge
//!   ([`style::Style::patch`]) and a bit-set of emphasis modifiers with
//!   explicit add/remove semantics;
//! - the gauge renderers: a block-filling progress bar ([`gauge::Gauge`]) and
//!   a thin one-row variant ([`line_gauge::LineGauge`]) that map a fill
//!   fraction onto a discrete grid of character cells.
//!
//! The renderers write into a [`buffer::Buffer`], a rectangular grid of
//! [`buffer::Cell`]s; the fill fraction is an exact rational
//! ([`ratio::Ratio`]), so every boundary computation is integer arithmetic.

pub mod buffer;
pub mod gauge;
pub mod layout;
pub mod line_gauge;
pub mod ratio;
pub mod style;
pub mod symbols;
pub mod text;
