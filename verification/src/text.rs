//! Styled runs of text: what a gauge label is made of.

use vstd::prelude::*;

use crate::style::Style;

verus! {

/// A run of single-width characters drawn with one style. Its width in
/// columns is the number of characters.
#[derive(Debug, Clone, PartialEq, Eq, Hash)]
pub struct Span {
    pub content: Vec<char>,
    pub style: Style,
}

impl Span {
    /// A span of unstyled text: drawing it changes no colors or modifiers.
    pub fn raw(content: Vec<char>) -> (s: Span)
        ensures
            s.content@ == content@,
            s.style == Style::spec_new(),
    {
        Span { content, style: Style::new() }
    }

    /// A span of text drawn with the given style.
    pub fn styled(content: Vec<char>, style: Style) -> (s: Span)
        ensures
            s.content@ == content@,
            s.style == style,
    {
        Span { content, style }
    }

    /// The width of the span in columns.
    pub fn width(&self) -> (w: usize)
        ensures
            w == self.content@.len(),
    {
        self.content.len()
    }
}

} // verus!
