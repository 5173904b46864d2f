use vstd::prelude::*;

verus! {

/// Width of the default bar, in characters.
pub const DEFAULT_WIDTH: usize = 50;

/// Glyph that marks segment boundaries on the default scale.
pub const DEFAULT_TICK: char = '|';

/// Glyph that fills the default scale between ticks.
pub const DEFAULT_BAR: char = '=';

/// Glyph that stands for one unit of progress on the default bar.
pub const DEFAULT_INDICATOR: char = '#';

/// How a progress bar looks: its width, whether a row of `XX%` labels is
/// drawn above the scale, and its three glyphs.
///
/// Every combination of values is accepted; a zero width or repeated
/// glyphs only make the output smaller or less readable.
#[derive(Clone, Copy, Debug, PartialEq, Eq, Structural, PartialOrd, Ord, Hash)]
pub struct Style {
    pub width: usize,
    pub labels: bool,
    pub tick: char,
    pub bar: char,
    pub indicator: char,
}

impl Style {
    /// The default style: 50 characters wide, with labels, ticks `|`,
    /// bar `=` and indicator `#`.
    pub open spec fn spec_default() -> Style {
        Style {
            width: DEFAULT_WIDTH,
            labels: true,
            tick: DEFAULT_TICK,
            bar: DEFAULT_BAR,
            indicator: DEFAULT_INDICATOR,
        }
    }

    /// The default style.
    pub fn new() -> (r: Style)
        ensures
            r == Style::spec_default(),
    {
        Style::default()
    }

    /// The same style with a bar `width` characters wide.
    pub fn width(self, width: usize) -> (r: Style)
        ensures
            r == (Style { width, ..self }),
    {
        Style { width, ..self }
    }

    /// The same style with the row of `XX%` labels switched on or off.
    pub fn labels(self, labels: bool) -> (r: Style)
        ensures
            r == (Style { labels, ..self }),
    {
        Style { labels, ..self }
    }

    /// The same style with `tick` as the glyph between segments.
    pub fn tick(self, tick: char) -> (r: Style)
        ensures
            r == (Style { tick, ..self }),
    {
        Style { tick, ..self }
    }

    /// The same style with `bar` as the glyph that fills the segments.
    pub fn bar(self, bar: char) -> (r: Style)
        ensures
            r == (Style { bar, ..self }),
    {
        Style { bar, ..self }
    }

    /// The same style with `indicator` as the glyph for one unit of progress.
    pub fn indicator(self, indicator: char) -> (r: Style)
        ensures
            r == (Style { indicator, ..self }),
    {
        Style { indicator, ..self }
    }
}

impl Default for Style {
    /// The default style.
    fn default() -> (r: Style)
        ensures
            r == Style::spec_default(),
    {
        Style {
            width: DEFAULT_WIDTH,
            labels: true,
            tick: DEFAULT_TICK,
            bar: DEFAULT_BAR,
            indicator: DEFAULT_INDICATOR,
        }
    }
}

} // verus!
