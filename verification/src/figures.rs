//! The glyphs that prompts are drawn with.

use vstd::prelude::*;

verus! {

/// The table that figures are taken from. A prompt is given one when it is
/// made and draws every frame with it.
#[derive(Debug, Clone, Copy, PartialEq, Eq)]
pub enum FigureSet {
    /// The default table, for terminals with full Unicode coverage.
    Standard,
    /// The reduced table, for consoles whose fonts lack the symbols of the
    /// default one.
    Legacy,
}

impl Default for FigureSet {
    fn default() -> (set: FigureSet)
        ensures
            set == FigureSet::Standard,
    {
        FigureSet::Standard
    }
}

/// Figures that are used for the prompts
#[derive(Debug, Clone, Copy, PartialEq, Eq)]
pub enum Figures {
    ArrowUp,
    ArrowDown,
    ArrowLeft,
    ArrowRight,
    RadioOn,
    RadioOff,
    Tick,
    Cross,
    Ellipsis,
    PointerSmall,
    Line,
    Pointer,
}

impl Figures {
    /// The characters of the figure in the default table, the one for
    /// terminals with full Unicode coverage.
    pub open spec fn glyph(self) -> Seq<char> {
        match self {
            Figures::ArrowUp => "↑"@,
            Figures::ArrowDown => "↓"@,
            Figures::ArrowLeft => "←"@,
            Figures::ArrowRight => "→"@,
            Figures::RadioOn => "◉"@,
            Figures::RadioOff => "◯"@,
            Figures::Tick => "✔"@,
            Figures::Cross => "✖"@,
            Figures::Ellipsis => "…"@,
            Figures::PointerSmall => "›"@,
            Figures::Line => "─"@,
            Figures::Pointer => "❯"@,
        }
    }

    /// The characters of the figure in the reduced table, for consoles whose
    /// fonts lack the symbols of the default one.
    pub open spec fn legacy_glyph(self) -> Seq<char> {
        match self {
            Figures::ArrowUp => "↑"@,
            Figures::ArrowDown => "↓"@,
            Figures::ArrowLeft => "←"@,
            Figures::ArrowRight => "→"@,
            Figures::RadioOn => "(*)"@,
            Figures::RadioOff => "( )"@,
            Figures::Tick => "√"@,
            Figures::Cross => "×"@,
            Figures::Ellipsis => "..."@,
            Figures::PointerSmall => "»"@,
            Figures::Line => "─"@,
            Figures::Pointer => ">"@,
        }
    }

    /// The characters of the figure in the given table.
    pub open spec fn glyph_in(self, set: FigureSet) -> Seq<char> {
        match set {
            FigureSet::Standard => self.glyph(),
            FigureSet::Legacy => self.legacy_glyph(),
        }
    }

    /// The figure as text, from the given table.
    pub fn as_str_in(&self, set: FigureSet) -> (s: &'static str)
        ensures
            s@ == self.glyph_in(set),
    {
        match set {
            FigureSet::Standard => self.as_str(),
            FigureSet::Legacy => self.as_legacy_str(),
        }
    }

    /// The figure as text, from the default table.
    pub fn as_str(&self) -> (s: &'static str)
        ensures
            s@ == self.glyph(),
    {
        match self {
            Figures::ArrowUp => "↑",
            Figures::ArrowDown => "↓",
            Figures::ArrowLeft => "←",
            Figures::ArrowRight => "→",
            Figures::RadioOn => "◉",
            Figures::RadioOff => "◯",
            Figures::Tick => "✔",
            Figures::Cross => "✖",
            Figures::Ellipsis => "…",
            Figures::PointerSmall => "›",
            Figures::Line => "─",
            Figures::Pointer => "❯",
        }
    }

    /// The figure as text, from the reduced table.
    pub fn as_legacy_str(&self) -> (s: &'static str)
        ensures
            s@ == self.legacy_glyph(),
    {
        match self {
            Figures::ArrowUp => "↑",
            Figures::ArrowDown => "↓",
            Figures::ArrowLeft => "←",
            Figures::ArrowRight => "→",
            Figures::RadioOn => "(*)",
            Figures::RadioOff => "( )",
            Figures::Tick => "√",
            Figures::Cross => "×",
            Figures::Ellipsis => "...",
            Figures::PointerSmall => "»",
            Figures::Line => "─",
            Figures::Pointer => ">",
        }
    }
}

} // verus!
