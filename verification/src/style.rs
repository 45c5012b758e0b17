//! Styled text: colours, styles, spans, lines and multi-line text, as the
//! terminal front end draws them.

use vstd::prelude::*;

verus! {

/// The terminal colours the reader uses.
#[derive(Clone, Copy, Debug, PartialEq, Eq, Structural)]
pub enum Color {
    Black,
    Red,
    Green,
    Yellow,
    Blue,
    Cyan,
    Gray,
    DarkGray,
    White,
}

/// A text attribute that can be switched on in a [`Style`].
#[derive(Clone, Copy, Debug, PartialEq, Eq, Structural)]
pub enum Modifier {
    Bold,
    Italic,
    Underlined,
    CrossedOut,
}

/// Foreground / background colour and text attributes of a piece of text.
/// `None` colours inherit from the surrounding widget.
#[derive(Clone, Copy, Debug, PartialEq, Eq, Structural)]
pub struct Style {
    pub fg: Option<Color>,
    pub bg: Option<Color>,
    pub bold: bool,
    pub italic: bool,
    pub underlined: bool,
    pub crossed_out: bool,
}

/// The style that sets nothing.
pub open spec fn plain() -> Style {
    Style { fg: None, bg: None, bold: false, italic: false, underlined: false, crossed_out: false }
}

/// `s` with the foreground colour replaced by `c`.
pub open spec fn with_fg(s: Style, c: Color) -> Style {
    Style { fg: Some(c), ..s }
}

/// `s` with the background colour replaced by `c`.
pub open spec fn with_bg(s: Style, c: Color) -> Style {
    Style { bg: Some(c), ..s }
}

/// `s` with the attribute `m` switched on; every other field unchanged.
pub open spec fn with_modifier(s: Style, m: Modifier) -> Style {
    match m {
        Modifier::Bold => Style { bold: true, ..s },
        Modifier::Italic => Style { italic: true, ..s },
        Modifier::Underlined => Style { underlined: true, ..s },
        Modifier::CrossedOut => Style { crossed_out: true, ..s },
    }
}

impl Style {
    /// The style that sets nothing.
    pub fn new() -> (r: Style)
        ensures
            r == plain(),
    {
        Style { fg: None, bg: None, bold: false, italic: false, underlined: false, crossed_out: false }
    }

    /// Replaces the foreground colour.
    pub fn fg(self, c: Color) -> (r: Style)
        ensures
            r == with_fg(self, c),
    {
        Style { fg: Some(c), ..self }
    }

    /// Replaces the background colour.
    pub fn bg(self, c: Color) -> (r: Style)
        ensures
            r == with_bg(self, c),
    {
        Style { bg: Some(c), ..self }
    }

    /// Switches an attribute on.
    pub fn add_modifier(self, m: Modifier) -> (r: Style)
        ensures
            r == with_modifier(self, m),
    {
        match m {
            Modifier::Bold => Style { bold: true, ..self },
            Modifier::Italic => Style { italic: true, ..self },
            Modifier::Underlined => Style { underlined: true, ..self },
            Modifier::CrossedOut => Style { crossed_out: true, ..self },
        }
    }
}

impl Default for Style {
    fn default() -> (r: Style)
        ensures
            r == plain(),
    {
        Style::new()
    }
}

/// A run of text drawn in one style.
#[derive(Clone, Debug)]
pub struct Span {
    pub content: String,
    pub style: Style,
}

/// The mathematical value of a [`Span`].
#[verifier::ext_equal]
pub struct SpanView {
    pub content: Seq<char>,
    pub style: Style,
}

impl View for Span {
    type V = SpanView;

    open spec fn view(&self) -> SpanView {
        SpanView { content: self.content@, style: self.style }
    }
}

/// The span value with the given text and style.
pub open spec fn span_of(content: Seq<char>, style: Style) -> SpanView {
    SpanView { content, style }
}

impl Span {
    /// A copy of this span.
    pub fn clone_span(&self) -> (r: Span)
        ensures
            r@ == self@,
    {
        Span { content: self.content.clone(), style: self.style }
    }

    /// A span of `content` in `style`.
    pub fn styled(content: String, style: Style) -> (r: Span)
        ensures
            r@ == span_of(content@, style),
    {
        Span { content, style }
    }

    /// A span of `content` in the plain style.
    pub fn raw(content: String) -> (r: Span)
        ensures
            r@ == span_of(content@, plain()),
    {
        Span { content, style: Style::new() }
    }
}

/// One row of styled text.
#[derive(Clone, Debug)]
pub struct Line {
    pub spans: Vec<Span>,
}

/// The value of a list of spans.
pub open spec fn spans_view(spans: Seq<Span>) -> Seq<SpanView> {
    spans.map_values(|s: Span| s@)
}

impl View for Line {
    type V = Seq<SpanView>;

    open spec fn view(&self) -> Seq<SpanView> {
        spans_view(self.spans@)
    }
}

/// The value of a list of lines.
pub open spec fn lines_view(lines: Seq<Line>) -> Seq<Seq<SpanView>> {
    lines.map_values(|l: Line| l@)
}

impl Line {
    /// A copy of this line.
    pub fn clone_line(&self) -> (r: Line)
        ensures
            r@ == self@,
    {
        let mut spans: Vec<Span> = Vec::new();
        let mut i: usize = 0;
        while i < self.spans.len()
            invariant
                i <= self.spans.len(),
                spans_view(spans@) == spans_view(self.spans@.take(i as int)),
            decreases self.spans.len() - i,
        {
            let sp = self.spans[i].clone_span();
            let ghost prev = spans@;
            spans.push(sp);
            assert(spans_view(spans@) =~= spans_view(prev).push(sp@));
            assert(self.spans@.take(i + 1) =~= self.spans@.take(i as int).push(self.spans@[i as int]));
            assert(spans_view(spans@) =~= spans_view(self.spans@.take(i + 1)));
            i = i + 1;
        }
        assert(self.spans@.take(self.spans.len() as int) =~= self.spans@);
        Line { spans }
    }

    /// A line holding the given spans.
    pub fn from_spans(spans: Vec<Span>) -> (r: Line)
        ensures
            r@ == spans_view(spans@),
    {
        Line { spans }
    }

    /// The line holding no spans (a blank row).
    pub fn blank() -> (r: Line)
        ensures
            r@ == Seq::<SpanView>::empty(),
    {
        let r = Line { spans: Vec::new() };
        assert(r@ =~= Seq::<SpanView>::empty());
        r
    }
}

/// Several rows of styled text.
#[derive(Clone, Debug)]
pub struct Text {
    pub lines: Vec<Line>,
}

impl View for Text {
    type V = Seq<Seq<SpanView>>;

    open spec fn view(&self) -> Seq<Seq<SpanView>> {
        lines_view(self.lines@)
    }
}

} // verus!
