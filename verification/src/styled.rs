//! A plain model of styled terminal text: colors, modifiers, spans and lines.

use vstd::prelude::*;

verus! {

/// Foreground colors used by the interface.
#[derive(Debug, Clone, Copy, PartialEq, Eq, Structural)]
pub enum Color {
    White,
    Gray,
    DarkGray,
    Red,
    Green,
    Yellow,
    Blue,
    Magenta,
    Cyan,
}

/// Text modifiers added on top of the terminal's default rendition.
#[derive(Debug, Clone, Copy, PartialEq, Eq, Structural)]
pub struct Modifier {
    pub bold: bool,
    pub italic: bool,
    pub underlined: bool,
    pub crossed_out: bool,
}

/// The style of a span: an optional foreground color and added modifiers.
#[derive(Debug, Clone, Copy, PartialEq, Eq, Structural)]
pub struct Style {
    pub fg: Option<Color>,
    pub add_modifier: Modifier,
}

/// The style with no color and no modifier.
pub open spec fn plain() -> Style {
    Style {
        fg: None,
        add_modifier: Modifier { bold: false, italic: false, underlined: false, crossed_out: false },
    }
}

/// A style with only a foreground color.
pub open spec fn colored(c: Color) -> Style {
    Style { fg: Some(c), ..plain() }
}

impl Style {
    /// The default style: no color, no modifier.
    pub fn new() -> (r: Style)
        ensures
            r == plain(),
    {
        Style {
            fg: None,
            add_modifier: Modifier {
                bold: false,
                italic: false,
                underlined: false,
                crossed_out: false,
            },
        }
    }

    /// The style with only the given foreground color.
    pub fn color(c: Color) -> (r: Style)
        ensures
            r == colored(c),
    {
        Style { fg: Some(c), ..Style::new() }
    }

    /// This style with its foreground color replaced.
    pub fn fg(self, c: Color) -> (r: Style)
        ensures
            r == (Style { fg: Some(c), ..self }),
    {
        Style { fg: Some(c), ..self }
    }

    /// This style with bold added.
    pub fn bold(self) -> (r: Style)
        ensures
            r == (Style { add_modifier: Modifier { bold: true, ..self.add_modifier }, ..self }),
    {
        Style { add_modifier: Modifier { bold: true, ..self.add_modifier }, ..self }
    }

    /// This style with italic added.
    pub fn italic(self) -> (r: Style)
        ensures
            r == (Style { add_modifier: Modifier { italic: true, ..self.add_modifier }, ..self }),
    {
        Style { add_modifier: Modifier { italic: true, ..self.add_modifier }, ..self }
    }

    /// This style with underline added.
    pub fn underlined(self) -> (r: Style)
        ensures
            r == (Style {
                add_modifier: Modifier { underlined: true, ..self.add_modifier },
                ..self
            }),
    {
        Style { add_modifier: Modifier { underlined: true, ..self.add_modifier }, ..self }
    }

    /// This style with strike-through added.
    pub fn crossed_out(self) -> (r: Style)
        ensures
            r == (Style {
                add_modifier: Modifier { crossed_out: true, ..self.add_modifier },
                ..self
            }),
    {
        Style { add_modifier: Modifier { crossed_out: true, ..self.add_modifier }, ..self }
    }
}

/// A run of text in one style.
#[derive(Debug)]
pub struct Span {
    pub content: String,
    pub style: Style,
}

/// What a span shows: its characters and its style.
pub type SpanView = (Seq<char>, Style);

impl View for Span {
    type V = SpanView;

    open spec fn view(&self) -> SpanView {
        (self.content@, self.style)
    }
}

impl Clone for Span {
    fn clone(&self) -> (r: Self)
        ensures
            r == *self,
    {
        Span { content: self.content.clone(), style: self.style }
    }
}

impl Span {
    /// A span with the given text and style.
    pub fn styled(content: String, style: Style) -> (r: Span)
        ensures
            r@ == (content@, style),
    {
        Span { content, style }
    }

    /// A span of the given literal text and style.
    pub fn styled_str(content: &str, style: Style) -> (r: Span)
        ensures
            r@ == (content@, style),
    {
        Span { content: crate::text::owned(content), style }
    }

    /// An unstyled span of the given literal text.
    pub fn raw(content: &str) -> (r: Span)
        ensures
            r@ == (content@, plain()),
    {
        Span { content: crate::text::owned(content), style: Style::new() }
    }
}

/// One line of styled text.
#[derive(Debug)]
pub struct Line {
    pub spans: Vec<Span>,
}

/// What a line shows: its spans in order.
pub type LineView = Seq<SpanView>;

/// The views of a sequence of spans.
pub open spec fn span_views(s: Seq<Span>) -> Seq<SpanView> {
    s.map_values(|x: Span| x@)
}

/// The views of a sequence of lines.
pub open spec fn line_views(s: Seq<Line>) -> Seq<LineView> {
    s.map_values(|x: Line| x@)
}

impl View for Line {
    type V = LineView;

    open spec fn view(&self) -> LineView {
        span_views(self.spans@)
    }
}

impl Line {
    /// The line made of the given spans.
    pub fn from_spans(spans: Vec<Span>) -> (r: Line)
        ensures
            r.spans == spans,
    {
        Line { spans }
    }

    /// A line without spans.
    pub fn empty() -> (r: Line)
        ensures
            r@ == Seq::<SpanView>::empty(),
    {
        let r = Line { spans: Vec::new() };
        assert(r@ =~= Seq::<SpanView>::empty());
        r
    }

    /// A line made of a single span.
    pub fn single(span: Span) -> (r: Line)
        ensures
            r@ == seq![span@],
    {
        let mut spans = Vec::new();
        spans.push(span);
        let r = Line { spans };
        assert(r@ =~= seq![span@]);
        r
    }
}

} // verus!
