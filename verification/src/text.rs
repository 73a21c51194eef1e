//! Styled text: what the renderer produces and a terminal draws.
//!
//! A [`Line`] is a row of [`Span`]s, each a piece of text with a [`Style`].
//! The types hold no terminal state; whoever draws them maps each style to
//! what the terminal offers.

use vstd::prelude::*;
use vstd::string::*;
use crate::views::{lemma_deep_push, lemma_take_next};

verus! {

/// The foreground colour of a piece of text.
#[derive(Copy, Clone, Debug, PartialEq, Eq, Structural)]
pub enum Color {
    /// The terminal's own colour.
    Default,
    Blue,
    Cyan,
    Green,
}

/// Where a line stands in the width it is given.
#[derive(Copy, Clone, Debug, PartialEq, Eq, Structural)]
pub enum Alignment {
    Left,
    Center,
    Right,
}

/// How a piece of text is drawn.
#[derive(Copy, Clone, Debug, PartialEq, Eq, Structural)]
pub struct Style {
    pub color: Color,
    pub bold: bool,
    pub italic: bool,
    pub underlined: bool,
    pub dim: bool,
}

impl Style {
    /// The style of unstyled text.
    pub open spec fn plain() -> Style {
        Style { color: Color::Default, bold: false, italic: false, underlined: false, dim: false }
    }

    /// This style, bold.
    pub open spec fn with_bold(self) -> Style {
        Style { bold: true, ..self }
    }

    /// This style, italic.
    pub open spec fn with_italic(self) -> Style {
        Style { italic: true, ..self }
    }

    /// This style, underlined.
    pub open spec fn with_underlined(self) -> Style {
        Style { underlined: true, ..self }
    }

    /// This style, dim.
    pub open spec fn with_dim(self) -> Style {
        Style { dim: true, ..self }
    }

    /// This style in another colour.
    pub open spec fn with_color(self, color: Color) -> Style {
        Style { color, ..self }
    }

    /// The style of unstyled text.
    pub fn new() -> (style: Style)
        ensures
            style == Style::plain(),
    {
        Style { color: Color::Default, bold: false, italic: false, underlined: false, dim: false }
    }
}

/// What a [`Span`] is, as a value of the specification.
pub struct SpanView {
    pub content: Seq<char>,
    pub style: Style,
}

/// A piece of text drawn in one style.
#[derive(Debug)]
pub struct Span {
    pub content: String,
    pub style: Style,
}

impl DeepView for Span {
    type V = SpanView;

    open spec fn deep_view(&self) -> SpanView {
        SpanView { content: self.content@, style: self.style }
    }
}

impl View for Span {
    type V = SpanView;

    open spec fn view(&self) -> SpanView {
        self.deep_view()
    }
}

impl SpanView {
    /// Unstyled text.
    pub open spec fn raw(content: Seq<char>) -> SpanView {
        SpanView { content, style: Style::plain() }
    }

    pub open spec fn bold(self) -> SpanView {
        SpanView { style: self.style.with_bold(), ..self }
    }

    pub open spec fn italic(self) -> SpanView {
        SpanView { style: self.style.with_italic(), ..self }
    }

    pub open spec fn underlined(self) -> SpanView {
        SpanView { style: self.style.with_underlined(), ..self }
    }

    pub open spec fn dim(self) -> SpanView {
        SpanView { style: self.style.with_dim(), ..self }
    }

    pub open spec fn blue(self) -> SpanView {
        SpanView { style: self.style.with_color(Color::Blue), ..self }
    }

    pub open spec fn cyan(self) -> SpanView {
        SpanView { style: self.style.with_color(Color::Cyan), ..self }
    }

    pub open spec fn green(self) -> SpanView {
        SpanView { style: self.style.with_color(Color::Green), ..self }
    }
}

impl Span {
    /// Unstyled text.
    pub fn raw(content: String) -> (span: Span)
        ensures
            span@ == SpanView::raw(content@),
    {
        Span { content, style: Style::new() }
    }

    /// Unstyled text, copied from a slice.
    pub fn from_str(content: &str) -> (span: Span)
        ensures
            span@ == SpanView::raw(content@),
    {
        Span { content: String::from_str(content), style: Style::new() }
    }

    /// The same text, bold.
    pub fn bold(self) -> (span: Span)
        ensures
            span@ == self@.bold(),
    {
        let Span { content, style } = self;
        Span { content, style: Style { bold: true, ..style } }
    }

    /// The same text, italic.
    pub fn italic(self) -> (span: Span)
        ensures
            span@ == self@.italic(),
    {
        let Span { content, style } = self;
        Span { content, style: Style { italic: true, ..style } }
    }

    /// The same text, underlined.
    pub fn underlined(self) -> (span: Span)
        ensures
            span@ == self@.underlined(),
    {
        let Span { content, style } = self;
        Span { content, style: Style { underlined: true, ..style } }
    }

    /// The same text, dim.
    pub fn dim(self) -> (span: Span)
        ensures
            span@ == self@.dim(),
    {
        let Span { content, style } = self;
        Span { content, style: Style { dim: true, ..style } }
    }

    /// The same text in blue.
    pub fn blue(self) -> (span: Span)
        ensures
            span@ == self@.blue(),
    {
        let Span { content, style } = self;
        Span { content, style: Style { color: Color::Blue, ..style } }
    }

    /// The same text in cyan.
    pub fn cyan(self) -> (span: Span)
        ensures
            span@ == self@.cyan(),
    {
        let Span { content, style } = self;
        Span { content, style: Style { color: Color::Cyan, ..style } }
    }

    /// The same text in green.
    pub fn green(self) -> (span: Span)
        ensures
            span@ == self@.green(),
    {
        let Span { content, style } = self;
        Span { content, style: Style { color: Color::Green, ..style } }
    }
}

/// What a [`Line`] is, as a value of the specification.
pub struct LineView {
    pub spans: Seq<SpanView>,
    pub style: Style,
    pub alignment: Alignment,
}

/// One row of text: spans side by side, a style that the spans are drawn
/// over, and an alignment.
#[derive(Debug)]
pub struct Line {
    pub spans: Vec<Span>,
    pub style: Style,
    pub alignment: Alignment,
}

impl DeepView for Line {
    type V = LineView;

    open spec fn deep_view(&self) -> LineView {
        LineView { spans: self.spans.deep_view(), style: self.style, alignment: self.alignment }
    }
}

impl View for Line {
    type V = LineView;

    open spec fn view(&self) -> LineView {
        self.deep_view()
    }
}

impl LineView {
    /// A left-aligned line of the given spans, with no style of its own.
    pub open spec fn of(spans: Seq<SpanView>) -> LineView {
        LineView { spans, style: Style::plain(), alignment: Alignment::Left }
    }

    pub open spec fn centered(self) -> LineView {
        LineView { alignment: Alignment::Center, ..self }
    }

    pub open spec fn right_aligned(self) -> LineView {
        LineView { alignment: Alignment::Right, ..self }
    }

    pub open spec fn cyan(self) -> LineView {
        LineView { style: self.style.with_color(Color::Cyan), ..self }
    }

    /// The characters of the line, styles dropped.
    pub open spec fn plain_text(self) -> Seq<char> {
        joined(self.spans)
    }
}

/// The contents of the spans, one after the other.
pub open spec fn joined(spans: Seq<SpanView>) -> Seq<char>
    decreases spans.len(),
{
    if spans.len() == 0 {
        Seq::empty()
    } else {
        joined(spans.drop_last()) + spans.last().content
    }
}

impl Line {
    /// A left-aligned line of the given spans.
    pub fn from_spans(spans: Vec<Span>) -> (line: Line)
        ensures
            line@ == LineView::of(spans.deep_view()),
    {
        Line { spans, style: Style::new(), alignment: Alignment::Left }
    }

    /// A left-aligned line of one span.
    pub fn from_span(span: Span) -> (line: Line)
        ensures
            line@ == LineView::of(seq![span@]),
    {
        let mut spans: Vec<Span> = Vec::new();
        spans.push(span);
        assert(spans.deep_view() =~= seq![span@]);
        Line { spans, style: Style::new(), alignment: Alignment::Left }
    }

    /// The same line, centred.
    pub fn centered(self) -> (line: Line)
        ensures
            line@ == self@.centered(),
    {
        let Line { spans, style, alignment: _ } = self;
        Line { spans, style, alignment: Alignment::Center }
    }

    /// The same line, aligned to the right.
    pub fn right_aligned(self) -> (line: Line)
        ensures
            line@ == self@.right_aligned(),
    {
        let Line { spans, style, alignment: _ } = self;
        Line { spans, style, alignment: Alignment::Right }
    }

    /// The same line, drawn in cyan where a span names no colour.
    pub fn cyan(self) -> (line: Line)
        ensures
            line@ == self@.cyan(),
    {
        let Line { spans, style, alignment } = self;
        Line { spans, style: Style { color: Color::Cyan, ..style }, alignment }
    }

    /// The characters of the line, styles dropped.
    pub fn to_string(&self) -> (text: String)
        ensures
            text@ == self@.plain_text(),
    {
        let mut text = String::new();
        let mut i: usize = 0;
        while i < self.spans.len()
            invariant
                i <= self.spans.len(),
                text@ == joined(self.spans.deep_view().take(i as int)),
            decreases self.spans.len() - i,
        {
            text.append(self.spans[i].content.as_str());
            proof {
                let views = self.spans.deep_view();
                assert(views.take(i + 1).drop_last() =~= views.take(i as int));
                assert(views.take(i + 1).last() == self.spans[i as int]@);
            }
            i = i + 1;
        }
        assert(self.spans.deep_view().take(i as int) =~= self.spans.deep_view());
        text
    }
}

/// Put a span at the end of a row of spans.
pub fn push_span(spans: &mut Vec<Span>, span: Span)
    ensures
        final(spans).deep_view() == old(spans).deep_view().push(span@),
{
    proof {
        lemma_deep_push(spans@, span);
    }
    spans.push(span);
}

/// Put a line at the end of a column of lines.
pub fn push_line(lines: &mut Vec<Line>, line: Line)
    ensures
        final(lines).deep_view() == old(lines).deep_view().push(line@),
{
    proof {
        lemma_deep_push(lines@, line);
    }
    lines.push(line);
}

/// A copy of a text that may be missing.
pub(crate) fn copy_of_text(text: &Option<String>) -> (copy: Option<String>)
    ensures
        copy.deep_view() == text.deep_view(),
{
    match text {
        Some(text) => Some(text.clone()),
        None => None,
    }
}

/// A copy of a list of texts.
pub(crate) fn copy_of_texts(texts: &Vec<String>) -> (copy: Vec<String>)
    ensures
        copy.deep_view() == texts.deep_view(),
{
    let mut copy: Vec<String> = Vec::new();
    let mut i: usize = 0;
    while i < texts.len()
        invariant
            i <= texts.len(),
            copy.deep_view() == texts.deep_view().take(i as int),
        decreases texts.len() - i,
    {
        proof {
            lemma_deep_push(copy@, texts[i as int]);
            lemma_take_next(texts.deep_view(), i as int);
        }
        copy.push(texts[i].clone());
        i = i + 1;
    }
    assert(texts.deep_view().take(i as int) =~= texts.deep_view());
    copy
}

/// The lowercase form of a text by the rules of Unicode: what the standard
/// library's `str::to_lowercase` returns for it.
pub uninterp spec fn lowercase(text: Seq<char>) -> Seq<char>;

/// The standard library's `str::to_lowercase`. Believed of it: the result
/// depends on the characters of `text` alone.
#[verifier::external_body]
pub(crate) fn to_lowercase(text: &str) -> (lowered: String)
    ensures
        lowered@ == lowercase(text@),
{
    text.to_lowercase()
}

} // verus!
