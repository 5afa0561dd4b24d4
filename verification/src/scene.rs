//! What is to be painted: areas of the terminal, styled text, and the widgets that hold it.

use crate::palette::Color;
use ratatui::layout::{Constraint, Layout};
use vstd::prelude::*;
use vstd::string::*;

verus! {

broadcast use vstd::seq::group_seq_axioms;

// ---------------------------------------------------------------------------
// Areas.
// ---------------------------------------------------------------------------

/// An area of the terminal, in columns and rows.
#[derive(Debug, Clone, Copy, PartialEq, Eq, Structural)]
pub struct Rect {
    pub x: u16,
    pub y: u16,
    pub width: u16,
    pub height: u16,
}

impl Rect {
    /// Whether the far edges of the area can be counted too.
    pub open spec fn fits(self) -> bool {
        self.x + self.width <= u16::MAX && self.y + self.height <= u16::MAX
    }

    /// Whether every cell of the area is a cell of `outer`.
    pub open spec fn lies_in(self, outer: Rect) -> bool {
        &&& outer.x <= self.x
        &&& self.x + self.width <= outer.x + outer.width
        &&& outer.y <= self.y
        &&& self.y + self.height <= outer.y + outer.height
    }
}

/// What a border of one cell on each side leaves of an area.
pub open spec fn inside(area: Rect) -> Rect {
    Rect {
        x: if area.width > 0 {
            (area.x + 1) as u16
        } else {
            area.x
        },
        y: if area.height > 0 {
            (area.y + 1) as u16
        } else {
            area.y
        },
        width: if area.width >= 2 {
            (area.width - 2) as u16
        } else {
            0
        },
        height: if area.height >= 2 {
            (area.height - 2) as u16
        } else {
            0
        },
    }
}

/// Calls `Block::inner` of `ratatui` on a block with all four borders: what the borders leave.
#[verifier::external_body]
pub(crate) fn inner_area(area: Rect) -> (r: Rect)
    requires
        area.fits(),
    ensures
        r == inside(area),
{
    let outer = ratatui::layout::Rect { x: area.x, y: area.y, width: area.width, height: area.height };
    let block = ratatui::widgets::Block::default().borders(ratatui::widgets::Borders::ALL);
    let inner = block.inner(outer);
    Rect { x: inner.x, y: inner.y, width: inner.width, height: inner.height }
}

/// The rows of `area` from `start` on, `count` of them.
pub open spec fn rows(area: Rect, start: int, count: int) -> Rect {
    Rect { x: area.x, y: (area.y + start) as u16, width: area.width, height: count as u16 }
}

/// The columns of `area` from `start` on, `count` of them.
pub open spec fn columns(area: Rect, start: int, count: int) -> Rect {
    Rect { x: (area.x + start) as u16, y: area.y, width: count as u16, height: area.height }
}

/// Calls `Layout::split` of `ratatui` with a fixed length, a minimum and a fixed length from top
/// to bottom: where all three have room, the part in the middle takes what the other two leave.
#[verifier::external_body]
pub(crate) fn split_rows(area: Rect, top: u16, least: u16, bottom: u16) -> (r: (Rect, Rect, Rect))
    requires
        area.fits(),
        least <= i16::MAX,
        top + least + bottom <= area.height,
    ensures
        r.0 == rows(area, 0, top as int),
        r.1 == rows(area, top as int, area.height - top - bottom),
        r.2 == rows(area, area.height - bottom, bottom as int),
{
    let whole = ratatui::layout::Rect { x: area.x, y: area.y, width: area.width, height: area.height };
    let parts = Layout::vertical([
        Constraint::Length(top),
        Constraint::Min(least),
        Constraint::Length(bottom),
    ]).split(whole);
    (
        Rect { x: parts[0].x, y: parts[0].y, width: parts[0].width, height: parts[0].height },
        Rect { x: parts[1].x, y: parts[1].y, width: parts[1].width, height: parts[1].height },
        Rect { x: parts[2].x, y: parts[2].y, width: parts[2].width, height: parts[2].height },
    )
}

/// How much `percent` percent of `whole` are, rounded to the nearest number and halves upwards.
pub open spec fn share(whole: u16, percent: int) -> int {
    (whole * percent + 50) / 100
}

/// Calls `Layout::split` of `ratatui` with three percentages from top to bottom, the first and the
/// last of them alike, and returns the part in the middle. Its edges are the shares of the
/// percentages up to it, each rounded.
#[verifier::external_body]
pub(crate) fn middle_rows(area: Rect, margin: u16, middle: u16) -> (r: Rect)
    requires
        area.fits(),
        2 * margin + middle <= 100,
    ensures
        r == rows(
            area,
            share(area.height, margin as int),
            share(area.height, margin + middle) - share(area.height, margin as int),
        ),
{
    let whole = ratatui::layout::Rect { x: area.x, y: area.y, width: area.width, height: area.height };
    let parts = Layout::vertical([
        Constraint::Percentage(margin),
        Constraint::Percentage(middle),
        Constraint::Percentage(margin),
    ]).split(whole);
    Rect { x: parts[1].x, y: parts[1].y, width: parts[1].width, height: parts[1].height }
}

/// Calls `Layout::split` of `ratatui` with three percentages from left to right, the first and the
/// last of them alike, and returns the part in the middle. Its edges are the shares of the
/// percentages up to it, each rounded.
#[verifier::external_body]
pub(crate) fn middle_columns(area: Rect, margin: u16, middle: u16) -> (r: Rect)
    requires
        area.fits(),
        2 * margin + middle <= 100,
    ensures
        r == columns(
            area,
            share(area.width, margin as int),
            share(area.width, margin + middle) - share(area.width, margin as int),
        ),
{
    let whole = ratatui::layout::Rect { x: area.x, y: area.y, width: area.width, height: area.height };
    let parts = Layout::horizontal([
        Constraint::Percentage(margin),
        Constraint::Percentage(middle),
        Constraint::Percentage(margin),
    ]).split(whole);
    Rect { x: parts[1].x, y: parts[1].y, width: parts[1].width, height: parts[1].height }
}

// ---------------------------------------------------------------------------
// Styled text.
// ---------------------------------------------------------------------------

/// How text looks. Where a color is not given, that of what lies below is kept.
#[derive(Debug, Clone, Copy, PartialEq, Eq, Structural)]
pub struct Style {
    pub fg: Option<Color>,
    pub bg: Option<Color>,
    pub bold: bool,
    pub dim: bool,
}

/// Text as it comes.
pub open spec fn plain() -> Style {
    Style { fg: None, bg: None, bold: false, dim: false }
}

/// Text in a color.
pub open spec fn colored(fg: Color) -> Style {
    Style { fg: Some(fg), ..plain() }
}

/// Text that is held back.
pub open spec fn dimmed() -> Style {
    Style { dim: true, ..plain() }
}

impl Style {
    /// Text as it comes.
    pub fn plain() -> (r: Self)
        ensures
            r == plain(),
    {
        Style { fg: None, bg: None, bold: false, dim: false }
    }

    /// Text in a color.
    pub fn colored(fg: Color) -> (r: Self)
        ensures
            r == colored(fg),
    {
        Style { fg: Some(fg), bg: None, bold: false, dim: false }
    }

    /// Text that is held back.
    pub fn dimmed() -> (r: Self)
        ensures
            r == dimmed(),
    {
        Style { fg: None, bg: None, bold: false, dim: true }
    }

    /// The same in bold.
    pub fn bold(self) -> (r: Self)
        ensures
            r == (Style { bold: true, ..self }),
    {
        Style { bold: true, ..self }
    }

    /// The same held back.
    pub fn dim(self) -> (r: Self)
        ensures
            r == (Style { dim: true, ..self }),
    {
        Style { dim: true, ..self }
    }
}

/// A piece of text in one style.
#[derive(Debug, PartialEq, Eq)]
pub struct Span {
    pub text: String,
    pub style: Style,
}

/// What a [`Span`] says.
#[verifier::ext_equal]
pub struct SpanView {
    pub text: Seq<char>,
    pub style: Style,
}

impl View for Span {
    type V = SpanView;

    open spec fn view(&self) -> SpanView {
        SpanView { text: self.text@, style: self.style }
    }
}

/// A line of text.
#[derive(Debug, PartialEq, Eq)]
pub struct Line {
    pub spans: Vec<Span>,
}

impl View for Line {
    type V = Seq<SpanView>;

    open spec fn view(&self) -> Seq<SpanView> {
        self.spans@.map_values(|span: Span| span@)
    }
}

impl Line {
    /// A line with nothing in it.
    pub fn empty() -> (r: Self)
        ensures
            r@ == Seq::<SpanView>::empty(),
    {
        let r = Line { spans: Vec::new() };
        assert(r@ =~= Seq::<SpanView>::empty());
        r
    }

    /// The line with one more piece of text at its end.
    pub fn with(self, text: &str, style: Style) -> (r: Self)
        ensures
            r@ == self@.push(SpanView { text: text@, style }),
    {
        let mut spans = self.spans;
        spans.push(Span { text: text.to_owned(), style });
        let r = Line { spans };
        assert(r@ =~= self@.push(SpanView { text: text@, style }));
        r
    }
}

/// What lines say.
pub open spec fn line_views(lines: Seq<Line>) -> Seq<Seq<SpanView>> {
    lines.map_values(|line: Line| line@)
}

/// Puts a line below others.
pub fn push_line(lines: &mut Vec<Line>, line: Line)
    ensures
        line_views(final(lines)@) == line_views(old(lines)@).push(line@),
{
    lines.push(line);
    assert(line_views(lines@) =~= line_views(old(lines)@).push(line@));
}

/// A line in the color `bg` keeps no text of that color: such text is left to the color below.
pub open spec fn readable_on(line: Seq<SpanView>, bg: Color) -> Seq<SpanView> {
    line.map_values(
        |span: SpanView|
            if span.style.fg == Some(bg) {
                SpanView { style: Style { fg: None, ..span.style }, ..span }
            } else {
                span
            },
    )
}

/// The line with no text in the color `bg`.
pub fn make_readable(line: &Line, bg: Color) -> (r: Line)
    ensures
        r@ == readable_on(line@, bg),
{
    let mut out = Line::empty();
    let mut i: usize = 0;
    while i < line.spans.len()
        invariant
            i <= line.spans.len(),
            out@ == readable_on(line@, bg).take(i as int),
        decreases line.spans.len() - i,
    {
        let style = line.spans[i].style;
        let shown = if style.fg == Some(bg) {
            Style { fg: None, ..style }
        } else {
            style
        };
        out = out.with(line.spans[i].text.as_str(), shown);
        i += 1;
        assert(out@ =~= readable_on(line@, bg).take(i as int));
    }
    assert(out@ =~= readable_on(line@, bg));
    out
}

// ---------------------------------------------------------------------------
// Widgets.
// ---------------------------------------------------------------------------

/// Something to paint.
#[derive(Debug, PartialEq, Eq)]
pub enum Widget {
    /// A border round an area, with a title in it.
    Border { area: Rect, title: String },
    /// Lines of text from the top of an area on. Where they are wrapped, a line that is too wide
    /// goes on below.
    Paragraph { area: Rect, lines: Vec<Line>, style: Style, wrapped: bool },
    /// A list from the top of an area on, scrolled so that the selected row is to be seen. The
    /// selected row has the style `highlight` and the symbol before it.
    List { area: Rect, rows: Vec<Line>, selected: usize, highlight: Style, symbol: String },
    /// Nothing, where there was something.
    Clear { area: Rect },
}

/// What a [`Widget`] says.
#[verifier::ext_equal]
pub enum WidgetView {
    Border { area: Rect, title: Seq<char> },
    Paragraph { area: Rect, lines: Seq<Seq<SpanView>>, style: Style, wrapped: bool },
    List {
        area: Rect,
        rows: Seq<Seq<SpanView>>,
        selected: usize,
        highlight: Style,
        symbol: Seq<char>,
    },
    Clear { area: Rect },
}

impl View for Widget {
    type V = WidgetView;

    open spec fn view(&self) -> WidgetView {
        match *self {
            Widget::Border { area, title } => WidgetView::Border { area, title: title@ },
            Widget::Paragraph { area, lines, style, wrapped } => WidgetView::Paragraph {
                area,
                lines: line_views(lines@),
                style,
                wrapped,
            },
            Widget::List { area, rows, selected, highlight, symbol } => WidgetView::List {
                area,
                rows: line_views(rows@),
                selected,
                highlight,
                symbol: symbol@,
            },
            Widget::Clear { area } => WidgetView::Clear { area },
        }
    }
}

impl WidgetView {
    /// The area that is painted.
    pub open spec fn area(self) -> Rect {
        match self {
            WidgetView::Border { area, .. } => area,
            WidgetView::Paragraph { area, .. } => area,
            WidgetView::List { area, .. } => area,
            WidgetView::Clear { area } => area,
        }
    }
}

/// What widgets say, from the one at the bottom to the one on top.
pub open spec fn widget_views(widgets: Seq<Widget>) -> Seq<WidgetView> {
    widgets.map_values(|widget: Widget| widget@)
}

/// Puts a widget on top of others.
pub fn push_widget(widgets: &mut Vec<Widget>, widget: Widget)
    ensures
        widget_views(final(widgets)@) == widget_views(old(widgets)@).push(widget@),
{
    widgets.push(widget);
    assert(widget_views(widgets@) =~= widget_views(old(widgets)@).push(widget@));
}

// ---------------------------------------------------------------------------
// What holds of every area and of every line.
// ---------------------------------------------------------------------------

/// A border takes cells of its area only.
pub proof fn law_the_inside_lies_inside(area: Rect)
    requires
        area.fits(),
    ensures
        inside(area).lies_in(area),
        inside(area).fits(),
{
}

/// On a background no text has the color of the background, and nothing else about it changes.
pub proof fn law_readable_text_differs_from_its_background(line: Seq<SpanView>, bg: Color, i: int)
    requires
        0 <= i < line.len(),
    ensures
        readable_on(line, bg).len() == line.len(),
        readable_on(line, bg)[i].style.fg != Some(bg),
        readable_on(line, bg)[i].text == line[i].text,
        line[i].style.fg != Some(bg) ==> readable_on(line, bg)[i] == line[i],
{
}

} // verus!
