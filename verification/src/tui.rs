//! What the screen shows of the state of the program.
//!
//! Nothing is painted here: [`draw`] says which widgets stand where, and reports back how many
//! rows the list has, so that the jumps of half a page know how far to go.

use crate::app::{App, AppView, LastError, Screen};
use crate::palette::{Color, Palette};
use crate::scene;
use crate::scene::{
    inner_area, make_readable, middle_columns, middle_rows, push_line, push_widget, split_rows, Line, Rect,
    SpanView, Style, Widget, WidgetView,
};
use crate::search;
use crate::search::{SearchResult, VideoDuration};
use crate::text;
use crate::width;
use crate::width::{cut_to_width, text_columns};
use vstd::prelude::*;
use vstd::string::*;

verus! {

broadcast use vstd::seq::group_seq_axioms;

/// The narrowest terminal that the screen is laid out for.
pub const MIN_WIDTH: u16 = 60;

/// The lowest terminal that the screen is laid out for.
pub const MIN_HEIGHT: u16 = 20;

/// How many columns a key takes up in the help.
pub const KEY_COLUMNS: usize = 18;

// ---------------------------------------------------------------------------
// A row of the list.
// ---------------------------------------------------------------------------

/// A duration in a row.
pub open spec fn duration_cell(duration: VideoDuration) -> Seq<char> {
    match duration {
        VideoDuration::Live => "LIVE"@,
        VideoDuration::Upcoming => "UPCOMING"@,
        VideoDuration::Unknown => "—"@,
        VideoDuration::Seconds(seconds) => search::clock(seconds as nat),
    }
}

/// A duration in a row: `1:23` or `1:01:01`, `LIVE`, `UPCOMING`, or `—` where it is not known.
#[must_use]
pub fn format_duration(duration: &VideoDuration) -> (r: String)
    ensures
        r@ == duration_cell(*duration),
{
    match duration {
        VideoDuration::Live => "LIVE".to_owned(),
        VideoDuration::Upcoming => "UPCOMING".to_owned(),
        VideoDuration::Unknown => "—".to_owned(),
        VideoDuration::Seconds(seconds) => search::clock_text(*seconds),
    }
}

/// A number of columns, as far as it can be counted.
pub open spec fn counted_columns(columns: usize) -> int {
    if columns <= u16::MAX {
        columns as int
    } else {
        u16::MAX as int
    }
}

/// How many columns a text takes up, as far as they can be counted.
pub open spec fn counted(s: Seq<char>) -> int {
    counted_columns(width::display_width(s))
}

fn count_columns(columns: usize) -> (r: u16)
    ensures
        r == counted_columns(columns),
{
    if columns <= u16::MAX as usize {
        columns as u16
    } else {
        u16::MAX
    }
}

/// How many columns the channel has in a row: a quarter of the row, between 8 and 32.
pub open spec fn channel_budget(width: u16) -> int {
    let quarter = width as int / 4;
    if quarter < 8 {
        8
    } else if quarter > 32 {
        32
    } else {
        quarter
    }
}

/// How many columns the channel has in a row.
pub fn channel_columns(width: u16) -> (r: u16)
    ensures
        r == channel_budget(width),
{
    let quarter: u16 = width / 4;
    if quarter < 8 {
        8
    } else if quarter > 32 {
        32
    } else {
        quarter
    }
}

/// How many columns the title has in a row: what the symbol of the selection, the channel, the
/// duration and the gaps between them leave.
pub open spec fn title_budget(width: u16, duration_columns: int) -> int {
    let others = 2 + 1 + channel_budget(width) + 1 + duration_columns + 2;
    if width > others {
        width - others
    } else {
        0
    }
}

/// How many columns the title has in a row whose duration takes up `duration_columns`.
pub fn title_columns(width: u16, duration_columns: u16) -> (r: u16)
    ensures
        r == title_budget(width, duration_columns as int),
{
    let others: u32 = 6 + channel_columns(width) as u32 + duration_columns as u32;
    if width as u32 > others {
        (width as u32 - others) as u16
    } else {
        0
    }
}

/// The gap after a text that takes up `taken` of `budget` columns: what it leaves of them, and one
/// more.
pub open spec fn gap(taken: int, budget: int) -> Seq<char> {
    text::spaces((if budget > taken { budget - taken } else { 0 } + 1) as nat)
}

/// The gap after a text in a row that has `budget` columns for it.
pub open spec fn gap_after(s: Seq<char>, budget: int) -> Seq<char> {
    gap(counted(s), budget)
}

fn make_gap(columns: usize, budget: u16) -> (r: String)
    ensures
        r@ == gap(counted_columns(columns), budget as int),
{
    let taken: u16 = count_columns(columns);
    let left: u16 = if budget > taken {
        budget - taken
    } else {
        0
    };
    text::space_run(left as usize + 1)
}

/// The channel in a row.
pub open spec fn channel_cell(channel: Option<String>) -> Seq<char> {
    match channel {
        Some(name) => name@,
        None => "[no channel]"@,
    }
}

/// A row of the list: the title, the channel and the duration, each in its column.
pub open spec fn row_of(result: SearchResult, width: u16, palette: Palette) -> Seq<SpanView> {
    let duration = duration_cell(result.duration);
    let title_columns = title_budget(width, counted(duration));
    let channel_columns = channel_budget(width);
    let title = width::truncated(result.title@, title_columns as nat);
    let channel = width::truncated(channel_cell(result.channel), channel_columns as nat);
    seq![
        SpanView { text: title, style: scene::plain() },
        SpanView { text: gap_after(title, title_columns), style: scene::plain() },
        SpanView { text: channel, style: scene::colored(palette.channel_fg) },
        SpanView { text: gap_after(channel, channel_columns), style: scene::plain() },
        SpanView {
            text: duration,
            style: Style { dim: true, ..scene::colored(palette.duration_fg) },
        },
    ]
}

/// Whether a row lines up with the others: the title and the channel take up no more columns than
/// they have, and the gaps fill what they leave, so that the channel starts one column after those
/// of the title, and the duration one column after those of the channel.
pub open spec fn lines_up(row: Seq<SpanView>, width: u16, duration: Seq<char>) -> bool {
    let title_columns = title_budget(width, counted(duration));
    &&& width::display_width(row[0].text) <= title_columns
    &&& width::display_width(row[0].text) + row[1].text.len() == title_columns + 1
    &&& width::display_width(row[2].text) <= channel_budget(width)
    &&& width::display_width(row[2].text) + row[3].text.len() == channel_budget(width) + 1
}

/// A row of the list: the title, the channel and the duration, each in its column, which are the
/// same columns in every row whose duration is as wide.
pub fn render_row(result: &SearchResult, width: u16, palette: &Palette) -> (r: Line)
    ensures
        r@ == row_of(*result, width, *palette),
        lines_up(r@, width, duration_cell(result.duration)),
{
    let duration = format_duration(&result.duration);
    let duration_columns: u16 = count_columns(text_columns(duration.as_str()));
    let for_channel: u16 = channel_columns(width);
    let for_title: u16 = title_columns(width, duration_columns);
    let (title, title_taken) = cut_to_width(result.title.as_str(), for_title);
    proof {
        reveal_strlit("[no channel]");
        assert(width::all_plain("[no channel]"@));
    }
    let (channel, channel_taken) = match &result.channel {
        Some(name) => cut_to_width(name.as_str(), for_channel),
        None => cut_to_width("[no channel]", for_channel),
    };
    let title_gap = make_gap(title_taken, for_title);
    let channel_gap = make_gap(channel_taken, for_channel);
    let r = Line::empty().with(title.as_str(), Style::plain()).with(
        title_gap.as_str(),
        Style::plain(),
    ).with(channel.as_str(), Style::colored(palette.channel_fg)).with(
        channel_gap.as_str(),
        Style::plain(),
    ).with(duration.as_str(), Style::colored(palette.duration_fg).dim());
    assert(r@ =~= row_of(*result, width, *palette));
    r
}

/// The rows of the list: one for each shown place that has a result.
pub open spec fn rows_of(
    filtered: Seq<usize>,
    results: Seq<SearchResult>,
    width: u16,
    palette: Palette,
) -> Seq<Seq<SpanView>>
    decreases filtered.len(),
{
    if filtered.len() == 0 {
        Seq::empty()
    } else {
        let before = rows_of(filtered.drop_last(), results, width, palette);
        if filtered.last() < results.len() {
            before.push(row_of(results[filtered.last() as int], width, palette))
        } else {
            before
        }
    }
}

/// Whether the rows of the shown results line up.
pub open spec fn rows_line_up(
    filtered: Seq<usize>,
    results: Seq<SearchResult>,
    width: u16,
    palette: Palette,
) -> bool {
    forall|i: int|
        0 <= i < filtered.len() && #[trigger] filtered[i] < results.len() ==> lines_up(
            row_of(results[filtered[i] as int], width, palette),
            width,
            duration_cell(results[filtered[i] as int].duration),
        )
}

/// The row that is drawn as the selected one: the last where the selection is beyond it.
pub open spec fn marked(selected: usize, count: nat) -> int {
    if selected < count {
        selected as int
    } else {
        count - 1
    }
}

/// The rows with the selected one made readable on its background.
pub open spec fn with_mark(rows: Seq<Seq<SpanView>>, selected: usize, bg: Color) -> Seq<Seq<SpanView>> {
    if rows.len() == 0 {
        rows
    } else {
        let place = marked(selected, rows.len());
        rows.update(place, scene::readable_on(rows[place], bg))
    }
}

fn render_rows(
    filtered: &Vec<usize>,
    results: &Vec<SearchResult>,
    width: u16,
    palette: &Palette,
) -> (r: Vec<Line>)
    ensures
        scene::line_views(r@) == rows_of(filtered@, results@, width, *palette),
        rows_line_up(filtered@, results@, width, *palette),
{
    let mut rows: Vec<Line> = Vec::new();
    let mut i: usize = 0;
    assert(scene::line_views(rows@) =~= Seq::empty());
    while i < filtered.len()
        invariant
            i <= filtered.len(),
            scene::line_views(rows@) == rows_of(
                filtered@.take(i as int),
                results@,
                width,
                *palette,
            ),
            rows_line_up(filtered@.take(i as int), results@, width, *palette),
        decreases filtered.len() - i,
    {
        let place: usize = filtered[i];
        proof {
            let next = filtered@.take(i + 1);
            assert(next.drop_last() =~= filtered@.take(i as int));
            assert(next.last() == place);
        }
        if place < results.len() {
            push_line(&mut rows, render_row(&results[place], width, palette));
        }
        proof {
            let taken = filtered@.take(i as int);
            assert forall|j: int|
                0 <= j < i + 1 && #[trigger] filtered@.take(i + 1)[j] < results.len() implies lines_up(
                row_of(results@[filtered@.take(i + 1)[j] as int], width, *palette),
                width,
                duration_cell(results@[filtered@.take(i + 1)[j] as int].duration),
            ) by {
                if j < i {
                    assert(taken[j] == filtered@.take(i + 1)[j]);
                }
            }
        }
        i += 1;
    }
    assert(filtered@.take(i as int) =~= filtered@);
    rows
}

fn mark_row(rows: &mut Vec<Line>, selected: usize, bg: Color)
    ensures
        scene::line_views(final(rows)@) == with_mark(scene::line_views(old(rows)@), selected, bg),
{
    let count: usize = rows.len();
    if count > 0 {
        let place: usize = if selected < count {
            selected
        } else {
            count - 1
        };
        let line = make_readable(&rows[place], bg);
        rows.set(place, line);
    }
    assert(scene::line_views(rows@) =~= with_mark(
        scene::line_views(old(rows)@),
        selected,
        bg,
    ));
}

// ---------------------------------------------------------------------------
// The header.
// ---------------------------------------------------------------------------

/// The query that was asked, or nothing.
pub open spec fn asked_query(app: AppView) -> Seq<char> {
    match app.committed_query {
        Some(query) => query,
        None => ""@,
    }
}

fn quoted_query(app: &App) -> (r: String)
    ensures
        r@ == text::quoted(asked_query(app@)),
{
    match &app.committed_query {
        Some(query) => text::quote(query.as_str()),
        None => text::quote(""),
    }
}

/// The title of a screen with `count` results, for a query in quotes.
pub open spec fn title_with(screen: Screen, count: nat, quoted: Seq<char>) -> Seq<char> {
    match screen {
        Screen::Prompt => " yttui — search "@,
        Screen::Searching => " yttui — searching for "@ + quoted + " "@,
        Screen::Results | Screen::Filter | Screen::Help => " yttui — "@ + text::decimal(count) + (
        if count == 1 {
            " result for "@
        } else {
            " results for "@
        }) + quoted + " "@,
    }
}

/// The title of a screen with `count` results, for a query in quotes.
pub fn screen_title(screen: Screen, count: usize, quoted: &str) -> (r: String)
    ensures
        r@ == title_with(screen, count as nat, quoted@),
{
    match screen {
        Screen::Prompt => " yttui — search ".to_owned(),
        Screen::Searching => {
            let mut title = " yttui — searching for ".to_owned();
            title.append(quoted);
            title.append(" ");
            title
        },
        Screen::Results | Screen::Filter | Screen::Help => {
            let mut title = " yttui — ".to_owned();
            text::push_decimal(&mut title, count as u64);
            if count == 1 {
                title.append(" result for ");
            } else {
                title.append(" results for ");
            }
            title.append(quoted);
            title.append(" ");
            title
        },
    }
}

/// The title of the screen.
pub open spec fn title_of(app: AppView) -> Seq<char> {
    title_with(app.screen, app.filtered.len(), text::quoted(asked_query(app)))
}

fn make_title(app: &App) -> (r: String)
    ensures
        r@ == title_of(app@),
{
    screen_title(app.screen, app.filtered.len(), quoted_query(app).as_str())
}

/// The line below the title.
pub open spec fn header_line(app: AppView, palette: Palette) -> Seq<SpanView> {
    match app.screen {
        Screen::Prompt => seq![
            SpanView { text: "yt> "@, style: scene::colored(palette.prompt_marker_fg) },
            SpanView { text: app.input, style: scene::plain() },
            SpanView { text: "│"@, style: scene::colored(palette.cursor_fg) },
        ],
        Screen::Searching => seq![
            SpanView { text: "Searching… (Esc to cancel)"@, style: scene::dimmed() },
        ],
        Screen::Results | Screen::Help => match app.committed_query {
            Some(query) => seq![
                SpanView { text: "yt> "@, style: scene::colored(palette.prompt_marker_inactive_fg) },
                SpanView { text: query, style: scene::plain() },
            ],
            None => Seq::empty(),
        },
        Screen::Filter => seq![
            SpanView { text: "/"@, style: scene::colored(palette.filter_marker_fg) },
            SpanView { text: app.input, style: scene::plain() },
            SpanView { text: "│"@, style: scene::colored(palette.cursor_fg) },
        ],
    }
}

fn make_header_line(app: &App, palette: &Palette) -> (r: Line)
    ensures
        r@ == header_line(app@, *palette),
{
    let r = match app.screen {
        Screen::Prompt => Line::empty().with(
            "yt> ",
            Style::colored(palette.prompt_marker_fg),
        ).with(app.input.as_str(), Style::plain()).with("│", Style::colored(palette.cursor_fg)),
        Screen::Searching => Line::empty().with("Searching… (Esc to cancel)", Style::dimmed()),
        Screen::Results | Screen::Help => match &app.committed_query {
            Some(query) => Line::empty().with(
                "yt> ",
                Style::colored(palette.prompt_marker_inactive_fg),
            ).with(query.as_str(), Style::plain()),
            None => Line::empty(),
        },
        Screen::Filter => Line::empty().with("/", Style::colored(palette.filter_marker_fg)).with(
            app.input.as_str(),
            Style::plain(),
        ).with("│", Style::colored(palette.cursor_fg)),
    };
    assert(r@ =~= header_line(app@, *palette));
    r
}

// ---------------------------------------------------------------------------
// Help.
// ---------------------------------------------------------------------------

/// A key and what it does.
pub open spec fn binding_of(key: Seq<char>, does: Seq<char>, palette: Palette) -> Seq<SpanView> {
    seq![
        SpanView {
            text: text::padded(key, KEY_COLUMNS as nat),
            style: Style { bold: true, ..scene::colored(palette.keycap_fg) },
        },
        SpanView { text: does, style: scene::plain() },
    ]
}

/// A key and what it does, after an indent.
pub open spec fn indented(key: Seq<char>, does: Seq<char>, palette: Palette) -> Seq<SpanView> {
    seq![SpanView { text: "  "@, style: scene::plain() }] + binding_of(key, does, palette)
}

fn add_binding(line: Line, key: &str, does: &str, palette: &Palette) -> (r: Line)
    ensures
        r@ == line@ + binding_of(key@, does@, *palette),
{
    let padded = text::pad_right(key, KEY_COLUMNS);
    let r = line.with(padded.as_str(), Style::colored(palette.keycap_fg).bold()).with(
        does,
        Style::plain(),
    );
    assert(r@ =~= line@ + binding_of(key@, does@, *palette));
    r
}

fn push_binding(lines: &mut Vec<Line>, key: &str, does: &str, palette: &Palette)
    ensures
        scene::line_views(final(lines)@) == scene::line_views(old(lines)@).push(
            binding_of(key@, does@, *palette),
        ),
{
    let line = add_binding(Line::empty(), key, does, palette);
    assert(line@ =~= binding_of(key@, does@, *palette));
    push_line(lines, line);
}

fn push_indented(lines: &mut Vec<Line>, key: &str, does: &str, palette: &Palette)
    ensures
        scene::line_views(final(lines)@) == scene::line_views(old(lines)@).push(
            indented(key@, does@, *palette),
        ),
{
    let line = add_binding(Line::empty().with("  ", Style::plain()), key, does, palette);
    assert(line@ =~= indented(key@, does@, *palette));
    push_line(lines, line);
}

/// What the prompt says while nothing was searched.
pub open spec fn prompt_lines(palette: Palette) -> Seq<Seq<SpanView>> {
    seq![
        seq![SpanView { text: "Type a query and press Enter."@, style: scene::dimmed() }],
        Seq::empty(),
        seq![SpanView { text: "Once you have results:"@, style: scene::dimmed() }],
        indented("j / ↓"@, "next result"@, palette),
        indented("k / ↑"@, "previous result"@, palette),
        indented("gg / G"@, "first / last"@, palette),
        indented("Ctrl-d / Ctrl-u"@, "half-page down / up"@, palette),
        indented("Enter"@, "play selected"@, palette),
        indented("/"@, "filter results"@, palette),
        indented("n"@, "new search"@, palette),
        indented("r"@, "re-run current search"@, palette),
        indented("?"@, "show this help"@, palette),
        indented("q / Esc"@, "quit"@, palette),
    ]
}

fn make_prompt_lines(palette: &Palette) -> (r: Vec<Line>)
    ensures
        scene::line_views(r@) == prompt_lines(*palette),
{
    let mut lines: Vec<Line> = Vec::new();
    let first = Line::empty().with("Type a query and press Enter.", Style::dimmed());
    let third = Line::empty().with("Once you have results:", Style::dimmed());
    proof {
        assert(scene::line_views(lines@) =~= Seq::empty());
        assert(first@ =~= prompt_lines(*palette)[0]);
        assert(third@ =~= prompt_lines(*palette)[2]);
    }
    push_line(&mut lines, first);
    push_line(&mut lines, Line::empty());
    push_line(&mut lines, third);
    push_indented(&mut lines, "j / ↓", "next result", palette);
    push_indented(&mut lines, "k / ↑", "previous result", palette);
    push_indented(&mut lines, "gg / G", "first / last", palette);
    push_indented(&mut lines, "Ctrl-d / Ctrl-u", "half-page down / up", palette);
    push_indented(&mut lines, "Enter", "play selected", palette);
    push_indented(&mut lines, "/", "filter results", palette);
    push_indented(&mut lines, "n", "new search", palette);
    push_indented(&mut lines, "r", "re-run current search", palette);
    push_indented(&mut lines, "?", "show this help", palette);
    push_indented(&mut lines, "q / Esc", "quit", palette);
    assert(scene::line_views(lines@) =~= prompt_lines(*palette));
    lines
}

/// What the help says.
pub open spec fn help_lines(palette: Palette) -> Seq<Seq<SpanView>> {
    seq![
        binding_of("j / ↓"@, "next result"@, palette),
        binding_of("k / ↑"@, "previous result"@, palette),
        binding_of("gg"@, "jump to first"@, palette),
        binding_of("G"@, "jump to last"@, palette),
        binding_of("Ctrl-d / Ctrl-u"@, "half-page down / up"@, palette),
        binding_of("Enter"@, "play selected (or commit query)"@, palette),
        binding_of("/"@, "filter current results"@, palette),
        binding_of("n"@, "new search"@, palette),
        binding_of("r"@, "re-run current search"@, palette),
        binding_of("?"@, "this help"@, palette),
        binding_of("q / Esc"@, "quit"@, palette),
    ]
}

fn make_help_lines(palette: &Palette) -> (r: Vec<Line>)
    ensures
        scene::line_views(r@) == help_lines(*palette),
{
    let mut lines: Vec<Line> = Vec::new();
    assert(scene::line_views(lines@) =~= Seq::empty());
    push_binding(&mut lines, "j / ↓", "next result", palette);
    push_binding(&mut lines, "k / ↑", "previous result", palette);
    push_binding(&mut lines, "gg", "jump to first", palette);
    push_binding(&mut lines, "G", "jump to last", palette);
    push_binding(&mut lines, "Ctrl-d / Ctrl-u", "half-page down / up", palette);
    push_binding(&mut lines, "Enter", "play selected (or commit query)", palette);
    push_binding(&mut lines, "/", "filter current results", palette);
    push_binding(&mut lines, "n", "new search", palette);
    push_binding(&mut lines, "r", "re-run current search", palette);
    push_binding(&mut lines, "?", "this help", palette);
    push_binding(&mut lines, "q / Esc", "quit", palette);
    assert(scene::line_views(lines@) =~= help_lines(*palette));
    lines
}

/// The part of an area in its middle, `percent_x` by `percent_y` percent of it.
pub open spec fn center(percent_x: int, percent_y: int, area: Rect) -> Rect {
    let left = (100 - percent_x) / 2;
    let top = (100 - percent_y) / 2;
    Rect {
        x: (area.x + scene::share(area.width, left)) as u16,
        y: (area.y + scene::share(area.height, top)) as u16,
        width: (scene::share(area.width, left + percent_x) - scene::share(area.width, left)) as u16,
        height: (scene::share(area.height, top + percent_y) - scene::share(
            area.height,
            top,
        )) as u16,
    }
}

/// A share of more percent is no smaller, and no share is more than the whole.
pub proof fn lemma_shares(whole: u16, percent: int, more: int)
    requires
        0 <= percent <= more <= 100,
    ensures
        0 <= scene::share(whole, percent) <= scene::share(whole, more) <= whole,
{
    assert(0 <= whole * percent <= whole * more <= whole * 100) by (nonlinear_arith)
        requires
            0 <= percent <= more <= 100,
            0 <= whole,
    ;
}

/// The part of an area in its middle, `percent_x` by `percent_y` percent of it.
pub fn centered_rect(percent_x: u16, percent_y: u16, area: Rect) -> (r: Rect)
    requires
        percent_x <= 100,
        percent_y <= 100,
        area.fits(),
    ensures
        r == center(percent_x as int, percent_y as int, area),
        r.lies_in(area),
{
    let top: u16 = (100 - percent_y) / 2;
    let left: u16 = (100 - percent_x) / 2;
    proof {
        lemma_shares(area.height, top as int, top + percent_y);
        lemma_shares(area.width, left as int, left + percent_x);
    }
    let band = middle_rows(area, top, percent_y);
    middle_columns(band, left, percent_x)
}

// ---------------------------------------------------------------------------
// The body.
// ---------------------------------------------------------------------------

/// Lines of text as they come, from the top of an area on.
pub open spec fn paragraph(area: Rect, lines: Seq<Seq<SpanView>>) -> WidgetView {
    WidgetView::Paragraph { area, lines, style: scene::plain(), wrapped: false }
}

fn make_paragraph(area: Rect, lines: Vec<Line>) -> (r: Widget)
    ensures
        r@ == paragraph(area, scene::line_views(lines@)),
{
    Widget::Paragraph { area, lines, style: Style::plain(), wrapped: false }
}

fn make_single(area: Rect, line: Line) -> (r: Widget)
    ensures
        r@ == paragraph(area, seq![line@]),
{
    let mut lines: Vec<Line> = Vec::new();
    assert(scene::line_views(lines@) =~= Seq::empty());
    push_line(&mut lines, line);
    assert(scene::line_views(lines@) =~= seq![line@]);
    make_paragraph(area, lines)
}

/// What is said while a search goes on.
pub open spec fn searching_lines(app: AppView, palette: Palette) -> Seq<Seq<SpanView>> {
    seq![
        Seq::empty(),
        seq![
            SpanView {
                text: "yt-dlp ytsearch:"@ + asked_query(app) + "…"@,
                style: scene::colored(palette.progress_fg),
            },
        ],
        Seq::empty(),
        seq![SpanView { text: "Press Esc to cancel."@, style: scene::dimmed() }],
    ]
}

fn make_searching_lines(app: &App, palette: &Palette) -> (r: Vec<Line>)
    ensures
        scene::line_views(r@) == searching_lines(app@, *palette),
{
    let mut progress = "yt-dlp ytsearch:".to_owned();
    match &app.committed_query {
        Some(query) => progress.append(query.as_str()),
        None => progress.append(""),
    }
    progress.append("…");
    let second = Line::empty().with(progress.as_str(), Style::colored(palette.progress_fg));
    let fourth = Line::empty().with("Press Esc to cancel.", Style::dimmed());
    let mut lines: Vec<Line> = Vec::new();
    proof {
        assert(scene::line_views(lines@) =~= Seq::empty());
        assert(second@ =~= searching_lines(app@, *palette)[1]);
        assert(fourth@ =~= searching_lines(app@, *palette)[3]);
    }
    push_line(&mut lines, Line::empty());
    push_line(&mut lines, second);
    push_line(&mut lines, Line::empty());
    push_line(&mut lines, fourth);
    assert(scene::line_views(lines@) =~= searching_lines(app@, *palette));
    lines
}

/// The results, or why there are none to be seen.
pub open spec fn results_widget(app: AppView, area: Rect, palette: Palette) -> WidgetView {
    if app.results.len() == 0 {
        paragraph(area, seq![seq![SpanView { text: "No results."@, style: scene::dimmed() }]])
    } else if app.filtered.len() == 0 {
        paragraph(
            area,
            seq![
                seq![
                    SpanView {
                        text: "No matches for "@ + text::quoted(app.input) + "."@,
                        style: scene::colored(palette.warning_fg),
                    },
                ],
            ],
        )
    } else {
        WidgetView::List {
            area,
            rows: with_mark(
                rows_of(app.filtered, app.results, area.width, palette),
                app.selected,
                palette.selection_bg,
            ),
            selected: app.selected,
            highlight: Style { bg: Some(palette.selection_bg), bold: true, ..scene::plain() },
            symbol: "▶ "@,
        }
    }
}

fn make_results_widget(app: &App, area: Rect, palette: &Palette) -> (r: Widget)
    ensures
        r@ == results_widget(app@, area, *palette),
        app@.results.len() > 0 ==> rows_line_up(
            app@.filtered,
            app@.results,
            area.width,
            *palette,
        ),
{
    if app.results.len() == 0 {
        let line = Line::empty().with("No results.", Style::dimmed());
        assert(line@ =~= seq![SpanView { text: "No results."@, style: scene::dimmed() }]);
        return make_single(area, line);
    }
    if app.filtered.len() == 0 {
        let mut message = "No matches for ".to_owned();
        message.append(text::quote(app.input.as_str()).as_str());
        message.append(".");
        let style = Style::colored(palette.warning_fg);
        let line = Line::empty().with(message.as_str(), style);
        assert(line@ =~= seq![SpanView { text: message@, style }]);
        return make_single(area, line);
    }
    let mut rows = render_rows(&app.filtered, &app.results, area.width, palette);
    mark_row(&mut rows, app.selected, palette.selection_bg);
    Widget::List {
        area,
        rows,
        selected: app.selected,
        highlight: Style { fg: None, bg: Some(palette.selection_bg), bold: true, dim: false },
        symbol: "▶ ".to_owned(),
    }
}

/// Whether the body is there for results and there are some.
pub open spec fn shows_results(app: AppView) -> bool {
    app.results.len() > 0 && app.screen != Screen::Prompt && app.screen != Screen::Searching
}

/// What stands in the body.
pub open spec fn body_widget(app: AppView, area: Rect, palette: Palette) -> WidgetView {
    match app.screen {
        Screen::Prompt => paragraph(area, prompt_lines(palette)),
        Screen::Searching => paragraph(area, searching_lines(app, palette)),
        Screen::Results | Screen::Filter | Screen::Help => results_widget(app, area, palette),
    }
}

fn make_body_widget(app: &App, area: Rect, palette: &Palette) -> (r: Widget)
    ensures
        r@ == body_widget(app@, area, *palette),
        shows_results(app@) ==> rows_line_up(
            app@.filtered,
            app@.results,
            area.width,
            *palette,
        ),
{
    match app.screen {
        Screen::Prompt => make_paragraph(area, make_prompt_lines(palette)),
        Screen::Searching => make_paragraph(area, make_searching_lines(app, palette)),
        Screen::Results | Screen::Filter | Screen::Help => make_results_widget(app, area, palette),
    }
}

// ---------------------------------------------------------------------------
// The footer.
// ---------------------------------------------------------------------------

/// The keys of a screen in a line.
pub open spec fn hints_of(screen: Screen) -> Seq<char> {
    match screen {
        Screen::Prompt => "Enter  search    Esc / Ctrl-C  quit"@,
        Screen::Searching => "Esc  cancel"@,
        Screen::Results =>
            "j/k  move    Enter  play    /  filter    n  new    r  rerun    ?  help    q  quit"@,
        Screen::Filter => "type to filter    Enter  commit    Esc  cancel"@,
        Screen::Help => "any key to dismiss"@,
    }
}

/// What an error in the footer starts with.
pub open spec fn icon_of(error: LastError) -> Seq<char> {
    match error {
        LastError::Search(_) => "search error: "@,
        LastError::Player(_) => "player error: "@,
        LastError::Worker => "search error: "@,
    }
}

/// The line at the bottom: the error where there is one, and else the keys of the screen.
pub open spec fn footer_line(app: AppView, palette: Palette) -> Seq<SpanView> {
    match app.last_error {
        Some(error) => seq![
            SpanView {
                text: icon_of(error),
                style: Style { bold: true, ..scene::colored(palette.error_fg) },
            },
            SpanView { text: error.words(), style: scene::colored(palette.error_fg) },
        ],
        None => seq![
            SpanView {
                text: hints_of(app.screen),
                style: Style { dim: true, ..scene::colored(palette.hint_fg) },
            },
        ],
    }
}

fn hints_for(screen: Screen) -> (r: &'static str)
    ensures
        r@ == hints_of(screen),
{
    match screen {
        Screen::Prompt => "Enter  search    Esc / Ctrl-C  quit",
        Screen::Searching => "Esc  cancel",
        Screen::Results =>
            "j/k  move    Enter  play    /  filter    n  new    r  rerun    ?  help    q  quit",
        Screen::Filter => "type to filter    Enter  commit    Esc  cancel",
        Screen::Help => "any key to dismiss",
    }
}

fn make_footer_line(app: &App, palette: &Palette) -> (r: Line)
    ensures
        r@ == footer_line(app@, *palette),
{
    let r = match &app.last_error {
        Some(error) => {
            let icon = match error {
                LastError::Search(_) => "search error: ",
                LastError::Player(_) => "player error: ",
                LastError::Worker => "search error: ",
            };
            let message = error.message();
            Line::empty().with(icon, Style::colored(palette.error_fg).bold()).with(
                message.as_str(),
                Style::colored(palette.error_fg),
            )
        },
        None => Line::empty().with(
            hints_for(app.screen),
            Style::colored(palette.hint_fg).dim(),
        ),
    };
    assert(r@ =~= footer_line(app@, *palette));
    r
}

// ---------------------------------------------------------------------------
// The screen.
// ---------------------------------------------------------------------------

/// Whether the screen can be laid out in an area.
pub open spec fn has_room(area: Rect) -> bool {
    area.width >= MIN_WIDTH && area.height >= MIN_HEIGHT
}

/// What is said where there is no room.
pub open spec fn too_small_lines() -> Seq<Seq<SpanView>> {
    seq![
        seq![
            SpanView {
                text: "Terminal too small (need at least "@ + text::decimal(MIN_WIDTH as nat) + "×"@
                    + text::decimal(MIN_HEIGHT as nat) + ")."@,
                style: scene::plain(),
            },
        ],
        seq![
            SpanView {
                text: "Resize and try again, or press q to quit."@,
                style: scene::plain(),
            },
        ],
    ]
}

fn make_too_small_lines() -> (r: Vec<Line>)
    ensures
        scene::line_views(r@) == too_small_lines(),
{
    let mut need = "Terminal too small (need at least ".to_owned();
    text::push_decimal(&mut need, MIN_WIDTH as u64);
    need.append("×");
    text::push_decimal(&mut need, MIN_HEIGHT as u64);
    need.append(").");
    let first = Line::empty().with(need.as_str(), Style::plain());
    let second = Line::empty().with("Resize and try again, or press q to quit.", Style::plain());
    let mut lines: Vec<Line> = Vec::new();
    proof {
        assert(scene::line_views(lines@) =~= Seq::empty());
        assert(first@ =~= too_small_lines()[0]);
        assert(second@ =~= too_small_lines()[1]);
    }
    push_line(&mut lines, first);
    push_line(&mut lines, second);
    assert(scene::line_views(lines@) =~= too_small_lines());
    lines
}

/// Where the header stands: in the first three rows.
pub open spec fn header_area(area: Rect) -> Rect {
    scene::rows(area, 0, 3)
}

/// Where the body stands: between the header and the footer.
pub open spec fn body_area(area: Rect) -> Rect {
    scene::rows(area, 3, area.height - 4)
}

/// Where the footer stands: in the last row.
pub open spec fn footer_area(area: Rect) -> Rect {
    scene::rows(area, area.height - 1, 1)
}

/// Where the help stands: in the middle.
pub open spec fn help_area(area: Rect) -> Rect {
    center(60, 60, area)
}

/// What the screen shows, from the widget at the bottom to the one on top.
pub open spec fn screen_of(app: AppView, area: Rect, palette: Palette) -> Seq<WidgetView> {
    if !has_room(area) {
        seq![
            WidgetView::Paragraph {
                area,
                lines: too_small_lines(),
                style: scene::colored(palette.warning_fg),
                wrapped: true,
            },
        ]
    } else {
        seq![
            WidgetView::Border { area: header_area(area), title: title_of(app) },
            paragraph(scene::inside(header_area(area)), seq![header_line(app, palette)]),
            WidgetView::Border { area: body_area(area), title: ""@ },
            body_widget(app, scene::inside(body_area(area)), palette),
            paragraph(footer_area(area), seq![footer_line(app, palette)]),
        ] + (if app.screen == Screen::Help {
            seq![
                WidgetView::Clear { area: help_area(area) },
                WidgetView::Border { area: help_area(area), title: " Keys "@ },
                paragraph(scene::inside(help_area(area)), help_lines(palette)),
            ]
        } else {
            Seq::empty()
        })
    }
}

/// The state after it was drawn: where there is room, it knows how many rows the list has.
pub open spec fn after_draw(app: AppView, area: Rect) -> AppView {
    if has_room(area) {
        AppView { list_height: scene::inside(body_area(area)).height, ..app }
    } else {
        app
    }
}

fn push_help(widgets: &mut Vec<Widget>, area: Rect, palette: &Palette)
    requires
        area.fits(),
    ensures
        scene::widget_views(final(widgets)@) == scene::widget_views(old(widgets)@) + seq![
            WidgetView::Clear { area: help_area(area) },
            WidgetView::Border { area: help_area(area), title: " Keys "@ },
            paragraph(scene::inside(help_area(area)), help_lines(*palette)),
        ],
{
    let popup = centered_rect(60, 60, area);
    let inner = inner_area(popup);
    push_widget(widgets, Widget::Clear { area: popup });
    push_widget(widgets, Widget::Border { area: popup, title: " Keys ".to_owned() });
    push_widget(widgets, make_paragraph(inner, make_help_lines(palette)));
    assert(scene::widget_views(widgets@) =~= scene::widget_views(old(widgets)@) + seq![
        WidgetView::Clear { area: help_area(area) },
        WidgetView::Border { area: help_area(area), title: " Keys "@ },
        paragraph(scene::inside(help_area(area)), help_lines(*palette)),
    ]);
}

/// What the screen shows in `area`, from the widget at the bottom to the one on top. The state
/// learns how many rows the list has. The rows line up.
pub fn draw(area: Rect, app: &mut App, palette: &Palette) -> (r: Vec<Widget>)
    requires
        area.fits(),
    ensures
        scene::widget_views(r@) == screen_of(old(app)@, area, *palette),
        final(app)@ == after_draw(old(app)@, area),
        has_room(area) && shows_results(old(app)@) ==> rows_line_up(
            old(app)@.filtered,
            old(app)@.results,
            scene::inside(body_area(area)).width,
            *palette,
        ),
{
    let mut widgets: Vec<Widget> = Vec::new();
    assert(scene::widget_views(widgets@) =~= Seq::empty());
    if area.width < MIN_WIDTH || area.height < MIN_HEIGHT {
        let style = Style::colored(palette.warning_fg);
        let lines = make_too_small_lines();
        push_widget(&mut widgets, Widget::Paragraph { area, lines, style, wrapped: true });
        assert(scene::widget_views(widgets@) =~= screen_of(old(app)@, area, *palette));
        return widgets;
    }
    let (header, body, footer) = split_rows(area, 3, 1, 1);
    let header_inner = inner_area(header);
    let body_inner = inner_area(body);
    push_widget(&mut widgets, Widget::Border { area: header, title: make_title(app) });
    push_widget(&mut widgets, make_single(header_inner, make_header_line(app, palette)));
    push_widget(&mut widgets, Widget::Border { area: body, title: "".to_owned() });
    push_widget(&mut widgets, make_body_widget(app, body_inner, palette));
    push_widget(&mut widgets, make_single(footer, make_footer_line(app, palette)));
    if app.screen == Screen::Help {
        push_help(&mut widgets, area, palette);
    }
    app.set_list_height(body_inner.height);
    assert(scene::widget_views(widgets@) =~= screen_of(old(app)@, area, *palette));
    widgets
}

} // verus!
