//! What holds of every screen.

use crate::app::{AppView, Screen};
use crate::app_laws;
use crate::palette::{Color, Palette};
use crate::scene;
use crate::scene::{Rect, SpanView, Style, WidgetView};
use crate::search;
use crate::search::{SearchResult, VideoDuration};
use crate::search_laws;
use crate::text;
use crate::text_laws;
use crate::tui;
use crate::width;
use vstd::prelude::*;

verus! {

broadcast use vstd::seq::group_seq_axioms;

/// On the selected row no text has the color of the selection: a row does not lose its channel or
/// its duration by being selected.
pub proof fn law_the_selected_row_is_readable(
    app: AppView,
    area: Rect,
    palette: Palette,
    span: int,
)
    requires
        app.results.len() > 0,
        tui::rows_of(app.filtered, app.results, area.width, palette).len() > 0,
    ensures
        ({
            let plain = tui::rows_of(app.filtered, app.results, area.width, palette);
            let place = tui::marked(app.selected, plain.len());
            tui::results_widget(app, area, palette) matches WidgetView::List { rows, highlight, .. }
                && highlight.bg == Some(palette.selection_bg) && 0 <= place < rows.len() && (0
                <= span < rows[place].len() ==> rows[place][span].style.fg != highlight.bg)
        }),
{
    assert(app.filtered.len() > 0);
}

/// A list of shown places that all have a result has one row for each, in order.
pub proof fn law_every_shown_result_has_its_row(
    filtered: Seq<usize>,
    results: Seq<SearchResult>,
    width: u16,
    palette: Palette,
)
    requires
        forall|i: int| 0 <= i < filtered.len() ==> #[trigger] filtered[i] < results.len(),
    ensures
        tui::rows_of(filtered, results, width, palette).len() == filtered.len(),
        forall|i: int|
            0 <= i < filtered.len() ==> #[trigger] tui::rows_of(
                filtered,
                results,
                width,
                palette,
            )[i] == tui::row_of(results[filtered[i] as int], width, palette),
    decreases filtered.len(),
{
    if filtered.len() > 0 {
        law_every_shown_result_has_its_row(filtered.drop_last(), results, width, palette);
    }
}

/// Where a row has columns for everything, its columns together with the two for the symbol of
/// the selection leave two columns free at the right edge.
pub proof fn law_a_row_fills_its_width(width: u16, duration_columns: int)
    requires
        0 <= duration_columns,
        width >= 6 + tui::channel_budget(width) + duration_columns,
    ensures
        2 + tui::title_budget(width, duration_columns) + 1 + tui::channel_budget(width) + 1
            + duration_columns == width - 2,
{
}

/// The channel has the color for channels, and the duration the color for durations.
pub proof fn law_a_row_takes_its_colors_from_the_palette(
    result: SearchResult,
    width: u16,
    palette: Palette,
)
    ensures
        tui::row_of(result, width, palette)[2].style.fg == Some(palette.channel_fg),
        tui::row_of(result, width, palette)[4].style.fg == Some(palette.duration_fg),
{
}

/// What a search does has a color of its own: whatever the other colors are, it has the color for
/// progress.
pub proof fn law_progress_has_its_own_color(app: AppView, area: Rect, palette: Palette)
    requires
        app.screen == Screen::Searching,
    ensures
        tui::body_widget(app, area, palette) matches WidgetView::Paragraph { lines, .. }
            && lines[1][0].style.fg == Some(palette.progress_fg) && lines[1][0].text
            == "yt-dlp ytsearch:"@ + tui::asked_query(app) + "…"@,
{
}

/// An error takes the footer, and without one the footer shows the keys of the screen.
pub proof fn law_the_footer_shows_the_error(app: AppView, palette: Palette)
    ensures
        app.last_error matches Some(error) ==> tui::footer_line(app, palette).len() == 2
            && tui::footer_line(app, palette)[1].text == error.words(),
        app.last_error is None ==> tui::footer_line(app, palette).len() == 1
            && tui::footer_line(app, palette)[0].text == tui::hints_of(app.screen),
{
}

/// The header, the body and the footer are one below the other and take up the whole area.
pub proof fn law_the_parts_fill_the_screen(area: Rect)
    requires
        area.fits(),
        tui::has_room(area),
    ensures
        tui::header_area(area).y == area.y,
        tui::header_area(area).y + tui::header_area(area).height == tui::body_area(area).y,
        tui::body_area(area).y + tui::body_area(area).height == tui::footer_area(area).y,
        tui::footer_area(area).y + tui::footer_area(area).height == area.y + area.height,
        tui::header_area(area).width == area.width,
        tui::body_area(area).width == area.width,
        tui::footer_area(area).width == area.width,
{
}

/// The middle of an area lies in it.
pub proof fn law_the_center_lies_inside(percent_x: int, percent_y: int, area: Rect)
    requires
        0 <= percent_x <= 100,
        0 <= percent_y <= 100,
        area.fits(),
    ensures
        tui::center(percent_x, percent_y, area).lies_in(area),
        tui::center(percent_x, percent_y, area).fits(),
{
    tui::lemma_shares(area.height, (100 - percent_y) / 2, (100 - percent_y) / 2 + percent_y);
    tui::lemma_shares(area.width, (100 - percent_x) / 2, (100 - percent_x) / 2 + percent_x);
}

/// Nothing is painted outside the area.
pub proof fn law_nothing_is_painted_outside(app: AppView, area: Rect, palette: Palette, i: int)
    requires
        area.fits(),
        0 <= i < tui::screen_of(app, area, palette).len(),
    ensures
        tui::screen_of(app, area, palette)[i].area().lies_in(area),
{
    law_the_center_lies_inside(60, 60, area);
    scene::law_the_inside_lies_inside(tui::help_area(area));
}

/// The help is painted on its screen and on no other.
pub proof fn law_help_is_painted_on_its_screen_only(app: AppView, area: Rect, palette: Palette)
    requires
        tui::has_room(area),
    ensures
        app.screen == Screen::Help ==> tui::screen_of(app, area, palette).len() == 8,
        app.screen != Screen::Help ==> tui::screen_of(app, area, palette).len() == 5,
{
}

/// Below the help the results stay as they are.
pub proof fn law_the_results_lie_below_the_help(app: AppView, area: Rect, palette: Palette)
    requires
        tui::has_room(area),
        app.screen == Screen::Help,
    ensures
        tui::screen_of(app, area, palette).take(4) == tui::screen_of(
            AppView { screen: Screen::Results, ..app },
            area,
            palette,
        ).take(4),
{
    assert(tui::screen_of(app, area, palette).take(4) =~= tui::screen_of(
        AppView { screen: Screen::Results, ..app },
        area,
        palette,
    ).take(4));
}

/// Drawing changes nothing that is drawn, and drawing again changes nothing at all.
pub proof fn law_drawing_twice_shows_the_same(app: AppView, area: Rect, palette: Palette)
    ensures
        tui::screen_of(tui::after_draw(app, area), area, palette) == tui::screen_of(
            app,
            area,
            palette,
        ),
        tui::after_draw(tui::after_draw(app, area), area) == tui::after_draw(app, area),
{
}

/// Drawing keeps a consistent state consistent.
pub proof fn law_drawing_keeps_the_state_consistent(app: AppView, area: Rect)
    requires
        app_laws::consistent(app),
    ensures
        app_laws::consistent(tui::after_draw(app, area)),
{
}

/// In an area that is too small nothing but a notice is painted, and the state stays as it was.
pub proof fn law_too_small_a_terminal_shows_a_notice(app: AppView, area: Rect, palette: Palette)
    requires
        area.width < tui::MIN_WIDTH || area.height < tui::MIN_HEIGHT,
    ensures
        tui::screen_of(app, area, palette).len() == 1,
        tui::screen_of(app, area, palette)[0] matches WidgetView::Paragraph { lines, .. } && lines
            == tui::too_small_lines(),
        tui::after_draw(app, area) == app,
{
}

// ---------------------------------------------------------------------------
// A row.
// ---------------------------------------------------------------------------

/// A length in a row is read back as itself, and what has no known length is said in a word.
pub proof fn law_a_length_in_a_row_is_read_back(duration: VideoDuration, shown: String)
    requires
        call_ensures(tui::format_duration, (&duration,), shown),
    ensures
        duration matches VideoDuration::Seconds(seconds) ==> search_laws::seconds_shown(shown@)
            == seconds && shown@ == search::clock(seconds as nat),
        duration is Live ==> shown@ == "LIVE"@,
        duration is Upcoming ==> shown@ == "UPCOMING"@,
        duration is Unknown ==> shown@ == "—"@,
{
    if let VideoDuration::Seconds(seconds) = duration {
        search_laws::law_a_known_length_is_said_as_a_clock_face(seconds);
    }
}

/// The channel has a quarter of the width of a row, rounded down, but no fewer than eight columns
/// and no more than thirty-two.
pub proof fn law_the_channel_has_a_quarter(width: u16)
    ensures
        8 <= tui::channel_budget(width) <= 32,
        32 <= width < 132 ==> 4 * tui::channel_budget(width) <= width < 4 * tui::channel_budget(
            width,
        ) + 4,
        width < 32 ==> tui::channel_budget(width) == 8,
        width >= 128 ==> tui::channel_budget(width) == 32,
{
}

/// The title has what the channel, the duration and six columns for the symbol of the selection and
/// the gaps leave of the width, and nothing where they leave nothing.
pub proof fn law_the_title_has_the_rest(width: u16, duration_columns: int)
    ensures
        tui::title_budget(width, duration_columns) == if width >= 6 + tui::channel_budget(width)
            + duration_columns {
            width - 6 - tui::channel_budget(width) - duration_columns
        } else {
            0
        },
{
}

/// How text looks that has a color and nothing else.
pub open spec fn in_color(fg: Color, bold: bool, dim: bool) -> Style {
    Style { fg: Some(fg), bg: None, bold, dim }
}

/// How text looks that has no color of its own.
pub open spec fn without_color(dim: bool) -> Style {
    Style { fg: None, bg: None, bold: false, dim }
}

/// A row shows the title, the channel and the duration of its result, in this order and with
/// nothing but spaces between them: the title and the channel cut to their columns, and the whole
/// duration. A result without a channel says so.
pub proof fn law_a_row_shows_its_result(result: SearchResult, width: u16, palette: Palette)
    ensures
        ({
            let row = tui::row_of(result, width, palette);
            let duration = row[4].text;
            let taken = width::display_width(duration);
            let counted = if taken <= u16::MAX {
                taken as int
            } else {
                u16::MAX as int
            };
            &&& row.len() == 5
            &&& row[0].text == width::truncated(
                result.title@,
                tui::title_budget(width, counted) as nat,
            )
            &&& row[2].text == width::truncated(
                if result.channel is Some {
                    result.channel->0@
                } else {
                    "[no channel]"@
                },
                tui::channel_budget(width) as nat,
            )
            &&& result.duration matches VideoDuration::Seconds(seconds)
                ==> search_laws::seconds_shown(duration) == seconds
            &&& result.duration is Live ==> duration == "LIVE"@
            &&& result.duration is Upcoming ==> duration == "UPCOMING"@
            &&& result.duration is Unknown ==> duration == "—"@
            &&& forall|i: int| 0 <= i < row[1].text.len() ==> #[trigger] row[1].text[i] == ' '
            &&& forall|i: int| 0 <= i < row[3].text.len() ==> #[trigger] row[3].text[i] == ' '
            &&& row[1].text.len() > 0 && row[3].text.len() > 0
            &&& row[0].style == without_color(false)
            &&& row[1].style == without_color(false)
            &&& row[2].style == in_color(palette.channel_fg, false, false)
            &&& row[3].style == without_color(false)
            &&& row[4].style == in_color(palette.duration_fg, false, true)
        }),
{
    if let VideoDuration::Seconds(seconds) = result.duration {
        search_laws::law_a_known_length_is_said_as_a_clock_face(seconds);
    }
}

/// A title that fits into its columns stands in the row as it is, and so does a channel.
pub proof fn law_names_that_fit_are_shown_whole(result: SearchResult, width: u16, palette: Palette)
    ensures
        ({
            let row = tui::row_of(result, width, palette);
            let columns = tui::title_budget(width, tui::counted(row[4].text));
            &&& width::display_width(result.title@) <= columns && columns > 0 ==> row[0].text
                == result.title@
            &&& result.channel matches Some(channel) ==> width::display_width(channel@)
                <= tui::channel_budget(width) ==> row[2].text == channel@
        }),
{
    law_a_row_shows_its_result(result, width, palette);
}

// ---------------------------------------------------------------------------
// The body.
// ---------------------------------------------------------------------------

/// The list has one row for each result that is shown, in order, and the selection of the state is
/// its selection. Every row but the selected one is that of its result, and the selected one has the
/// same texts.
pub proof fn law_the_list_shows_what_is_shown(app: AppView, area: Rect, palette: Palette, i: int)
    requires
        app_laws::consistent(app),
        0 <= i < app.filtered.len(),
    ensures
        tui::results_widget(app, area, palette) matches WidgetView::List {
            area: at,
            rows,
            selected,
            highlight,
            symbol,
        } && {
            let plain = tui::row_of(app.results[app.filtered[i] as int], area.width, palette);
            &&& at == area
            &&& rows.len() == app.filtered.len()
            &&& selected == app.selected
            &&& i != app.selected ==> rows[i] == plain
            &&& rows[i].len() == plain.len()
            &&& forall|j: int|
                0 <= j < plain.len() ==> (#[trigger] rows[i][j]).text == plain[j].text && (
                rows[i][j].style == plain[j].style || i == app.selected && plain[j].style.fg == Some(
                    palette.selection_bg,
                ))
            &&& highlight == (Style {
                fg: None,
                bg: Some(palette.selection_bg),
                bold: true,
                dim: false,
            })
            &&& symbol == "▶ "@
        },
{
    law_every_shown_result_has_its_row(app.filtered, app.results, area.width, palette);
    assert(app.filtered[i] < app.results.len());
}

/// Whether a widget is a single line with a single text in it.
pub open spec fn says(widget: WidgetView, area: Rect, text: Seq<char>, style: Style) -> bool {
    widget matches WidgetView::Paragraph { area: at, lines, style: whole, wrapped } && at == area
        && lines == seq![seq![SpanView { text, style }]] && whole == without_color(false)
        && !wrapped
}

/// A search that found nothing says so, and a filter that nothing matches names what was looked for.
pub proof fn law_an_empty_list_says_why(app: AppView, area: Rect, palette: Palette)
    ensures
        app.results.len() == 0 ==> says(
            tui::results_widget(app, area, palette),
            area,
            "No results."@,
            without_color(true),
        ),
        app.results.len() > 0 && app.filtered.len() == 0 ==> says(
            tui::results_widget(app, area, palette),
            area,
            "No matches for "@ + text::quoted(app.input) + "."@,
            in_color(palette.warning_fg, false, false),
        ),
        app.results.len() > 0 && app.filtered.len() > 0 ==> tui::results_widget(app, area, palette)
            is List,
{
}

/// The prompt shows what can be typed, a search that goes on shows what is searched for, and every
/// other screen shows the results, in the same way.
pub proof fn law_what_the_body_shows(app: AppView, area: Rect, palette: Palette)
    ensures
        app.screen == Screen::Prompt ==> (tui::body_widget(app, area, palette)
            matches WidgetView::Paragraph { area: at, lines, .. } && at == area && lines
            == tui::prompt_lines(palette)),
        app.screen == Screen::Searching ==> (tui::body_widget(app, area, palette)
            matches WidgetView::Paragraph { area: at, lines, .. } && at == area && lines.len() == 4
            && lines[1] == seq![
            (SpanView {
                text: "yt-dlp ytsearch:"@ + (if app.committed_query is Some {
                    app.committed_query->0
                } else {
                    ""@
                }) + "…"@,
                style: in_color(palette.progress_fg, false, false),
            }),
        ] && lines[3] == seq![
            (SpanView { text: "Press Esc to cancel."@, style: without_color(true) }),
        ]),
        app.screen != Screen::Prompt && app.screen != Screen::Searching ==> tui::body_widget(
            app,
            area,
            palette,
        ) == tui::results_widget(app, area, palette),
{
    if app.screen == Screen::Searching {
        let lines = tui::searching_lines(app, palette);
        assert(lines[3] =~= seq![
            (SpanView { text: "Press Esc to cancel."@, style: without_color(true) }),
        ]);
    }
}

/// Every line of the help has a key in bold, in the color for keys and filled up to eighteen
/// characters, and then what the key does; and what the lines say does not depend on the colors.
pub proof fn law_the_help_names_keys_and_what_they_do(palette: Palette, other: Palette, i: int)
    requires
        0 <= i < tui::help_lines(palette).len(),
    ensures
        tui::help_lines(palette).len() == tui::help_lines(other).len() == 11,
        tui::help_lines(palette)[i].len() == 2,
        tui::help_lines(palette)[i][0].text.len() == 18,
        tui::help_lines(palette)[i][0].style == in_color(palette.keycap_fg, true, false),
        tui::help_lines(palette)[i][1].style == without_color(false),
        tui::help_lines(palette)[i][0].text == tui::help_lines(other)[i][0].text,
        tui::help_lines(palette)[i][1].text == tui::help_lines(other)[i][1].text,
{
    reveal_strlit("j / ↓");
    reveal_strlit("k / ↑");
    reveal_strlit("gg");
    reveal_strlit("G");
    reveal_strlit("Ctrl-d / Ctrl-u");
    reveal_strlit("Enter");
    reveal_strlit("/");
    reveal_strlit("n");
    reveal_strlit("r");
    reveal_strlit("?");
    reveal_strlit("q / Esc");
}

/// The help speaks of every key of the results, each before what it does.
pub proof fn law_the_help_speaks_of_every_key(palette: Palette)
    ensures
        ({
            let lines = tui::help_lines(palette);
            &&& lines[0] == tui::binding_of("j / ↓"@, "next result"@, palette)
            &&& lines[1] == tui::binding_of("k / ↑"@, "previous result"@, palette)
            &&& lines[2] == tui::binding_of("gg"@, "jump to first"@, palette)
            &&& lines[3] == tui::binding_of("G"@, "jump to last"@, palette)
            &&& lines[4] == tui::binding_of("Ctrl-d / Ctrl-u"@, "half-page down / up"@, palette)
            &&& lines[5] == tui::binding_of(
                "Enter"@,
                "play selected (or commit query)"@,
                palette,
            )
            &&& lines[6] == tui::binding_of("/"@, "filter current results"@, palette)
            &&& lines[7] == tui::binding_of("n"@, "new search"@, palette)
            &&& lines[8] == tui::binding_of("r"@, "re-run current search"@, palette)
            &&& lines[9] == tui::binding_of("?"@, "this help"@, palette)
            &&& lines[10] == tui::binding_of("q / Esc"@, "quit"@, palette)
        }),
{
}

/// What the prompt says does not depend on the colors: thirteen lines, the keys among them each
/// after an indent and before what it does, in the color for keys.
pub proof fn law_the_prompt_names_the_keys(palette: Palette, other: Palette, i: int, j: int)
    requires
        0 <= i < 13,
        0 <= j < tui::prompt_lines(palette)[i].len(),
    ensures
        tui::prompt_lines(palette).len() == tui::prompt_lines(other).len() == 13,
        tui::prompt_lines(palette)[i].len() == tui::prompt_lines(other)[i].len(),
        tui::prompt_lines(palette)[i][j].text == tui::prompt_lines(other)[i][j].text,
        i >= 3 ==> tui::prompt_lines(palette)[i].len() == 3 && tui::prompt_lines(palette)[i][1].style
            == in_color(palette.keycap_fg, true, false),
{
}

/// A key in the help stands as it is, with spaces after it, before what it does.
pub proof fn law_a_key_stands_before_what_it_does(key: Seq<char>, does: Seq<char>, palette: Palette)
    requires
        key.len() <= 18,
    ensures
        tui::binding_of(key, does, palette).len() == 2,
        tui::binding_of(key, does, palette)[0].text.len() == 18,
        tui::binding_of(key, does, palette)[0].text.take(key.len() as int) == key,
        forall|i: int|
            key.len() <= i < 18 ==> #[trigger] tui::binding_of(key, does, palette)[0].text[i]
                == ' ',
        tui::binding_of(key, does, palette)[1].text == does,
{
    text_laws::law_padding_adds_spaces_alone(key, 18);
}

// ---------------------------------------------------------------------------
// The header and the footer.
// ---------------------------------------------------------------------------

/// The title of the results tells how many are shown, in digits that are read back as their number,
/// in the singular for one alone, and for which query, in quotes.
pub proof fn law_the_title_counts_what_is_shown(app: AppView)
    requires
        app.screen == Screen::Results || app.screen == Screen::Filter || app.screen == Screen::Help,
    ensures
        ({
            let title = tui::title_of(app);
            let start = " yttui — "@;
            let end = (if app.filtered.len() == 1 {
                " result for "@
            } else {
                " results for "@
            }) + text::quoted(
                if app.committed_query is Some {
                    app.committed_query->0
                } else {
                    ""@
                },
            ) + " "@;
            &&& title.len() > start.len() + end.len()
            &&& title.take(start.len() as int) == start
            &&& title.skip(title.len() - end.len()) == end
            &&& text_laws::all_digits(title.subrange(start.len() as int, title.len() - end.len()))
            &&& text_laws::number(title.subrange(start.len() as int, title.len() - end.len()))
                == app.filtered.len()
        }),
{
    text_laws::law_a_number_is_read_back(app.filtered.len());
    let title = tui::title_of(app);
    let start = " yttui — "@;
    let digits = text::decimal(app.filtered.len());
    let end = (if app.filtered.len() == 1 {
        " result for "@
    } else {
        " results for "@
    }) + text::quoted(
        if app.committed_query is Some {
            app.committed_query->0
        } else {
            ""@
        },
    ) + " "@;
    assert(title =~= start + digits + end);
    assert(title.take(start.len() as int) =~= start);
    assert(title.skip(title.len() - end.len()) =~= end);
    assert(title.subrange(start.len() as int, title.len() - end.len()) =~= digits);
}

/// The title of a search that goes on names its query, in quotes, and that of the prompt names none.
pub proof fn law_the_title_names_the_query(app: AppView)
    ensures
        app.screen == Screen::Searching ==> tui::title_of(app) == " yttui — searching for "@
            + text::quoted(
            if app.committed_query is Some {
                app.committed_query->0
            } else {
                ""@
            },
        ) + " "@,
        app.screen == Screen::Prompt ==> tui::title_of(app) == " yttui — search "@,
{
}

/// The line below the title shows what is typed, where something is typed, between a marker and the
/// cursor; on the results and the help what was searched for, if anything was; and while a search
/// goes on how to give it up.
pub proof fn law_the_header_shows_what_is_typed(app: AppView, palette: Palette)
    ensures
        ({
            let line = tui::header_line(app, palette);
            let cursor = SpanView {
                text: "│"@,
                style: in_color(palette.cursor_fg, false, false),
            };
            let typed = SpanView { text: app.input, style: without_color(false) };
            &&& app.screen == Screen::Prompt ==> line == seq![
                (SpanView {
                    text: "yt> "@,
                    style: in_color(palette.prompt_marker_fg, false, false),
                }),
                typed,
                cursor,
            ]
            &&& app.screen == Screen::Filter ==> line == seq![
                (SpanView {
                    text: "/"@,
                    style: in_color(palette.filter_marker_fg, false, false),
                }),
                typed,
                cursor,
            ]
            &&& app.screen == Screen::Results || app.screen == Screen::Help
                ==> match app.committed_query {
                Some(query) => line == seq![
                    (SpanView {
                        text: "yt> "@,
                        style: in_color(palette.prompt_marker_inactive_fg, false, false),
                    }),
                    (SpanView { text: query, style: without_color(false) }),
                ],
                None => line.len() == 0,
            }
            &&& app.screen == Screen::Searching ==> line == seq![
                (SpanView {
                    text: "Searching… (Esc to cancel)"@,
                    style: without_color(true),
                }),
            ]
        }),
{
    let line = tui::header_line(app, palette);
    if app.screen == Screen::Searching {
        assert(line =~= seq![
            (SpanView { text: "Searching… (Esc to cancel)"@, style: without_color(true) }),
        ]);
    }
}

/// An error in the footer is said in its own words, in the color for errors, after what failed: the
/// player, or else the search. Without an error the footer has the keys of the screen.
pub proof fn law_the_footer_says_what_failed(app: AppView, palette: Palette)
    ensures
        app.last_error matches Some(error) ==> tui::footer_line(app, palette) == seq![
            (SpanView {
                text: if error is Player {
                    "player error: "@
                } else {
                    "search error: "@
                },
                style: in_color(palette.error_fg, true, false),
            }),
            (SpanView {
                text: error.words(),
                style: in_color(palette.error_fg, false, false),
            }),
        ],
        app.last_error is None ==> tui::footer_line(app, palette) == seq![
            (SpanView {
                text: match app.screen {
                    Screen::Prompt => "Enter  search    Esc / Ctrl-C  quit"@,
                    Screen::Searching => "Esc  cancel"@,
                    Screen::Results =>
                        "j/k  move    Enter  play    /  filter    n  new    r  rerun    ?  help    q  quit"@,
                    Screen::Filter => "type to filter    Enter  commit    Esc  cancel"@,
                    Screen::Help => "any key to dismiss"@,
                },
                style: in_color(palette.hint_fg, false, true),
            }),
        ],
{
}

// ---------------------------------------------------------------------------
// The screen.
// ---------------------------------------------------------------------------

/// The screen is laid out in sixty columns and twenty rows and more, and in nothing less.
pub proof fn law_how_much_room_is_needed(area: Rect)
    ensures
        tui::has_room(area) <==> area.width >= 60 && area.height >= 20,
{
}

/// The header has three rows and the footer one, each as wide as the screen; the list has the rows
/// between them but for the two of its border, and the state learns how many these are.
pub proof fn law_how_high_the_parts_are(app: AppView, area: Rect)
    requires
        area.fits(),
        area.width >= 60,
        area.height >= 20,
    ensures
        tui::header_area(area) == (Rect { x: area.x, y: area.y, width: area.width, height: 3 }),
        tui::body_area(area) == (Rect {
            x: area.x,
            y: (area.y + 3) as u16,
            width: area.width,
            height: (area.height - 4) as u16,
        }),
        tui::footer_area(area) == (Rect {
            x: area.x,
            y: (area.y + area.height - 1) as u16,
            width: area.width,
            height: 1,
        }),
        tui::after_draw(app, area) == (AppView { list_height: (area.height - 6) as u16, ..app }),
{
}

/// Whether a widget is one line of text in an area.
pub open spec fn holds_line(widget: WidgetView, area: Rect, line: Seq<SpanView>) -> bool {
    widget matches WidgetView::Paragraph { area: at, lines, style, wrapped } && at == area && lines
        == seq![line] && style == without_color(false) && !wrapped
}

/// What stands where: the title in the border of the header and the line below it inside, the body
/// inside its border, and the footer; on the help, its keys above all that, in a cleared area with a
/// border.
pub proof fn law_what_stands_where(app: AppView, area: Rect, palette: Palette)
    requires
        area.fits(),
        tui::has_room(area),
    ensures
        ({
            let screen = tui::screen_of(app, area, palette);
            let help = tui::help_area(area);
            &&& screen.len() == if app.screen == Screen::Help {
                8int
            } else {
                5int
            }
            &&& screen[0] == WidgetView::Border {
                area: tui::header_area(area),
                title: tui::title_of(app),
            }
            &&& holds_line(
                screen[1],
                Rect {
                    x: (area.x + 1) as u16,
                    y: (area.y + 1) as u16,
                    width: (area.width - 2) as u16,
                    height: 1,
                },
                tui::header_line(app, palette),
            )
            &&& screen[2] == WidgetView::Border { area: tui::body_area(area), title: ""@ }
            &&& screen[3] == tui::body_widget(
                app,
                Rect {
                    x: (area.x + 1) as u16,
                    y: (area.y + 4) as u16,
                    width: (area.width - 2) as u16,
                    height: (area.height - 6) as u16,
                },
                palette,
            )
            &&& holds_line(screen[4], tui::footer_area(area), tui::footer_line(app, palette))
            &&& app.screen == Screen::Help ==> {
                &&& screen[5] == WidgetView::Clear { area: help }
                &&& screen[6] == WidgetView::Border { area: help, title: " Keys "@ }
                &&& screen[7] matches WidgetView::Paragraph { area: at, lines, .. } && at
                    == scene::inside(help) && lines == tui::help_lines(palette)
            }
        }),
{
}

/// The help has about three fifths of the screen, to within a cell, and stands in its middle, to
/// within a cell.
pub proof fn law_the_help_stands_in_the_middle(area: Rect)
    requires
        area.fits(),
    ensures
        ({
            let help = tui::help_area(area);
            let left = help.x - area.x;
            let right = area.x + area.width - help.x - help.width;
            let above = help.y - area.y;
            let below = area.y + area.height - help.y - help.height;
            &&& -1 <= left - right <= 1
            &&& -1 <= above - below <= 1
            &&& 3 * area.width - 5 <= 5 * help.width <= 3 * area.width + 5
            &&& 3 * area.height - 5 <= 5 * help.height <= 3 * area.height + 5
        }),
{
    tui::lemma_shares(area.height, 20, 80);
    tui::lemma_shares(area.width, 20, 80);
}

} // verus!
