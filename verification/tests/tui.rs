use ratatui::backend::TestBackend;
use ratatui::buffer::Buffer;
use ratatui::Terminal;
use yttui::app::{App, LastError, Screen};
use yttui::palette::{Color, Palette};
use yttui::player::PlayerError;
use yttui::scene::{make_readable, Line, Rect, Style, Widget};
use yttui::search::{SearchResult, VideoDuration};
use yttui::tui::{centered_rect, channel_columns, draw, format_duration, render_row, screen_title, title_columns};
use yttui::width::{cut_to_width, greedy_prefix, truncate_to_width};

fn terminal_color(color: Color) -> ratatui::style::Color {
    match color {
        Color::Reset => ratatui::style::Color::Reset,
        Color::Black => ratatui::style::Color::Black,
        Color::Red => ratatui::style::Color::Red,
        Color::Green => ratatui::style::Color::Green,
        Color::Yellow => ratatui::style::Color::Yellow,
        Color::Blue => ratatui::style::Color::Blue,
        Color::Magenta => ratatui::style::Color::Magenta,
        Color::Cyan => ratatui::style::Color::Cyan,
        Color::Gray => ratatui::style::Color::Gray,
        Color::DarkGray => ratatui::style::Color::DarkGray,
        Color::LightRed => ratatui::style::Color::LightRed,
        Color::LightGreen => ratatui::style::Color::LightGreen,
        Color::LightYellow => ratatui::style::Color::LightYellow,
        Color::LightBlue => ratatui::style::Color::LightBlue,
        Color::LightMagenta => ratatui::style::Color::LightMagenta,
        Color::LightCyan => ratatui::style::Color::LightCyan,
        Color::White => ratatui::style::Color::White,
        Color::Rgb(r, g, b) => ratatui::style::Color::Rgb(r, g, b),
        Color::Indexed(i) => ratatui::style::Color::Indexed(i),
    }
}

fn terminal_style(style: Style) -> ratatui::style::Style {
    let mut out = ratatui::style::Style::default();
    if let Some(fg) = style.fg {
        out = out.fg(terminal_color(fg));
    }
    if let Some(bg) = style.bg {
        out = out.bg(terminal_color(bg));
    }
    if style.bold {
        out = out.add_modifier(ratatui::style::Modifier::BOLD);
    }
    if style.dim {
        out = out.add_modifier(ratatui::style::Modifier::DIM);
    }
    out
}

fn terminal_line(line: &Line) -> ratatui::text::Line<'static> {
    let spans: Vec<ratatui::text::Span<'static>> = line
        .spans
        .iter()
        .map(|span| ratatui::text::Span::styled(span.text.clone(), terminal_style(span.style)))
        .collect();
    ratatui::text::Line::from(spans)
}

fn terminal_rect(area: Rect) -> ratatui::layout::Rect {
    ratatui::layout::Rect { x: area.x, y: area.y, width: area.width, height: area.height }
}

fn paint(frame: &mut ratatui::Frame, widgets: &[Widget]) {
    for widget in widgets {
        match widget {
            Widget::Border { area, title } => {
                let block = ratatui::widgets::Block::default()
                    .borders(ratatui::widgets::Borders::ALL)
                    .title(title.clone());
                frame.render_widget(block, terminal_rect(*area));
            }
            Widget::Paragraph { area, lines, style, wrapped } => {
                let text: Vec<ratatui::text::Line<'static>> = lines.iter().map(terminal_line).collect();
                let mut paragraph = ratatui::widgets::Paragraph::new(text).style(terminal_style(*style));
                if *wrapped {
                    paragraph = paragraph.wrap(ratatui::widgets::Wrap { trim: false });
                }
                frame.render_widget(paragraph, terminal_rect(*area));
            }
            Widget::List { area, rows, selected, highlight, symbol } => {
                let items: Vec<ratatui::widgets::ListItem<'static>> =
                    rows.iter().map(|row| ratatui::widgets::ListItem::new(terminal_line(row))).collect();
                let list = ratatui::widgets::List::new(items)
                    .highlight_style(terminal_style(*highlight))
                    .highlight_symbol(symbol.as_str());
                let mut state = ratatui::widgets::ListState::default();
                state.select(Some(*selected));
                frame.render_stateful_widget(list, terminal_rect(*area), &mut state);
            }
            Widget::Clear { area } => frame.render_widget(ratatui::widgets::Clear, terminal_rect(*area)),
        }
    }
}

/// A row of the screen as text.
fn row_text(buf: &Buffer, y: u16) -> String {
    (0..buf.area().width).map(|x| buf[(x, y)].symbol()).collect()
}

fn searching_app(query: &str) -> App {
    let mut app = App::new();
    app.committed_query = Some(query.to_string());
    app.screen = Screen::Searching;
    app
}

fn results_app_with(rows: &[(&str, &str, &str)]) -> App {
    let mut app = App::new();
    app.results = rows
        .iter()
        .map(|(id, title, ch)| SearchResult {
            id: (*id).to_string(),
            title: (*title).to_string(),
            channel: Some((*ch).to_string()),
            duration: VideoDuration::Seconds(60),
        })
        .collect();
    app.committed_query = Some("q".to_string());
    app.recompute_filter();
    app.screen = Screen::Results;
    app
}

fn render_to_buffer(app: &mut App, palette: &Palette, w: u16, h: u16) -> Buffer {
    let backend = TestBackend::new(w, h);
    let mut terminal = Terminal::new(backend).expect("test terminal");
    terminal
        .draw(|frame| {
            let area = frame.area();
            let area = Rect { x: area.x, y: area.y, width: area.width, height: area.height };
            paint(frame, &draw(area, app, palette));
        })
        .expect("draw to test backend");
    terminal.backend().buffer().clone()
}

/// Scan the buffer row by row for an ASCII `needle`; return the (fg, bg) of
/// the cell holding the first character of the match.
fn find_ascii_cell(buf: &Buffer, needle: &str) -> Option<(ratatui::style::Color, ratatui::style::Color)> {
    assert!(needle.is_ascii(), "find_ascii_cell needs an ASCII needle; got {needle:?}");
    let area = buf.area();
    for y in 0..area.height {
        let row = row_text(buf, y);
        if let Some(byte_idx) = row.find(needle) {
            let mut byte_pos = 0usize;
            for x in 0..area.width {
                let cell = &buf[(x, y)];
                if byte_pos == byte_idx {
                    return Some((cell.fg, cell.bg));
                }
                byte_pos += cell.symbol().len();
            }
        }
    }
    None
}

#[test]
fn channel_fg_does_not_collide_with_selection_bg_on_selected_row() {
    let palette = Palette::default();
    let mut app = results_app_with(&[
        ("a", "First video", "AliceChannel"),
        ("b", "Second clip", "BobChannel"),
    ]);
    app.selected = 0;

    let buf = render_to_buffer(&mut app, &palette, 80, 24);
    let (fg, bg) = find_ascii_cell(&buf, "Alice")
        .expect("channel name should render on selected row");
    assert_eq!(
        bg,
        terminal_color(palette.selection_bg),
        "selected row should carry the selection bg"
    );
    assert_ne!(
        fg,
        terminal_color(palette.selection_bg),
        "channel fg must not equal selection bg or text disappears"
    );
}

#[test]
fn duration_fg_does_not_collide_with_selection_bg_on_selected_row() {
    let palette = Palette::default();
    let mut app = results_app_with(&[
        ("a", "First video", "AliceChannel"),
        ("b", "Second clip", "BobChannel"),
    ]);
    app.selected = 0;

    let buf = render_to_buffer(&mut app, &palette, 80, 24);
    let (fg, bg) = find_ascii_cell(&buf, "1:00")
        .expect("duration should render on selected row");
    assert_eq!(
        bg,
        terminal_color(palette.selection_bg),
        "selected row should carry the selection bg"
    );
    assert_ne!(
        fg,
        terminal_color(palette.selection_bg),
        "duration fg must not equal selection bg or text disappears"
    );
}

#[test]
fn searching_status_follows_progress_fg_not_prompt_marker_fg() {
    let mut app = searching_app("hello");
    let p1 = Palette {
        prompt_marker_fg: Color::Cyan,
        progress_fg: Color::Magenta,
        ..Palette::default()
    };
    let p2 = Palette {
        prompt_marker_fg: Color::Cyan,
        progress_fg: Color::Green,
        ..Palette::default()
    };
    let buf1 = render_to_buffer(&mut app, &p1, 80, 24);
    let buf2 = render_to_buffer(&mut app, &p2, 80, 24);
    let (fg1, _) = find_ascii_cell(&buf1, "yt-dlp ytsearch:hello")
        .expect("status line present in buf1");
    let (fg2, _) = find_ascii_cell(&buf2, "yt-dlp ytsearch:hello")
        .expect("status line present in buf2");
    assert_eq!(fg1, terminal_color(Color::Magenta));
    assert_eq!(fg2, terminal_color(Color::Green));
}

#[test]
fn find_ascii_cell_locates_channel_when_row_contains_cjk() {
    let mut app = results_app_with(&[("a", "あいうTitle", "ChanName")]);
    app.selected = 0;
    let palette = Palette {
        channel_fg: Color::Magenta,
        ..Palette::default()
    };
    let buf = render_to_buffer(&mut app, &palette, 80, 24);
    let (fg, _) = find_ascii_cell(&buf, "ChanName")
        .expect("ChanName substring should be locatable");
    assert_eq!(
        fg,
        terminal_color(Color::Magenta),
        "helper must land on the channel cell, not the pad before it"
    );
}

#[test]
fn results_body_reads_channel_color_from_palette_not_a_literal() {
    let mut app = results_app_with(&[("a", "Title", "ChanName")]);
    app.selected = 0;

    let p1 = Palette {
        channel_fg: Color::Magenta,
        ..Palette::default()
    };
    let p2 = Palette {
        channel_fg: Color::Green,
        ..Palette::default()
    };
    let buf1 = render_to_buffer(&mut app, &p1, 80, 24);
    let buf2 = render_to_buffer(&mut app, &p2, 80, 24);
    let (fg1, _) = find_ascii_cell(&buf1, "ChanName")
        .expect("channel cell present in buf1");
    let (fg2, _) = find_ascii_cell(&buf2, "ChanName")
        .expect("channel cell present in buf2");
    assert_eq!(fg1, terminal_color(Color::Magenta));
    assert_eq!(fg2, terminal_color(Color::Green));
}

#[test]
fn format_duration_renders_each_variant() {
    assert_eq!(format_duration(&VideoDuration::Seconds(0)), "0:00");
    assert_eq!(format_duration(&VideoDuration::Seconds(59)), "0:59");
    assert_eq!(format_duration(&VideoDuration::Seconds(60)), "1:00");
    assert_eq!(format_duration(&VideoDuration::Seconds(2404)), "40:04");
    assert_eq!(
        format_duration(&VideoDuration::Seconds(3661)),
        "1:01:01"
    );
    assert_eq!(format_duration(&VideoDuration::Live), "LIVE");
    assert_eq!(format_duration(&VideoDuration::Upcoming), "UPCOMING");
    assert_eq!(format_duration(&VideoDuration::Unknown), "—");
}

#[test]
fn truncate_passes_through_when_fits() {
    assert_eq!(truncate_to_width("abc", 5), "abc");
}

#[test]
fn truncate_passes_through_at_exact_fit() {
    assert_eq!(truncate_to_width("abc", 3), "abc");
}

#[test]
fn truncate_adds_ellipsis_when_clipped() {
    assert_eq!(truncate_to_width("abcde", 3), "ab…");
}

#[test]
fn truncate_budget_zero_returns_empty() {
    assert_eq!(truncate_to_width("abc", 0), "");
    assert_eq!(truncate_to_width("", 0), "");
}

#[test]
fn truncate_budget_one_returns_first_char_when_one_fits() {
    assert_eq!(truncate_to_width("abc", 1), "a");
}

#[test]
fn truncate_respects_unicode_width() {
    assert_eq!(truncate_to_width("あいう", 4), "あ…");
}

#[test]
fn truncate_uses_full_budget_when_one_wide_char_fits_exactly() {
    assert_eq!(truncate_to_width("あいう", 2), "あ");
}

#[test]
fn truncate_keeps_ellipsis_when_a_prefix_actually_fits_in_max_minus_one() {
    assert_eq!(truncate_to_width("abcde", 4), "abc…");
}

#[test]
fn truncate_handles_empty_string() {
    assert_eq!(truncate_to_width("", 10), "");
}

#[test]
fn centered_rect_at_50_pct_is_centered() {
    let r = Rect {
        x: 0,
        y: 0,
        width: 100,
        height: 100,
    };
    let c = centered_rect(50, 50, r);
    assert_eq!(c.width, 50);
    assert_eq!(c.height, 50);
    assert_eq!(c.x, 25);
    assert_eq!(c.y, 25);
}

#[test]
fn centered_rect_at_99_pct_has_zero_margins() {
    let r = Rect {
        x: 0,
        y: 0,
        width: 100,
        height: 100,
    };
    let c = centered_rect(99, 99, r);
    assert_eq!(c.width, 99);
    assert_eq!(c.height, 99);
    assert_eq!(c.x, 0);
    assert_eq!(c.y, 0);
}

#[test]
fn centered_rect_at_100_pct_fills() {
    let r = Rect {
        x: 0,
        y: 0,
        width: 100,
        height: 100,
    };
    let c = centered_rect(100, 100, r);
    assert_eq!(c.width, 100);
    assert_eq!(c.height, 100);
}

fn rect(width: u16, height: u16) -> Rect {
    Rect { x: 0, y: 0, width, height }
}

#[test]
fn a_text_of_that_color_gets_out_of_the_way() {
    let line = Line::empty()
        .with("a", Style::colored(Color::Blue).bold())
        .with("b", Style::colored(Color::Red));
    let readable = make_readable(&line, Color::Blue);
    assert_eq!(readable.spans[0].style, Style { fg: None, bg: None, bold: true, dim: false });
    assert_eq!(readable.spans[0].text, "a");
    assert_eq!(readable.spans[1], line.spans[1]);
}

#[test]
fn only_the_selected_row_is_touched() {
    let palette = Palette::default();
    let mut app = results_app_with(&[("a", "First", "Alice"), ("b", "Second", "Bob")]);
    app.selected = 1;
    let widgets = draw(rect(80, 24), &mut app, &palette);
    match &widgets[3] {
        Widget::List { rows, selected, highlight, symbol, area } => {
            assert_eq!(*area, Rect { x: 1, y: 4, width: 78, height: 18 });
            assert_eq!((*selected, symbol.as_str()), (1, "▶ "));
            assert_eq!(highlight.bg, Some(Color::DarkGray));
            assert_eq!(rows.len(), 2);
            assert_eq!(rows[0], render_row(&app.results[0], 78, &palette));
            assert_eq!(rows[0].spans[4].style.fg, Some(Color::DarkGray));
            assert_eq!(rows[1].spans[4].style.fg, None);
            assert_eq!(rows[1].spans[2].style.fg, Some(Color::Blue));
        }
        other => panic!("expected a list, got {other:?}"),
    }
}

#[test]
fn drawing_tells_how_high_the_list_is() {
    let mut app = App::new();
    draw(rect(80, 24), &mut app, &Palette::default());
    assert_eq!(app.list_height, 18);
    draw(rect(59, 24), &mut app, &Palette::default());
    assert_eq!(app.list_height, 18);
    draw(rect(60, 20), &mut app, &Palette::default());
    assert_eq!(app.list_height, 14);
}

#[test]
fn rows_line_up_whatever_they_say() {
    let mut app = results_app_with(&[
        ("a", "あいうえお", "Alice"),
        ("b", "A very long title that does not fit into its columns at all, not even nearly", "B"),
        ("c", "Short", "A very long name of a channel"),
    ]);
    let buf = render_to_buffer(&mut app, &Palette::default(), 80, 24);
    let column = |y: u16| (0..80u16).find(|x| buf[(*x, y)].symbol() == "1" && buf[(*x + 1, y)].symbol() == ":");
    assert_eq!(column(4), Some(73));
    assert_eq!(column(5), Some(73));
    assert_eq!(column(6), Some(73));
    assert!(row_text(&buf, 5).contains('…'));
}

#[test]
fn a_row_has_its_parts() {
    let result = SearchResult {
        id: "a".to_string(),
        title: "Title".to_string(),
        channel: None,
        duration: VideoDuration::Live,
    };
    let row = render_row(&result, 60, &Palette::default());
    let parts: Vec<&str> = row.spans.iter().map(|span| span.text.as_str()).collect();
    let title_gap = " ".repeat(60 - 6 - 15 - 4 - 5 + 1);
    assert_eq!(parts, vec!["Title", title_gap.as_str(), "[no channel]", "    ", "LIVE"]);
    assert_eq!(row.spans[4].style, Style::colored(Color::DarkGray).dim());
}

#[test]
fn a_narrow_row_has_no_room_for_its_title() {
    let result = SearchResult {
        id: "a".to_string(),
        title: "Title".to_string(),
        channel: Some("Somebody".to_string()),
        duration: VideoDuration::Upcoming,
    };
    let row = render_row(&result, 10, &Palette::default());
    assert_eq!(row.spans[0].text, "");
    assert_eq!(row.spans[1].text, " ");
    assert_eq!(row.spans[2].text, "Somebody");
}

#[test]
fn what_fits_is_kept() {
    assert_eq!(greedy_prefix("abc", 2), "ab");
    assert_eq!(greedy_prefix("あいう", 5), "あい");
    assert_eq!(greedy_prefix("a\u{301}b", 1), "a\u{301}");
    assert_eq!(greedy_prefix("abc", 0), "");
    assert_eq!(truncate_to_width("あ", 1), "…");
    assert_eq!(truncate_to_width("\u{301}", 0), "");
}

#[test]
fn a_small_terminal_shows_a_notice() {
    let mut app = App::new();
    let buf = render_to_buffer(&mut app, &Palette::default(), 59, 20);
    assert!(row_text(&buf, 0).starts_with("Terminal too small (need at least 60×20)."));
    assert!(row_text(&buf, 1).starts_with("Resize and try again, or press q to quit."));
    assert_eq!(buf[(0, 0)].fg, ratatui::style::Color::Yellow);
}

#[test]
fn every_screen_has_its_title_and_its_keys() {
    let mut app = results_app_with(&[("a", "First", "Alice"), ("b", "Second", "Bob")]);
    let screens = [
        (Screen::Prompt, " yttui — search ", "Enter  search    Esc / Ctrl-C  quit"),
        (Screen::Searching, " yttui — searching for \"q\" ", "Esc  cancel"),
        (Screen::Results, " yttui — 2 results for \"q\" ", "j/k  move"),
        (Screen::Filter, " yttui — 2 results for \"q\" ", "type to filter"),
        (Screen::Help, " yttui — 2 results for \"q\" ", "any key to dismiss"),
    ];
    for (screen, title, keys) in screens {
        app.screen = screen;
        let buf = render_to_buffer(&mut app, &Palette::default(), 100, 30);
        assert!(row_text(&buf, 0).contains(title), "{screen:?}");
        assert!(row_text(&buf, 29).starts_with(keys), "{screen:?}");
    }
    app.results.pop();
    app.recompute_filter();
    app.screen = Screen::Results;
    let buf = render_to_buffer(&mut app, &Palette::default(), 100, 30);
    assert!(row_text(&buf, 0).contains(" yttui — 1 result for \"q\" "));
}

#[test]
fn the_prompt_shows_the_input_and_the_keys() {
    let mut app = App::new();
    app.input = "rust".to_string();
    let buf = render_to_buffer(&mut app, &Palette::default(), 80, 24);
    assert!(row_text(&buf, 1).contains("yt> rust│"));
    assert!(row_text(&buf, 4).contains("Type a query and press Enter."));
    assert!(row_text(&buf, 7).contains("  j / ↓             next result"));
    assert!(row_text(&buf, 16).contains("  q / Esc           quit"));
}

#[test]
fn nothing_found_and_nothing_shown_are_told_apart() {
    let mut app = App::new();
    app.screen = Screen::Results;
    let buf = render_to_buffer(&mut app, &Palette::default(), 80, 24);
    assert!(row_text(&buf, 4).contains("No results."));
    let mut app = results_app_with(&[("a", "First", "Alice")]);
    app.screen = Screen::Filter;
    app.input = "zz".to_string();
    app.recompute_filter();
    let buf = render_to_buffer(&mut app, &Palette::default(), 80, 24);
    assert!(row_text(&buf, 1).contains("/zz│"));
    assert!(row_text(&buf, 4).contains("No matches for \"zz\"."));
}

#[test]
fn the_help_lies_over_the_results() {
    let mut app = results_app_with(&[("a", "First", "Alice")]);
    app.screen = Screen::Help;
    let widgets = draw(rect(100, 30), &mut app, &Palette::default());
    assert_eq!(widgets.len(), 8);
    assert_eq!(widgets[5], Widget::Clear { area: Rect { x: 20, y: 6, width: 60, height: 18 } });
    let buf = render_to_buffer(&mut app, &Palette::default(), 100, 30);
    assert!(row_text(&buf, 6).contains(" Keys "));
    assert!(row_text(&buf, 7).contains("│j / ↓             next result"));
    assert!(row_text(&buf, 17).contains("│q / Esc           quit"));
}

#[test]
fn an_error_takes_the_footer() {
    let mut app = results_app_with(&[("a", "First", "Alice")]);
    app.last_error = Some(LastError::Player(PlayerError::KilledBySignal(9).into()));
    let buf = render_to_buffer(&mut app, &Palette::default(), 80, 24);
    assert!(row_text(&buf, 23).starts_with("player error: player was killed by signal 9"));
    assert_eq!(buf[(0, 23)].fg, ratatui::style::Color::Red);
    app.last_error = Some(LastError::Worker);
    let buf = render_to_buffer(&mut app, &Palette::default(), 80, 24);
    assert!(row_text(&buf, 23).starts_with("search error: search worker thread crashed"));
}

#[test]
fn the_middle_of_an_odd_area_is_rounded() {
    let area = Rect { x: 3, y: 5, width: 61, height: 21 };
    assert_eq!(centered_rect(60, 60, area), Rect { x: 15, y: 9, width: 37, height: 13 });
    assert_eq!(centered_rect(0, 100, area), Rect { x: 34, y: 5, width: 0, height: 21 });
}

#[test]
fn areas_agree_with_what_is_painted() {
    for width in 60..131u16 {
        for height in [20, 21, 23, 40, 57, 120] {
            let mut app = results_app_with(&[("a", "First", "Alice")]);
            app.screen = Screen::Help;
            let widgets = draw(rect(width, height), &mut app, &Palette::default());
            let footer = height - 1;
            assert!(
                matches!(&widgets[4], Widget::Paragraph { area, .. } if *area == Rect { x: 0, y: footer, width, height: 1 })
            );
            let x = (u32::from(width) * 20 + 50) / 100;
            let end = (u32::from(width) * 80 + 50) / 100;
            assert!(
                matches!(&widgets[5], Widget::Clear { area } if u32::from(area.x) == x && u32::from(area.width) == end - x)
            );
        }
    }
}

#[test]
fn large_areas_are_divided_exactly_too() {
    for size in [0u16, 1, 2, 3, 7, 50, 99, 101, 999, 12345, 32767, 65000, 65535] {
        for percent in [0u16, 1, 33, 50, 60, 99, 100] {
            let area = Rect { x: 0, y: 0, width: size, height: size };
            let margin = u64::from((100 - percent) / 2);
            let edge = |share: u64| (u64::from(size) * share + 50) / 100;
            let start = edge(margin);
            let length = edge(margin + u64::from(percent)) - start;
            let got = centered_rect(percent, percent, area);
            assert_eq!((u64::from(got.x), u64::from(got.width)), (start, length), "{size} {percent}");
            assert_eq!((u64::from(got.y), u64::from(got.height)), (start, length), "{size} {percent}");
        }
    }
    for height in [20u16, 21, 100, 4097, 65535] {
        let mut app = App::new();
        let widgets = draw(rect(60, height), &mut app, &Palette::default());
        assert!(matches!(&widgets[0], Widget::Border { area, .. } if (area.y, area.height) == (0, 3)));
        assert!(matches!(&widgets[2], Widget::Border { area, .. } if (area.y, area.height) == (3, height - 4)));
        assert!(matches!(&widgets[4], Widget::Paragraph { area, .. } if (area.y, area.height) == (height - 1, 1)));
    }
}

#[test]
fn the_columns_of_a_row_add_up() {
    assert_eq!((channel_columns(10), channel_columns(60), channel_columns(200)), (8, 15, 32));
    assert_eq!(title_columns(60, 4), 35);
    assert_eq!(title_columns(78, 7), 78 - 6 - 19 - 7);
    assert_eq!(title_columns(20, 8), 0);
    assert_eq!(title_columns(65535, 65535), 0);
}

#[test]
fn titles_count_the_results() {
    assert_eq!(screen_title(Screen::Results, 0, "\"x\""), " yttui — 0 results for \"x\" ");
    assert_eq!(screen_title(Screen::Help, 1, "\"x\""), " yttui — 1 result for \"x\" ");
    assert_eq!(screen_title(Screen::Searching, 9, "\"x\""), " yttui — searching for \"x\" ");
    assert_eq!(screen_title(Screen::Prompt, 9, "\"x\""), " yttui — search ");
}

#[test]
fn an_ellipsis_at_the_end_takes_up_one_column() {
    let texts = [
        "",
        "abc",
        "あい",
        "☺\u{fe0f}",
        "1\u{fe0f}\u{20e3}",
        "👩\u{200d}👩\u{200d}👧",
        "👍🏽",
        "🇩🇪🇫🇷",
        "\u{644}\u{627}",
        "\u{1780}\u{17d2}\u{1780}",
        "a\u{301}",
        "\r\n",
        "…",
        "a\u{200d}",
        "☺\u{fe0e}",
    ];
    for text in texts {
        let with_ellipsis = format!("{text}…");
        assert_eq!(cut_to_width(&with_ellipsis, 100).1, cut_to_width(text, 100).1 + 1, "{text:?}");
    }
    assert_eq!(cut_to_width("a…b…", 100), ("a…b…".to_string(), 4));
}

#[test]
fn a_cut_text_fits_and_stays_as_it_is() {
    let texts = [
        "",
        "a",
        "abcde",
        "あいう",
        "aあbい",
        "ends…",
        "Ä ö ü ß",
        "日本語 and more",
        "☺\u{fe0f}☺\u{fe0f}",
        "1\u{fe0f}\u{20e3}2\u{fe0f}\u{20e3}3\u{fe0f}\u{20e3}",
        "👩\u{200d}👩\u{200d}👧 family",
        "🇩🇪🇫🇷🇮🇹",
    ];
    for text in texts {
        for columns in 0..20u16 {
            let (shown, taken) = cut_to_width(text, columns);
            assert_eq!(shown, truncate_to_width(text, columns));
            assert!(taken <= usize::from(columns), "{text:?} {columns}");
            for more in columns..22 {
                assert_eq!(truncate_to_width(&shown, more), shown, "{text:?} {columns} {more}");
            }
        }
    }
}

#[test]
fn emoji_sequences_are_cut_to_fit_too() {
    assert_eq!(cut_to_width("☺\u{fe0f}☺\u{fe0f}", 4), ("☺\u{fe0f}☺\u{fe0f}".to_string(), 4));
    assert_eq!(cut_to_width("☺\u{fe0f}☺\u{fe0f}", 3), ("☺\u{fe0f}…".to_string(), 3));
    assert_eq!(cut_to_width("☺\u{fe0f}☺\u{fe0f}", 2), ("☺…".to_string(), 2));
    assert_eq!(greedy_prefix("☺\u{fe0f}☺\u{fe0f}", 1), "☺\u{fe0f}");
}
