use std::sync::Arc;
use yttui::app::{matches_filter, stands_in, Action, App, LastError, Screen};
use yttui::dispatcher::DispatchError;
use yttui::keys::{KeyCode, KeyEvent, KeyModifiers};
use yttui::player::PlayerError;
use yttui::search::{SearchError, SearchResult, VideoDuration};
use yttui::time::TimeSpan;

fn key(code: KeyCode) -> KeyEvent {
    KeyEvent::new(code, KeyModifiers::none())
}

fn ctrl(c: char) -> KeyEvent {
    KeyEvent::new(KeyCode::Char(c), KeyModifiers::control())
}

fn mk(id: &str, title: &str, channel: Option<&str>) -> SearchResult {
    SearchResult {
        id: id.to_string(),
        title: title.to_string(),
        channel: channel.map(str::to_string),
        duration: VideoDuration::Seconds(60),
    }
}

#[test]
fn typing_in_prompt_appends_to_input() {
    let mut app = App::new();
    app.handle_key(key(KeyCode::Char('h')));
    app.handle_key(key(KeyCode::Char('i')));
    assert_eq!(app.input, "hi");
    assert_eq!(app.screen, Screen::Prompt);
}

#[test]
fn backspace_in_prompt_removes_last_char() {
    let mut app = App::new();
    app.input = "abc".to_string();
    app.handle_key(key(KeyCode::Backspace));
    assert_eq!(app.input, "ab");
}

#[test]
fn enter_in_prompt_starts_search() {
    let mut app = App::new();
    app.input = "rust ratatui".to_string();
    let action = app.handle_key(key(KeyCode::Enter));
    assert_eq!(action, Action::StartSearch("rust ratatui".to_string()));
    assert_eq!(app.screen, Screen::Searching);
    assert_eq!(app.committed_query.as_deref(), Some("rust ratatui"));
}

#[test]
fn enter_with_empty_input_does_nothing() {
    let mut app = App::new();
    let action = app.handle_key(key(KeyCode::Enter));
    assert_eq!(action, Action::Nothing);
    assert_eq!(app.screen, Screen::Prompt);
}

#[test]
fn enter_with_whitespace_only_does_nothing() {
    let mut app = App::new();
    app.input = "   ".to_string();
    let action = app.handle_key(key(KeyCode::Enter));
    assert_eq!(action, Action::Nothing);
}

#[test]
fn esc_in_prompt_quits() {
    let mut app = App::new();
    assert_eq!(app.handle_key(key(KeyCode::Esc)), Action::Quit);
}

#[test]
fn ctrl_c_in_prompt_quits() {
    let mut app = App::new();
    assert_eq!(app.handle_key(ctrl('c')), Action::Quit);
}

#[test]
fn esc_in_searching_cancels_and_returns_to_prompt() {
    let mut app = App::new();
    app.input = "q".to_string();
    app.handle_key(key(KeyCode::Enter));
    assert_eq!(app.screen, Screen::Searching);
    let action = app.handle_key(key(KeyCode::Esc));
    assert_eq!(action, Action::CancelSearch);
    assert_eq!(app.screen, Screen::Prompt);
    assert_eq!(app.input, "q");
}

fn results_app() -> App {
    let mut app = App::new();
    app.results = vec![
        mk("a", "First video", Some("Alice")),
        mk("b", "Second clip", Some("Bob")),
        mk("c", "Third thing", None),
        mk("d", "Fourth", Some("Dee")),
    ];
    app.committed_query = Some("test".to_string());
    app.recompute_filter();
    app.screen = Screen::Results;
    app
}

#[test]
fn j_and_k_navigate_within_bounds() {
    let mut app = results_app();
    assert_eq!(app.selected, 0);
    app.handle_key(key(KeyCode::Char('j')));
    assert_eq!(app.selected, 1);
    app.handle_key(key(KeyCode::Char('j')));
    app.handle_key(key(KeyCode::Char('j')));
    app.handle_key(key(KeyCode::Char('j')));
    assert_eq!(app.selected, 3);
    app.handle_key(key(KeyCode::Char('k')));
    assert_eq!(app.selected, 2);
}

#[test]
fn k_at_top_stays_at_top() {
    let mut app = results_app();
    app.handle_key(key(KeyCode::Char('k')));
    assert_eq!(app.selected, 0);
}

#[test]
fn capital_g_jumps_to_last() {
    let mut app = results_app();
    app.handle_key(key(KeyCode::Char('G')));
    assert_eq!(app.selected, 3);
}

#[test]
fn double_g_jumps_to_first() {
    let mut app = results_app();
    app.selected = 2;
    app.handle_key(key(KeyCode::Char('g')));
    assert_eq!(app.selected, 2);
    app.handle_key(key(KeyCode::Char('g')));
    assert_eq!(app.selected, 0);
}

#[test]
fn g_pending_only_lasts_one_keystroke() {
    let mut app = results_app();
    app.selected = 2;
    app.handle_key(key(KeyCode::Char('g')));
    app.handle_key(key(KeyCode::Char('j')));
    assert_eq!(app.selected, 3);
    app.handle_key(key(KeyCode::Char('g')));
    app.handle_key(key(KeyCode::Char('j')));
    assert_ne!(app.selected, 0);
}

#[test]
fn ctrl_d_jumps_half_viewport_down() {
    let mut app = results_app();
    app.results = (0..50)
        .map(|i| mk(&format!("v{i}"), &format!("title {i}"), None))
        .collect();
    app.recompute_filter();
    app.list_height = 20;
    app.handle_key(ctrl('d'));
    assert_eq!(app.selected, 10);
}

#[test]
fn ctrl_u_jumps_half_viewport_up() {
    let mut app = results_app();
    app.results = (0..50)
        .map(|i| mk(&format!("v{i}"), &format!("title {i}"), None))
        .collect();
    app.recompute_filter();
    app.list_height = 20;
    app.selected = 30;
    app.handle_key(ctrl('u'));
    assert_eq!(app.selected, 20);
}

#[test]
fn enter_in_results_emits_play_with_selected() {
    let mut app = results_app();
    app.selected = 2;
    let action = app.handle_key(key(KeyCode::Enter));
    match action {
        Action::Play(r) => assert_eq!(r.id, "c"),
        other => panic!("expected Play, got {other:?}"),
    }
}

#[test]
fn enter_in_results_with_no_results_is_noop() {
    let mut app = App::new();
    app.screen = Screen::Results;
    let action = app.handle_key(key(KeyCode::Enter));
    assert_eq!(action, Action::Nothing);
}

#[test]
fn n_in_results_returns_to_prompt() {
    let mut app = results_app();
    app.handle_key(key(KeyCode::Char('n')));
    assert_eq!(app.screen, Screen::Prompt);
    assert_eq!(app.input, "");
}

#[test]
fn r_in_results_reruns_when_query_set() {
    let mut app = results_app();
    let action = app.handle_key(key(KeyCode::Char('r')));
    assert_eq!(action, Action::Rerun);
    assert_eq!(app.screen, Screen::Searching);
}

#[test]
fn q_in_results_quits() {
    let mut app = results_app();
    assert_eq!(
        app.handle_key(key(KeyCode::Char('q'))),
        Action::Quit
    );
}

#[test]
fn slash_in_results_enters_filter_mode() {
    let mut app = results_app();
    app.handle_key(key(KeyCode::Char('/')));
    assert_eq!(app.screen, Screen::Filter);
    assert_eq!(app.input, "");
}

#[test]
fn typing_in_filter_filters_results_live() {
    let mut app = results_app();
    app.handle_key(key(KeyCode::Char('/')));
    app.handle_key(key(KeyCode::Char('s')));
    assert_eq!(app.filtered.len(), 2);
}

#[test]
fn filter_matches_channel_too() {
    let mut app = results_app();
    app.handle_key(key(KeyCode::Char('/')));
    app.handle_key(key(KeyCode::Char('a')));
    app.handle_key(key(KeyCode::Char('l')));
    app.handle_key(key(KeyCode::Char('i')));
    assert_eq!(app.filtered, vec![0]);
}

#[test]
fn filter_esc_clears_and_returns_to_results() {
    let mut app = results_app();
    app.handle_key(key(KeyCode::Char('/')));
    app.handle_key(key(KeyCode::Char('z')));
    assert_eq!(app.filtered.len(), 0);
    app.handle_key(key(KeyCode::Esc));
    assert_eq!(app.screen, Screen::Results);
    assert_eq!(app.input, "");
    assert_eq!(app.filtered.len(), 4);
}

#[test]
fn filter_enter_commits_and_keeps_filter() {
    let mut app = results_app();
    app.handle_key(key(KeyCode::Char('/')));
    app.handle_key(key(KeyCode::Char('a')));
    app.handle_key(key(KeyCode::Enter));
    assert_eq!(app.screen, Screen::Results);
    assert!(!app.filtered.is_empty());
    assert!(app.filtered.len() < 4);
}

#[test]
fn filter_backspace_removes_one_char() {
    let mut app = results_app();
    app.handle_key(key(KeyCode::Char('/')));
    app.handle_key(key(KeyCode::Char('a')));
    app.handle_key(key(KeyCode::Char('b')));
    app.handle_key(key(KeyCode::Backspace));
    assert_eq!(app.input, "a");
}

#[test]
fn question_mark_opens_help_from_results() {
    let mut app = results_app();
    app.handle_key(key(KeyCode::Char('?')));
    assert_eq!(app.screen, Screen::Help);
    assert_eq!(app.help_return, Some(Screen::Results));
}

#[test]
fn any_key_dismisses_help_and_returns() {
    let mut app = results_app();
    app.handle_key(key(KeyCode::Char('?')));
    app.handle_key(key(KeyCode::Char(' ')));
    assert_eq!(app.screen, Screen::Results);
}

#[test]
fn q_in_help_quits() {
    let mut app = results_app();
    app.handle_key(key(KeyCode::Char('?')));
    assert_eq!(
        app.handle_key(key(KeyCode::Char('q'))),
        Action::Quit
    );
}

#[test]
fn set_results_transitions_to_results_screen() {
    let mut app = App::new();
    app.screen = Screen::Searching;
    app.set_results(vec![mk("a", "Hi", None)]);
    assert_eq!(app.screen, Screen::Results);
    assert_eq!(app.filtered, vec![0]);
    assert_eq!(app.selected, 0);
}

#[test]
fn set_search_error_returns_to_prompt_when_no_prior_results() {
    let mut app = App::new();
    app.committed_query = Some("rust".to_string());
    app.screen = Screen::Searching;
    app.set_search_error(Arc::new(SearchError::Timeout(
        TimeSpan::from_secs(30),
    )));
    assert_eq!(app.screen, Screen::Prompt);
    assert_eq!(app.input, "rust");
    assert!(app.last_error.is_some());
}

#[test]
fn set_search_error_preserves_results_on_rerun() {
    let mut app = results_app();
    let original_count = app.results.len();
    app.screen = Screen::Searching; // mid-rerun
    app.set_search_error(Arc::new(SearchError::Timeout(
        TimeSpan::from_secs(30),
    )));
    assert_eq!(app.screen, Screen::Results);
    assert_eq!(app.results.len(), original_count);
    assert!(app.last_error.is_some());
}

#[test]
fn keypress_clears_last_error() {
    let mut app = App::new();
    app.last_error =
        Some(LastError::Search(Arc::new(SearchError::Timeout(
            TimeSpan::from_secs(30),
        ))));
    app.handle_key(key(KeyCode::Char('a')));
    assert!(app.last_error.is_none());
}

#[test]
fn commit_query_from_input_starts_search() {
    let mut app = App::new();
    app.input = "rust".to_string();
    let action = app.commit_query();
    assert_eq!(action, Action::StartSearch("rust".to_string()));
    assert_eq!(app.screen, Screen::Searching);
    assert_eq!(app.committed_query.as_deref(), Some("rust"));
}

#[test]
fn set_results_selects_the_first_result() {
    let mut app = results_app();
    app.selected = 3;
    app.input = "left over".to_string();
    app.set_results(vec![mk("x", "One", None), mk("y", "Two", None)]);
    assert_eq!(app.selected, 0);
    assert_eq!(app.filtered, vec![0, 1]);
    assert_eq!(app.input, "");
}

#[test]
fn commit_query_trims_white_space() {
    let mut app = App::new();
    app.input = " \t rust ratatui\u{3000} ".to_string();
    assert_eq!(app.commit_query(), Action::StartSearch("rust ratatui".to_string()));
    assert_eq!(app.committed_query.as_deref(), Some("rust ratatui"));
}

#[test]
fn filter_ignores_case_both_ways() {
    let result = mk("a", "ÜBER Rust", Some("BOB"));
    assert!(matches_filter(&result, "über"));
    assert!(matches_filter(&result, "bob"));
    assert!(!matches_filter(&result, "alice"));
    let mut app = results_app();
    app.handle_key(key(KeyCode::Char('/')));
    for c in "FIRST".chars() {
        app.handle_key(key(KeyCode::Char(c)));
    }
    assert_eq!(app.filtered, vec![0]);
}

#[test]
fn filter_shows_every_match_in_order() {
    let mut app = results_app();
    app.handle_key(key(KeyCode::Char('/')));
    app.handle_key(key(KeyCode::Char('i')));
    assert_eq!(app.filtered, vec![0, 1, 2]);
    app.handle_key(key(KeyCode::Backspace));
    assert_eq!(app.filtered, vec![0, 1, 2, 3]);
}

#[test]
fn filtering_keeps_the_selection_inside_the_list() {
    let mut app = results_app();
    app.handle_key(key(KeyCode::Char('G')));
    app.handle_key(key(KeyCode::Char('/')));
    app.handle_key(key(KeyCode::Char('s')));
    assert_eq!(app.filtered.len(), 2);
    assert_eq!(app.selected, 1);
    app.handle_key(key(KeyCode::Char('z')));
    assert_eq!(app.filtered.len(), 0);
    assert_eq!(app.selected, 0);
    assert_eq!(app.selected_result(), None);
}

#[test]
fn selected_result_goes_through_the_filter() {
    let mut app = results_app();
    app.handle_key(key(KeyCode::Char('/')));
    for c in "bob".chars() {
        app.handle_key(key(KeyCode::Char(c)));
    }
    assert_eq!(app.selected_result().map(|r| r.id.as_str()), Some("b"));
    app.handle_key(key(KeyCode::Enter));
    match app.handle_key(key(KeyCode::Enter)) {
        Action::Play(r) => assert_eq!(r.id, "b"),
        other => panic!("expected Play, got {other:?}"),
    }
}

#[test]
fn q_with_control_is_no_q() {
    let mut app = results_app();
    assert_eq!(app.handle_key(ctrl('q')), Action::Nothing);
    assert_eq!(app.handle_key(ctrl('c')), Action::Quit);
}

#[test]
fn help_remembers_nothing_after_it_is_left() {
    let mut app = results_app();
    app.handle_key(key(KeyCode::Char('?')));
    app.handle_key(key(KeyCode::Esc));
    assert_eq!(app.screen, Screen::Results);
    assert_eq!(app.help_return, None);
}

#[test]
fn keys_do_nothing_while_searching() {
    let mut app = App::new();
    app.input = "q".to_string();
    app.handle_key(key(KeyCode::Enter));
    assert_eq!(app.handle_key(key(KeyCode::Char('x'))), Action::Nothing);
    assert_eq!(app.screen, Screen::Searching);
    assert_eq!(app.handle_key(ctrl('c')), Action::CancelSearch);
}

#[test]
fn r_without_a_query_does_nothing() {
    let mut app = results_app();
    app.committed_query = None;
    assert_eq!(app.handle_key(key(KeyCode::Char('r'))), Action::Nothing);
    assert_eq!(app.screen, Screen::Results);
}

#[test]
fn a_half_page_stops_at_both_ends() {
    let mut app = results_app();
    app.list_height = 20;
    app.handle_key(ctrl('d'));
    assert_eq!(app.selected, 3);
    app.handle_key(ctrl('u'));
    assert_eq!(app.selected, 0);
}

#[test]
fn dispatch_errors_reach_the_status_bar() {
    let mut app = App::new();
    app.set_dispatch_error(DispatchError::WorkerPanicked);
    assert_eq!(
        app.last_error.as_ref().map(LastError::message).as_deref(),
        Some("search worker thread crashed before producing a result")
    );
    app.set_dispatch_error(DispatchError::Search(SearchError::Cancelled));
    assert!(matches!(app.last_error, Some(LastError::Search(_))));
}

#[test]
fn player_errors_leave_the_results() {
    let mut app = results_app();
    app.set_player_error(Arc::new(PlayerError::NonZeroExit(2)));
    assert_eq!(app.screen, Screen::Results);
    assert_eq!(
        app.last_error.as_ref().map(LastError::message).as_deref(),
        Some("player exited with status 2")
    );
}

#[test]
fn the_list_height_is_taken_over() {
    let mut app = App::new();
    assert_eq!(app.list_height, 20);
    app.set_list_height(7);
    assert_eq!(app.list_height, 7);
}

#[test]
fn a_needle_stands_in_the_title_or_in_the_channel() {
    assert!(stands_in("first video", None, "st v"));
    assert!(stands_in("x", Some("alice"), "ali"));
    assert!(!stands_in("x", Some("alice"), "Ali"));
    assert!(stands_in("", None, ""));
    assert!(!stands_in("ab", None, "abc"));
}

#[test]
fn the_case_of_letters_does_not_matter_to_the_filter() {
    let lower = mk("a", "first video", Some("alice"));
    let upper = mk("b", "FIRST VIDEO", Some("ALICE"));
    for needle in ["first", "video", "alice", "st v", "zzz", "", "i"] {
        assert_eq!(matches_filter(&lower, needle), matches_filter(&upper, needle), "{needle:?}");
    }
    let mut typed_lower = results_app();
    let mut typed_upper = results_app();
    typed_lower.handle_key(key(KeyCode::Char('/')));
    typed_upper.handle_key(key(KeyCode::Char('/')));
    for c in "se".chars() {
        typed_lower.handle_key(key(KeyCode::Char(c)));
        typed_upper.handle_key(key(KeyCode::Char(c.to_ascii_uppercase())));
        assert_eq!(typed_lower.filtered, typed_upper.filtered);
    }
    assert_eq!(typed_upper.filtered, vec![1]);
}

#[test]
fn a_part_of_a_matching_needle_matches() {
    let result = mk("a", "First video", Some("Alice"));
    assert!(matches_filter(&result, "first v"));
    assert!(matches_filter(&result, "irst"));
    assert!(matches_filter(&result, ""));
    let other = SearchResult { id: "z".to_string(), duration: VideoDuration::Live, ..result.clone() };
    assert_eq!(matches_filter(&other, "lice"), matches_filter(&result, "lice"));
    assert!(!matches_filter(&SearchResult { channel: None, ..result }, "lice"));
}
