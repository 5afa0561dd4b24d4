use yttui::app::Screen;
use yttui::cli::Cli;
use yttui::dispatcher::Received;
use yttui::keys::{KeyCode, KeyEvent, KeyModifiers};
use yttui::player::PlayerError;
use yttui::search::{SearchError, SearchResult, SortOrder, VideoDuration};
use yttui::session::{
    complaint, final_error, Effect, KeyKind, Session, TerminalEvent, EVENT_POLL_INTERVAL_MILLIS, FAILURE_STATUS,
    MISSING_PROGRAM_STATUS,
};

fn press(code: KeyCode) -> TerminalEvent {
    TerminalEvent::Key(KeyEvent::new(code, KeyModifiers::none()), KeyKind::Press)
}

fn found(id: &str) -> SearchResult {
    SearchResult {
        id: id.to_string(),
        title: format!("title {id}"),
        channel: None,
        duration: VideoDuration::Seconds(60),
    }
}

fn asking(words: &[&str]) -> (Session<()>, Effect) {
    let cli = Cli {
        query: words.iter().map(|word| word.to_string()).collect(),
        recent: true,
        count: 7,
        ..Cli::default()
    };
    Session::begin(&cli, ())
}

#[test]
fn a_query_on_the_command_line_is_searched_for_at_once() {
    let (session, effect) = asking(&["rust", "ratatui "]);
    assert_eq!(effect, Effect::Search);
    assert_eq!(session.app.screen, Screen::Searching);
    let pending = session.pending.expect("a search in flight");
    assert_eq!(pending.query, "rust ratatui");
    assert_eq!(pending.count, 7);
    assert_eq!(pending.sort, SortOrder::Date);
    assert_eq!(pending.seq, 1);
}

#[test]
fn without_a_query_the_prompt_is_empty() {
    let (session, effect) = asking(&[]);
    assert_eq!(effect, Effect::Idle);
    assert_eq!(session.app.screen, Screen::Prompt);
    assert!(session.pending.is_none());
    let (session, effect) = asking(&[" ", ""]);
    assert_eq!(effect, Effect::Idle);
    assert_eq!(session.app.screen, Screen::Prompt);
    assert_eq!(session.app.input, "  ");
}

#[test]
fn an_answer_with_the_current_number_is_shown() {
    let (mut session, _) = asking(&["rust"]);
    session.take_look(Received::Nothing);
    assert!(session.pending.is_some());
    session.take_look(Received::Outcome((1, Ok(vec![found("a")]))));
    assert_eq!(session.app.screen, Screen::Results);
    assert_eq!(session.app.results.len(), 1);
    assert!(session.pending.is_none());
}

#[test]
fn an_answer_with_an_old_number_is_dropped() {
    let (mut session, _) = asking(&["rust"]);
    assert_eq!(session.take_event(press(KeyCode::Esc)), Effect::Cancel);
    assert!(session.pending.is_none());
    assert_eq!(session.app.input, "rust");
    assert_eq!(session.take_event(press(KeyCode::Enter)), Effect::Search);
    assert_eq!(session.pending.as_ref().map(|pending| pending.seq), Some(3));
    session.take_look(Received::Outcome((1, Ok(vec![found("a")]))));
    assert!(session.app.results.is_empty());
}

#[test]
fn a_failed_search_leads_back_to_the_prompt() {
    let (mut session, _) = asking(&["rust"]);
    session.take_look(Received::Outcome((1, Err(SearchError::ReaderPanicked))));
    assert_eq!(session.app.screen, Screen::Prompt);
    assert_eq!(session.app.input, "rust");
    assert_eq!(
        session.app.last_error.as_ref().map(|error| error.message()).as_deref(),
        Some("yt-dlp output reader thread panicked")
    );
}

#[test]
fn a_panicked_worker_ends_the_search() {
    let (mut session, _) = asking(&["rust"]);
    session.take_look(Received::Disconnected);
    assert_eq!(session.app.screen, Screen::Prompt);
    assert!(session.pending.is_none());
    assert!(session.app.last_error.is_some());
}

#[test]
fn a_look_without_a_search_changes_nothing() {
    let (mut session, _) = asking(&[]);
    session.take_look(Received::Disconnected);
    assert!(session.app.last_error.is_none());
}

#[test]
fn results_can_be_played_and_searched_again() {
    let (mut session, _) = asking(&["rust"]);
    session.take_look(Received::Outcome((1, Ok(vec![found("a"), found("b")]))));
    session.take_event(press(KeyCode::Char('j')));
    assert_eq!(session.take_event(press(KeyCode::Enter)), Effect::Play(found("b")));
    session.take_playback(Err(PlayerError::NonZeroExit(2)));
    assert_eq!(
        session.app.last_error.as_ref().map(|error| error.message()).as_deref(),
        Some("player exited with status 2")
    );
    assert_eq!(session.app.screen, Screen::Results);
    assert_eq!(session.take_event(press(KeyCode::Char('r'))), Effect::Search);
    assert_eq!(session.pending.as_ref().map(|pending| pending.query.as_str()), Some("rust"));
    assert!(session.app.last_error.is_none());
    session.take_playback(Ok(()));
    assert!(session.app.last_error.is_none());
}

#[test]
fn only_pressed_keys_count() {
    let (mut session, _) = asking(&[]);
    let key = KeyEvent::new(KeyCode::Esc, KeyModifiers::none());
    assert_eq!(session.take_event(TerminalEvent::Key(key, KeyKind::Release)), Effect::Idle);
    assert_eq!(session.take_event(TerminalEvent::Key(key, KeyKind::Repeat)), Effect::Idle);
    assert_eq!(session.take_event(TerminalEvent::Other), Effect::Idle);
    assert_eq!(session.take_event(TerminalEvent::Key(key, KeyKind::Press)), Effect::Quit);
}

#[test]
fn the_first_error_is_the_one_to_end_with() {
    assert_eq!(final_error(Some("a".to_string()), Some("b".to_string())).as_deref(), Some("a"));
    assert_eq!(final_error(None, Some("b".to_string())).as_deref(), Some("b"));
    assert_eq!(final_error(None, None), None);
    assert_eq!(complaint("a"), "yttui: a");
    assert_eq!((MISSING_PROGRAM_STATUS, FAILURE_STATUS, EVENT_POLL_INTERVAL_MILLIS), (2, 1, 50));
}
