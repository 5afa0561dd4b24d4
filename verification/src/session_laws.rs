//! What holds of every session.

use crate::app;
use crate::app::{ActionView, AppView, LastError, Screen};
use crate::app_laws;
use crate::dispatcher;
use crate::dispatcher::Received;
use crate::key_laws;
use crate::keys::{KeyCode, KeyEvent};
use crate::player::PlayerError;
use crate::search::{SearchError, SearchResult, SortOrder};
use crate::session;
use crate::session::{Effect, KeyKind, PendingView, SessionView, TerminalEvent};
use crate::text;
use crate::text_laws;
use vstd::prelude::*;

verus! {

broadcast use vstd::seq::group_seq_axioms;

/// The search in flight has the current number and is not given up; there is one whenever the
/// screen says that a search goes on, and the help never leads back to such a screen. What is shown
/// and selected are results.
pub open spec fn in_step(session: SessionView) -> bool {
    &&& session.pending matches Some(pending) ==> pending.seq == session.seq && !pending.cancelled
    &&& session.app.screen == Screen::Searching ==> session.pending is Some
    &&& session.app.help_return != Some(Screen::Searching)
    &&& app_laws::consistent(session.app)
}

/// Whether an answer is one that the search in flight can give: it carries that search's number,
/// and no more results than can be counted.
pub open spec fn comes_from(received: Received, session: SessionView) -> bool {
    received matches Received::Outcome((seq, outcome)) ==> (session.pending matches Some(pending)
        ==> seq == pending.seq) && (outcome matches Ok(results) ==> results@.len() <= usize::MAX)
}

/// A session begins in step.
pub proof fn law_a_session_begins_in_step(words: Seq<Seq<char>>, count: u32, recent: bool)
    ensures
        in_step(session::begun(words, count, recent).0),
{
    app_laws::law_the_start_is_consistent();
}

/// Every event of the terminal leaves a session in step.
pub proof fn law_events_keep_a_session_in_step(session: SessionView, event: TerminalEvent)
    requires
        in_step(session),
    ensures
        in_step(session.after_event(event).0),
{
    if let TerminalEvent::Key(key, KeyKind::Press) = event {
        app_laws::law_keys_keep_the_state_consistent(session.app, key);
    }
}

/// Every answer of the search in flight leaves a session in step; in particular no search ends
/// with a screen that still says it goes on.
pub proof fn law_answers_keep_a_session_in_step(session: SessionView, received: Received)
    requires
        in_step(session),
        comes_from(received, session),
    ensures
        in_step(session.after_look(received)),
        session.pending is Some && received !is Nothing ==> session.after_look(received).pending
            is None && session.after_look(received).app.screen != Screen::Searching,
{
    if let Received::Outcome((_, Ok(results))) = received {
        app_laws::law_filtering_is_consistent(
            AppView { results: results@, selected: 0, ..session.app }.emptied(),
        );
    }
}

/// However playing a video ends, the session stays in step.
pub proof fn law_playback_keeps_a_session_in_step(
    session: SessionView,
    outcome: Result<(), PlayerError>,
)
    requires
        in_step(session),
    ensures
        in_step(session.after_playback(outcome)),
{
}

/// A worker that panics leaves no screen that says that a search goes on: the error is shown.
pub proof fn law_a_panic_ends_the_search(session: SessionView)
    requires
        session.pending is Some,
    ensures
        session.after_look(Received::Disconnected).app.screen != Screen::Searching,
        session.after_look(Received::Disconnected).app.last_error == Some(LastError::Worker),
        session.after_look(Received::Disconnected).pending is None,
{
}

/// An answer with another number than the current one changes nothing on the screen.
pub proof fn law_stale_answers_are_dropped(
    session: SessionView,
    seq: u64,
    outcome: Result<Vec<SearchResult>, SearchError>,
)
    requires
        seq != session.seq,
    ensures
        session.after_look(Received::Outcome((seq, outcome))).app == session.app,
{
}

/// The answer of a search that was given up is stale from then on, and still is after the next
/// search was started.
pub proof fn law_a_given_up_search_is_stale(session: SessionView, query: Seq<char>)
    requires
        session.pending matches Some(pending) && pending.seq == session.seq,
    ensures
        session.given_up().seq != session.seq,
        session.given_up().searching_for(query).seq != session.seq,
{
    dispatcher::law_an_old_answer_is_stale(session.seq, 1);
    dispatcher::law_steps_add_up(session.seq, 1, 1);
    dispatcher::law_an_old_answer_is_stale(session.seq, 2);
}

/// The answer of a search is stale once another search was started.
pub proof fn law_the_last_search_counts(session: SessionView, query: Seq<char>)
    ensures
        session.searching_for(query).seq != session.seq,
        session.searching_for(query).pending == Some(
            PendingView {
                seq: session.searching_for(query).seq,
                query,
                count: session.count,
                sort: dispatcher::sort_for(session.recent),
                cancelled: false,
            },
        ),
{
    dispatcher::law_an_old_answer_is_stale(session.seq, 1);
}

/// Esc while a search goes on gives it up, and the prompt comes back with the query in it.
pub proof fn law_escape_gives_the_search_up(session: SessionView, key: KeyEvent)
    requires
        in_step(session),
        session.app.screen == Screen::Searching,
        key.code == KeyCode::Esc,
    ensures
        session.after_event(TerminalEvent::Key(key, KeyKind::Press)).1 == Effect::Cancel,
        session.after_event(TerminalEvent::Key(key, KeyKind::Press)).0.pending is None,
        session.after_event(TerminalEvent::Key(key, KeyKind::Press)).0.app.screen == Screen::Prompt,
        session.app.committed_query matches Some(query) ==> session.after_event(
            TerminalEvent::Key(key, KeyKind::Press),
        ).0.app.input == query,
{
}

/// A search is started exactly when the screen begins to say that one goes on.
pub proof fn law_the_screen_says_when_a_search_starts(session: SessionView, event: TerminalEvent)
    requires
        in_step(session),
        session.app.screen != Screen::Searching,
    ensures
        session.after_event(event).1 == Effect::Search <==> session.after_event(event).0.app.screen
            == Screen::Searching,
{
}

/// What is not a key that is pressed changes nothing.
pub proof fn law_only_pressed_keys_count(session: SessionView, event: TerminalEvent)
    requires
        !(event matches TerminalEvent::Key(_, KeyKind::Press)),
    ensures
        session.after_event(event) == (session, Effect::Idle),
{
}

/// A query on the command line is searched for at once, without the white space around it, and
/// without one the session begins at the empty prompt.
pub proof fn law_the_command_line_is_searched_for(words: Seq<Seq<char>>, count: u32, recent: bool)
    ensures
        words.len() == 0 ==> session::begun(words, count, recent).1 == Effect::Idle
            && session::begun(words, count, recent).0.app == app::initial(),
        words.len() > 0 && text::trimmed(text::joined(words, " "@)).len() > 0 ==> {
            let (session, effect) = session::begun(words, count, recent);
            &&& effect == Effect::Search
            &&& session.app.screen == Screen::Searching
            &&& session.pending matches Some(pending) && pending.query == text::trimmed(
                text::joined(words, " "@),
            ) && pending.count == count && pending.sort == dispatcher::sort_for(recent)
        },
{
}

/// `r` on the results searches once more for what was asked last.
pub proof fn law_rerun_searches_for_the_same(session: SessionView, key: KeyEvent, query: Seq<char>)
    requires
        session.app.screen == Screen::Results,
        session.app.committed_query == Some(query),
        key.is_bare('r'),
    ensures
        session.after_event(TerminalEvent::Key(key, KeyKind::Press)).1 == Effect::Search,
        session.after_event(TerminalEvent::Key(key, KeyKind::Press)).0.pending matches Some(pending)
            && pending.query == query,
{
}

/// A video that fails to play leaves the user where they were, with the error shown.
pub proof fn law_a_failed_playback_shows_its_error(session: SessionView, error: PlayerError)
    ensures
        session.after_playback(Err(error)).app.last_error matches Some(shown) && shown.words()
            == error.words(),
        session.after_playback(Err(error)).app.screen == session.app.screen,
        session.after_playback(Err(error)).app.results == session.app.results,
        session.after_playback(Err(error)).pending == session.pending,
{
}

// ---------------------------------------------------------------------------
// What follows from an answer, from a key and from the command line.
// ---------------------------------------------------------------------------

/// The number after another: the next one, and zero after the last.
pub open spec fn number_after(seq: u64) -> u64 {
    if seq == u64::MAX {
        0
    } else {
        (seq + 1) as u64
    }
}

/// The answer of the search in flight takes the place of all results before, whatever they were:
/// its results are all shown, in order, the first is selected, and no search is in flight any more.
/// Nothing else changes.
pub proof fn law_the_answer_of_the_current_search_is_shown(
    session: SessionView,
    seq: u64,
    results: Vec<SearchResult>,
)
    requires
        session.pending is Some,
        seq == session.seq,
        results@.len() <= usize::MAX,
    ensures
        session.after_look(Received::Outcome((seq, Ok(results)))) == (SessionView {
            app: AppView {
                screen: Screen::Results,
                input: Seq::empty(),
                results: results@,
                filtered: Seq::new(results@.len(), |i: int| i as usize),
                selected: 0,
                ..session.app
            },
            pending: None,
            ..session
        }),
{
    key_laws::law_results_take_the_place_of_those_before(session.app, results@);
}

/// That the search in flight failed is said in the words of its error, and no search is in flight
/// any more. Results that were there stay as they are; without any, the prompt comes back with the
/// query in it.
pub proof fn law_the_failure_of_the_current_search_is_shown(
    session: SessionView,
    seq: u64,
    error: SearchError,
)
    requires
        session.pending is Some,
        seq == session.seq,
    ensures
        ({
            let after = session.after_look(Received::Outcome((seq, Err(error))));
            &&& after == SessionView {
                app: AppView {
                    screen: if session.app.results.len() > 0 {
                        Screen::Results
                    } else {
                        Screen::Prompt
                    },
                    input: if session.app.results.len() == 0 && session.app.committed_query is Some {
                        session.app.committed_query->0
                    } else {
                        session.app.input
                    },
                    last_error: after.app.last_error,
                    ..session.app
                },
                pending: None,
                ..session
            }
            &&& after.app.last_error matches Some(LastError::Search(shown)) && *shown == error
        }),
{
    key_laws::law_a_failure_keeps_what_is_there(
        session.app,
        LastError::Search(std::sync::Arc::new(error)),
    );
}

/// That the worker of the search in flight crashed is said, and no search is in flight any more.
/// Results that were there stay as they are; without any, the prompt comes back with the query in
/// it.
pub proof fn law_a_crash_is_shown(session: SessionView)
    requires
        session.pending is Some,
    ensures
        session.after_look(Received::Disconnected) == (SessionView {
            app: AppView {
                screen: if session.app.results.len() > 0 {
                    Screen::Results
                } else {
                    Screen::Prompt
                },
                input: if session.app.results.len() == 0 && session.app.committed_query is Some {
                    session.app.committed_query->0
                } else {
                    session.app.input
                },
                last_error: Some(LastError::Worker),
                ..session.app
            },
            pending: None,
            ..session
        }),
{
    key_laws::law_a_failure_keeps_what_is_there(session.app, LastError::Worker);
}

/// A look that finds nothing changes nothing, and neither does any look where no search is in
/// flight. An answer with another number than the current one ends the wait, and changes nothing
/// else.
pub proof fn law_looks_that_change_nothing(
    session: SessionView,
    received: Received,
    seq: u64,
    outcome: Result<Vec<SearchResult>, SearchError>,
)
    ensures
        session.after_look(Received::Nothing) == session,
        session.pending is None ==> session.after_look(received) == session,
        seq != session.seq ==> session.after_look(Received::Outcome((seq, outcome))) == (
        SessionView { pending: None, ..session }),
{
}

/// The session while it searches for `query`: the search has a new number, and asks for as many
/// results and in the order that the command line says.
pub open spec fn searches(session: SessionView, app: AppView, query: Seq<char>) -> SessionView {
    SessionView {
        app,
        seq: number_after(session.seq),
        pending: Some(
            PendingView {
                seq: number_after(session.seq),
                query,
                count: session.count,
                sort: if session.recent {
                    SortOrder::Date
                } else {
                    SortOrder::Relevance
                },
                cancelled: false,
            },
        ),
        count: session.count,
        recent: session.recent,
    }
}

/// Enter on the prompt starts a search for what was typed, without the white space around it,
/// whatever was there before.
pub proof fn law_enter_starts_the_search(
    session: SessionView,
    key: KeyEvent,
    front: Seq<char>,
    query: Seq<char>,
    back: Seq<char>,
)
    requires
        session.app.screen == Screen::Prompt,
        key.code == KeyCode::Enter,
        session.app.input == front + query + back,
        text_laws::all_white(front),
        text_laws::is_bounded(query),
        text_laws::all_white(back),
    ensures
        session.after_event(TerminalEvent::Key(key, KeyKind::Press)) == (
            searches(
                session,
                (AppView {
                    screen: Screen::Searching,
                    committed_query: Some(query),
                    ..key_laws::untouched(session.app)
                }),
                query,
            ),
            Effect::Search,
        ),
{
    key_laws::law_enter_searches_for_what_was_typed(session.app, key, front, query, back);
}

/// `r` on the results starts a search for what was searched for last.
pub proof fn law_r_starts_the_search_again(session: SessionView, key: KeyEvent, query: Seq<char>)
    requires
        session.app.screen == Screen::Results,
        session.app.committed_query == Some(query),
        key.code == KeyCode::Char('r'),
        key_laws::alone(key),
    ensures
        session.after_event(TerminalEvent::Key(key, KeyKind::Press)) == (
            searches(
                session,
                (AppView { screen: Screen::Searching, ..key_laws::untouched(session.app) }),
                query,
            ),
            Effect::Search,
        ),
{
    key_laws::law_r_searches_again(session.app, key);
}

/// A search run again and answered shows the new results in place of the old ones.
pub proof fn law_a_search_run_again_shows_its_own_results(
    session: SessionView,
    key: KeyEvent,
    query: Seq<char>,
    results: Vec<SearchResult>,
)
    requires
        session.app.screen == Screen::Results,
        session.app.committed_query == Some(query),
        key.code == KeyCode::Char('r'),
        key_laws::alone(key),
        results@.len() <= usize::MAX,
    ensures
        ({
            let searching = session.after_event(TerminalEvent::Key(key, KeyKind::Press)).0;
            let after = searching.after_look(Received::Outcome((searching.seq, Ok(results))));
            &&& after.app.results == results@
            &&& after.app.filtered == Seq::new(results@.len(), |i: int| i as usize)
            &&& after.app.selected == 0
            &&& after.app.screen == Screen::Results
            &&& after.app.committed_query == Some(query)
            &&& after.pending is None
        }),
{
    law_r_starts_the_search_again(session, key, query);
    let searching = session.after_event(TerminalEvent::Key(key, KeyKind::Press)).0;
    law_the_answer_of_the_current_search_is_shown(searching, searching.seq, results);
}

/// Esc and Ctrl-c while a search is in flight give it up: its number is no longer the current one,
/// so that its answer would change nothing.
pub proof fn law_giving_up_ends_the_wait(session: SessionView, key: KeyEvent)
    requires
        session.app.screen == Screen::Searching,
        key.code == KeyCode::Esc || key_laws::interrupts(key),
    ensures
        ({
            let (after, effect) = session.after_event(TerminalEvent::Key(key, KeyKind::Press));
            &&& after.pending is None
            &&& after.count == session.count && after.recent == session.recent
            &&& after.app == session.app.after_key(key).0
            &&& session.pending is Some ==> effect == Effect::Cancel && after.seq == number_after(
                session.seq,
            )
            &&& session.pending is None ==> effect == Effect::Idle && after.seq == session.seq
        }),
{
    key_laws::law_keys_while_a_search_goes_on(session.app, key);
}

/// Every other key changes nothing but the screen's state, and what it makes the program do is what
/// the screen asks for: to play a result, to end, or nothing.
pub proof fn law_other_keys_leave_the_search_alone(session: SessionView, key: KeyEvent)
    ensures
        ({
            let (app, action) = session.app.after_key(key);
            let (after, effect) = session.after_event(TerminalEvent::Key(key, KeyKind::Press));
            &&& after.app == app
            &&& action matches ActionView::Play(result) ==> effect == Effect::Play(result) && after
                == SessionView { app, ..session }
            &&& action is Quit ==> effect == Effect::Quit && after == SessionView { app, ..session }
            &&& action is Nothing ==> effect == Effect::Idle && after == SessionView {
                app,
                ..session
            }
        }),
{
}

/// The words of the command line are searched for as they stand, with a space between two of them,
/// and without white space around them; the search asks for as many results and in the order that
/// the command line says.
pub proof fn law_the_words_of_the_command_line_are_searched_for(
    words: Seq<Seq<char>>,
    count: u32,
    recent: bool,
    front: Seq<char>,
    query: Seq<char>,
    back: Seq<char>,
)
    requires
        words.len() > 0,
        text::joined(words, seq![' ']) == front + query + back,
        text_laws::all_white(front),
        text_laws::is_bounded(query),
        text_laws::all_white(back),
    ensures
        ({
            let (session, effect) = session::begun(words, count, recent);
            &&& effect == Effect::Search
            &&& session.app.screen == Screen::Searching
            &&& session.app.committed_query == Some(query)
            &&& session.app.results.len() == 0
            &&& session.count == count
            &&& session.recent == recent
            &&& session.seq == 1
            &&& session.pending == Some(
                PendingView {
                    seq: 1,
                    query,
                    count,
                    sort: if recent {
                        SortOrder::Date
                    } else {
                        SortOrder::Relevance
                    },
                    cancelled: false,
                },
            )
        }),
{
    reveal_strlit(" ");
    assert(" "@ =~= seq![' ']);
    key_laws::law_any_input_can_be_asked_for(
        AppView { input: text::joined(words, " "@), ..app::initial() },
        front,
        query,
        back,
    );
    key_laws::law_the_start_is_an_empty_prompt();
}

/// Without words, or with white space alone, the session begins at the prompt and nothing is
/// searched for.
pub proof fn law_without_words_nothing_is_searched_for(
    words: Seq<Seq<char>>,
    count: u32,
    recent: bool,
)
    requires
        words.len() == 0 || text_laws::all_white(text::joined(words, seq![' '])),
    ensures
        ({
            let (session, effect) = session::begun(words, count, recent);
            &&& effect == Effect::Idle
            &&& session.app.screen == Screen::Prompt
            &&& session.app.committed_query is None
            &&& session.pending is None
            &&& session.count == count
            &&& session.recent == recent
        }),
{
    reveal_strlit(" ");
    assert(" "@ =~= seq![' ']);
    if words.len() > 0 {
        text_laws::law_white_space_is_trimmed_away(text::joined(words, " "@));
    }
}

/// A video that was played to its end changes nothing, and one that was not shows its error and
/// changes nothing else.
pub proof fn law_playing_leaves_the_session_alone(session: SessionView, error: PlayerError)
    ensures
        session.after_playback(Ok(())) == session,
        ({
            let after = session.after_playback(Err(error));
            &&& after == SessionView {
                app: AppView { last_error: after.app.last_error, ..session.app },
                ..session
            }
            &&& after.app.last_error matches Some(LastError::Player(shown)) && *shown == error
        }),
{
}

/// What is said of an error that is shown is what the error says, whatever failed.
pub proof fn law_errors_are_shown_in_their_own_words(error: LastError)
    ensures
        error matches LastError::Search(e) ==> error.words() == e.words(),
        error matches LastError::Player(e) ==> error.words() == e.words(),
{
}

} // verus!
