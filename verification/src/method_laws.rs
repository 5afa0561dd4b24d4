//! What holds of a call of each method that changes the state of the program: of the state before
//! the call, of the state after it, and of what the call returns.

use crate::app;
use crate::app::{Action, App, AppView, LastError, Screen};
use crate::app_laws;
use crate::cli::Cli;
use crate::dispatcher::{DispatchError, PendingSearch, Received, SearchDispatcher, SearchOutcome};
use crate::key_laws;
use crate::keys::{KeyCode, KeyEvent};
use crate::logging::LogSetup;
use crate::palette::Palette;
use crate::player::PlayerError;
use crate::scene;
use crate::scene::{Rect, Widget};
use crate::search::{SearchBackend, SearchError, SearchResult, SortOrder};
use crate::search_run::{RunEvent, SearchRun};
use crate::session;
use crate::session::{Effect, KeyKind, Session, TerminalEvent};
use crate::session_laws;
use crate::signal::{ChildRegistry, RegistrationGuard, SearchGuard, Watcher, WatcherAction};
use crate::text;
use crate::text_laws;
use crate::time::TimeSpan;
use crate::tui;
use std::sync::Arc;
use std::sync::atomic::AtomicBool;
use vstd::prelude::*;

verus! {

broadcast use vstd::seq::group_seq_axioms;

// ---------------------------------------------------------------------------
// The state of the screen.
// ---------------------------------------------------------------------------

/// Asking for the input starts a search for it, without the white space around it, whatever was
/// found and asked before, and whatever the screen is; nothing else changes.
pub proof fn law_commit_query_asks_for_the_input(
    app: &mut App,
    action: Action,
    front: Seq<char>,
    query: Seq<char>,
    back: Seq<char>,
)
    requires
        call_ensures(App::commit_query, (app,), action),
        old(app).input@ == front + query + back,
        text_laws::all_white(front),
        text_laws::is_bounded(query),
        text_laws::all_white(back),
    ensures
        action matches Action::StartSearch(asked) && asked@ == query,
        final(app).screen == Screen::Searching,
        final(app).committed_query is Some,
        final(app).committed_query->0@ == query,
        final(app).input@ == old(app).input@,
        final(app).results@ == old(app).results@,
        final(app).filtered@ == old(app).filtered@,
        final(app).selected == old(app).selected,
{
    key_laws::law_any_input_can_be_asked_for(old(app)@, front, query, back);
}

/// Enter on the prompt does the same, and takes the error away.
pub proof fn law_handle_key_asks_for_the_input(
    app: &mut App,
    key: KeyEvent,
    action: Action,
    front: Seq<char>,
    query: Seq<char>,
    back: Seq<char>,
)
    requires
        call_ensures(App::handle_key, (app, key), action),
        old(app).screen == Screen::Prompt,
        key.code == KeyCode::Enter,
        old(app).input@ == front + query + back,
        text_laws::all_white(front),
        text_laws::is_bounded(query),
        text_laws::all_white(back),
    ensures
        action matches Action::StartSearch(asked) && asked@ == query,
        final(app).screen == Screen::Searching,
        final(app).committed_query is Some,
        final(app).committed_query->0@ == query,
        final(app).results@ == old(app).results@,
        final(app).last_error is None,
{
    key_laws::law_enter_searches_for_what_was_typed(old(app)@, key, front, query, back);
}

/// Every key does what the laws of the keys say.
pub proof fn law_handle_key_does_what_the_key_does(app: &mut App, key: KeyEvent, action: Action)
    requires
        call_ensures(App::handle_key, (app, key), action),
    ensures
        final(app)@ == old(app)@.after_key(key).0,
        action@ == old(app)@.after_key(key).1,
{
}

/// Results that are taken in take the place of those before: all of them are shown, in order, and
/// the first is selected.
pub proof fn law_set_results_shows_them_all(app: &mut App, results: Vec<SearchResult>)
    requires
        call_ensures(App::set_results, (app, results), ()),
        results@.len() <= usize::MAX,
    ensures
        final(app).results@ == results@,
        final(app).filtered@ == Seq::new(results@.len(), |i: int| i as usize),
        final(app).selected == 0,
        final(app).screen == Screen::Results,
        final(app).input@.len() == 0,
        final(app)@.committed_query == old(app)@.committed_query,
        final(app).last_error == old(app).last_error,
        final(app).list_height == old(app).list_height,
{
    key_laws::law_results_take_the_place_of_those_before(old(app)@, results@);
}

/// Filtering shows the results that have the input in their title or their channel, all of them and
/// in order, and keeps the selection within what is shown; nothing else changes.
pub proof fn law_recompute_filter_shows_what_matches(app: &mut App)
    requires
        call_ensures(App::recompute_filter, (app,), ()),
        old(app).results@.len() <= usize::MAX,
    ensures
        key_laws::lists_what_matches(
            final(app).filtered@,
            old(app).input@,
            old(app).results@,
        ),
        final(app).filtered@.len() > 0 ==> final(app).selected < final(app).filtered@.len(),
        final(app).filtered@.len() == 0 ==> final(app).selected == 0,
        old(app).selected < final(app).filtered@.len() ==> final(app).selected == old(app).selected,
        final(app)@ == (AppView {
            filtered: final(app)@.filtered,
            selected: final(app)@.selected,
            ..old(app)@
        }),
{
    key_laws::law_the_filter_lists_what_matches(old(app)@.input, old(app)@.results);
    app_laws::law_the_filter_shows_what_matches(app::needle_of(old(app)@.input), old(app)@.results);
}

/// An error is shown until the next key; one of a search leaves the results there, and one of the
/// player everything.
pub proof fn law_errors_are_shown(
    app: &mut App,
    err: Arc<SearchError>,
    other: &mut App,
    player: Arc<PlayerError>,
)
    requires
        call_ensures(App::set_search_error, (app, err), ()),
        call_ensures(App::set_player_error, (other, player), ()),
    ensures
        final(app).last_error matches Some(LastError::Search(shown)) && shown == err,
        final(app).results@ == old(app).results@,
        final(app).filtered@ == old(app).filtered@,
        final(app).selected == old(app).selected,
        old(app).results@.len() > 0 ==> final(app).screen == Screen::Results && final(app).input@
            == old(app).input@,
        old(app).results@.len() == 0 ==> final(app).screen == Screen::Prompt && (
        old(app).committed_query is Some ==> final(app).input@ == old(app).committed_query->0@),
        final(other).last_error matches Some(LastError::Player(shown)) && shown == player,
        final(other)@ == (AppView { last_error: final(other).last_error, ..old(other)@ }),
{
    key_laws::law_a_failure_keeps_what_is_there(old(app)@, LastError::Search(err));
}

/// The result that is selected is the one at the selected place among those that are shown.
pub proof fn law_selected_result_is_the_one_selected(app: &App, r: Option<&SearchResult>)
    requires
        call_ensures(App::selected_result, (app,), r),
        app_laws::consistent(app@),
    ensures
        app.filtered@.len() == 0 ==> r is None,
        app.filtered@.len() > 0 ==> (r matches Some(result) && *result
            == app.results@[app.filtered@[app.selected as int] as int]),
{
    key_laws::law_which_result_is_selected(app@);
}

// ---------------------------------------------------------------------------
// The session.
// ---------------------------------------------------------------------------

/// The answer of the search in flight takes the place of the results before, whatever they were; an
/// answer with an old number changes nothing that is seen. Either way the wait is over.
pub proof fn law_take_look_shows_the_answer<B>(
    session: &mut Session<B>,
    seq: u64,
    results: Vec<SearchResult>,
)
    requires
        call_ensures(
            Session::<B>::take_look,
            (session, Received::Outcome((seq, Ok(results)))),
            (),
        ),
        old(session)@.pending is Some,
        results@.len() <= usize::MAX,
    ensures
        final(session)@.pending is None,
        seq == old(session)@.seq ==> {
            &&& final(session).app.results@ == results@
            &&& final(session).app.filtered@ == Seq::new(results@.len(), |i: int| i as usize)
            &&& final(session).app.selected == 0
            &&& final(session).app.screen == Screen::Results
            &&& final(session).app.input@.len() == 0
        },
        seq != old(session)@.seq ==> final(session).app@ == old(session).app@,
        final(session)@.seq == old(session)@.seq,
        final(session).count == old(session).count,
        final(session).recent == old(session).recent,
{
    if seq == old(session)@.seq {
        session_laws::law_the_answer_of_the_current_search_is_shown(
            old(session)@,
            seq,
            results,
        );
        assert(final(session)@.app.results == results@);
        assert(final(session)@.app.filtered == Seq::new(results@.len(), |i: int| i as usize));
    }
}

/// Every look does what the laws of the session say, and so does every event, however the session
/// began.
pub proof fn law_a_session_does_what_its_laws_say<B>(
    session: &mut Session<B>,
    received: Received,
    other: &mut Session<B>,
    event: TerminalEvent,
    effect: Effect,
    third: &mut Session<B>,
    outcome: Result<(), PlayerError>,
)
    requires
        call_ensures(Session::<B>::take_look, (session, received), ()),
        call_ensures(Session::<B>::take_event, (other, event), effect),
        call_ensures(Session::<B>::take_playback, (third, outcome), ()),
    ensures
        final(session)@ == old(session)@.after_look(received),
        final(other)@ == old(other)@.after_event(event).0,
        effect == old(other)@.after_event(event).1,
        final(third)@ == old(third)@.after_playback(outcome),
{
}

/// Enter on the prompt starts a search for what was typed, with as many results and in the order
/// that the command line says, whatever was there before.
pub proof fn law_take_event_starts_the_search<B>(
    session: &mut Session<B>,
    key: KeyEvent,
    effect: Effect,
    front: Seq<char>,
    query: Seq<char>,
    back: Seq<char>,
)
    requires
        call_ensures(
            Session::<B>::take_event,
            (session, TerminalEvent::Key(key, KeyKind::Press)),
            effect,
        ),
        old(session).app.screen == Screen::Prompt,
        key.code == KeyCode::Enter,
        old(session).app.input@ == front + query + back,
        text_laws::all_white(front),
        text_laws::is_bounded(query),
        text_laws::all_white(back),
    ensures
        effect == Effect::Search,
        final(session).app.screen == Screen::Searching,
        final(session).pending matches Some(pending) && pending.query@ == query && pending.count
            == old(session).count && pending.sort == (if old(session).recent {
            SortOrder::Date
        } else {
            SortOrder::Relevance
        }) && !pending.cancelled && pending.seq == final(session)@.seq,
        final(session)@.seq != old(session)@.seq,
{
    session_laws::law_enter_starts_the_search(old(session)@, key, front, query, back);
}

/// The words of the command line are searched for at once, with as many results and in the order
/// that it says.
pub proof fn law_begin_searches_for_the_words<B>(
    cli: &Cli,
    backend: B,
    r: (Session<B>, Effect),
    front: Seq<char>,
    query: Seq<char>,
    back: Seq<char>,
)
    requires
        call_ensures(Session::<B>::begin, (cli, backend), r),
        cli.query@.len() > 0,
        text::joined(text::texts(cli.query@), seq![' ']) == front + query + back,
        text_laws::all_white(front),
        text_laws::is_bounded(query),
        text_laws::all_white(back),
    ensures
        r.1 == Effect::Search,
        r.0.app.screen == Screen::Searching,
        r.0.pending matches Some(pending) && pending.query@ == query && pending.count == cli.count
            && pending.sort == (if cli.recent {
            SortOrder::Date
        } else {
            SortOrder::Relevance
        }),
        r.0.count == cli.count,
        r.0.recent == cli.recent,
{
    session_laws::law_the_words_of_the_command_line_are_searched_for(
        text::texts(cli.query@),
        cli.count,
        cli.recent,
        front,
        query,
        back,
    );
    assert(r.0@ == session::begun(text::texts(cli.query@), cli.count, cli.recent).0);
}

/// Every search gets the next number, and giving one up makes its number an old one. A search asks
/// for what it was told to ask for.
pub proof fn law_searches_are_numbered<B>(
    dispatcher: &mut SearchDispatcher<B>,
    query: String,
    count: u32,
    recent: bool,
    started: PendingSearch,
    other: &mut SearchDispatcher<B>,
    pending: &mut PendingSearch,
)
    requires
        call_ensures(SearchDispatcher::<B>::dispatch, (dispatcher, query, count, recent), started),
        call_ensures(SearchDispatcher::<B>::cancel, (other, pending), ()),
    ensures
        final(dispatcher).seq_now() == session_laws::number_after(old(dispatcher).seq_now()),
        started.seq == final(dispatcher).seq_now(),
        started.query == query,
        started.count == count,
        started.sort == (if recent {
            SortOrder::Date
        } else {
            SortOrder::Relevance
        }),
        !started.cancelled,
        final(other).seq_now() == session_laws::number_after(old(other).seq_now()),
        final(pending).cancelled,
        final(pending).seq == old(pending).seq,
{
}

/// A search asks the backend for what it is to ask for, and its answer carries its number.
pub proof fn law_run_search_answers_its_search<B: SearchBackend>(
    backend: &B,
    pending: &PendingSearch,
    cancel: &AtomicBool,
    answer: SearchOutcome,
)
    requires
        call_ensures(crate::dispatcher::run_search::<B>, (backend, pending, cancel), answer),
    ensures
        answer.0 == pending.seq,
        exists|query: &str| #[trigger]
            query@ == pending.query@ && call_ensures(
                B::search,
                (backend, query, pending.count, pending.sort, cancel),
                answer.1,
            ),
{
}

// ---------------------------------------------------------------------------
// The screen.
// ---------------------------------------------------------------------------

/// Drawing gives the widgets of the screen and changes nothing in the state but the number of rows
/// that the list has.
pub proof fn law_draw_shows_the_screen(
    area: Rect,
    app: &mut App,
    palette: &Palette,
    widgets: Vec<Widget>,
)
    requires
        call_ensures(tui::draw, (area, app, palette), widgets),
    ensures
        scene::widget_views(widgets@) == tui::screen_of(old(app)@, area, *palette),
        area.width >= 60 && area.height >= 20 ==> final(app)@ == (AppView {
            list_height: (area.height - 6) as u16,
            ..old(app)@
        }),
        area.width < 60 || area.height < 20 ==> final(app)@ == old(app)@ && widgets@.len() == 1,
{
    assert(scene::widget_views(widgets@).len() == widgets@.len());
}

// ---------------------------------------------------------------------------
// Children and signals.
// ---------------------------------------------------------------------------

/// The registry holds the player that was registered last and hands back the one before; forgetting
/// it leaves none. The searches stay.
pub proof fn law_the_registry_holds_the_player(
    registry: &mut ChildRegistry,
    pid: u32,
    before: Option<u32>,
    other: &mut ChildRegistry,
    forgotten: Option<u32>,
    third: &mut ChildRegistry,
    guard: RegistrationGuard,
    fourth: &mut ChildRegistry,
    released: Option<u32>,
)
    requires
        call_ensures(ChildRegistry::register, (registry, pid), before),
        call_ensures(ChildRegistry::clear, (other,), forgotten),
        call_ensures(ChildRegistry::register_pid_with_guard, (third, pid), guard),
        call_ensures(ChildRegistry::release, (fourth, guard), released),
    ensures
        final(registry).registered() == Some(pid),
        before == old(registry).registered(),
        final(registry).searching() == old(registry).searching(),
        final(other).registered() is None,
        forgotten == old(other).registered(),
        final(other).searching() == old(other).searching(),
        final(third).registered() == Some(pid),
        guard.leader() == pid,
        final(third).searching() == old(third).searching(),
        final(fourth).registered() is None,
        final(fourth).searching() == old(fourth).searching(),
{
}

/// The registry holds every search that was registered until it is taken back, and no longer.
pub proof fn law_the_registry_holds_the_searches(
    registry: &mut ChildRegistry,
    pid: u32,
    guard: SearchGuard,
    other: &mut ChildRegistry,
)
    requires
        call_ensures(ChildRegistry::register_search, (registry, pid), guard),
        call_ensures(ChildRegistry::release_search, (other, guard), ()),
    ensures
        final(registry).searching() == old(registry).searching() + seq![pid],
        final(registry).registered() == old(registry).registered(),
        old(other).searching() == final(registry).searching() ==> final(other).searching()
            == old(registry).searching(),
        final(other).registered() == old(other).registered(),
{
    let before = old(registry).searching();
    assert(before.push(pid) =~= before + seq![pid]);
    crate::signal::law_taking_back_undoes(before, pid);
}

/// The first signal makes the program clean up, and a second one makes it exit at once.
pub proof fn law_the_watcher_escalates(
    watcher: &mut Watcher,
    signal: bool,
    action: WatcherAction,
)
    requires
        call_ensures(Watcher::on_signal, (watcher, signal), action),
    ensures
        *old(watcher) is Waiting && signal ==> action == WatcherAction::CleanUp
            && *final(watcher) is CleaningUp,
        *old(watcher) is CleaningUp && signal ==> action == WatcherAction::ExitAtOnce
            && *final(watcher) is Over,
        !signal || *old(watcher) is Over ==> action == WatcherAction::Leave && *final(watcher)
            is Over,
{
}

/// A run goes on as the laws of the runs say.
pub proof fn law_a_run_goes_on_as_its_laws_say(
    run: SearchRun,
    timeout: TimeSpan,
    event: RunEvent,
    next: SearchRun,
)
    requires
        call_ensures(SearchRun::next, (run, timeout, event), next),
    ensures
        run.leads_to(timeout, event, next),
{
}

/// A length of time reaches another exactly if it is as long in nanoseconds, and a number of
/// milliseconds is a million times as many of them.
pub proof fn law_lengths_of_time_are_compared(
    a: &TimeSpan,
    b: &TimeSpan,
    reached: bool,
    millis: u64,
    span: TimeSpan,
)
    requires
        call_ensures(TimeSpan::reaches, (a, b), reached),
        call_ensures(TimeSpan::from_millis, (millis,), span),
    ensures
        reached <==> a.whole_seconds() * 1_000_000_000 + a.left_over() >= b.whole_seconds()
            * 1_000_000_000 + b.left_over(),
        span.whole_seconds() * 1_000_000_000 + span.left_over() == millis * 1_000_000,
{
}

/// The log is set up in a directory of its own and then in a file in it; what fails is said, and
/// then nothing is logged.
pub proof fn law_a_log_is_set_up_step_by_step(
    path: Vec<u8>,
    error: Option<String>,
    next: LogSetup,
    after: LogSetup,
)
    requires
        call_ensures(LogSetup::next, (LogSetup::CreateDirectory(path), error), next),
        call_ensures(LogSetup::next, (LogSetup::OpenFile(path), error), after),
    ensures
        error is None ==> (next matches LogSetup::OpenFile(file) && file@
            == crate::config::path_in(path@, "yttui.log"@)) && after is Ready,
        error matches Some(why) ==> (next matches LogSetup::Disabled(said) && said@
            == "yttui: warning: "@ + "cannot create log dir"@ + " "@ + text::lossy(path@) + ": "@
            + why@ + "; logs disabled"@) && (after matches LogSetup::Disabled(said) && said@
            == "yttui: warning: "@ + "cannot open log file"@ + " "@ + text::lossy(path@) + ": "@
            + why@ + "; logs disabled"@),
{
}

/// A search that came to nothing is shown with what the error says, whether it failed or its worker
/// crashed, and the results stay.
pub proof fn law_a_search_that_came_to_nothing_is_shown(app: &mut App, err: DispatchError)
    requires
        call_ensures(App::set_dispatch_error, (app, err), ()),
    ensures
        final(app).last_error is Some,
        final(app).last_error->0.words() == err.words(),
        !(final(app).last_error->0 is Player),
        final(app).results@ == old(app).results@,
        final(app).screen == (if old(app).results@.len() > 0 {
            Screen::Results
        } else {
            Screen::Prompt
        }),
{
    key_laws::law_a_failure_keeps_what_is_there(old(app)@, app::dispatch_failure(err));
}

/// The height of the list is taken in as it is, and nothing else changes.
pub proof fn law_the_height_of_the_list_is_taken_in(app: &mut App, rows: u16)
    requires
        call_ensures(App::set_list_height, (app, rows), ()),
    ensures
        final(app)@ == (AppView { list_height: rows, ..old(app)@ }),
{
}

/// The group that a signal ends is that of the player that is registered.
pub proof fn law_kill_group_names_the_player(registry: &ChildRegistry, group: Option<i32>)
    requires
        call_ensures(ChildRegistry::kill_group, (registry,), group),
    ensures
        registry.registered() is None ==> group is None,
        registry.registered() matches Some(pid) ==> pid <= 0x7fff_ffff ==> group is Some && group->0
            == pid,
{
}

/// Logging begins with a directory for the log in that for caches, and where there is none it is
/// said that nothing is logged.
pub proof fn law_a_log_begins_with_its_directory(cache: Option<Vec<u8>>, setup: LogSetup)
    requires
        call_ensures(LogSetup::begin, (cache,), setup),
    ensures
        cache matches Some(at) ==> (setup matches LogSetup::CreateDirectory(path) && path@
            == crate::config::path_in(at@, "yttui"@)),
        cache is None ==> (setup matches LogSetup::Disabled(said) && said@
            == "yttui: warning: no cache directory available; logs disabled"@),
{
}

/// Lengths of time are made of seconds and of nanoseconds short of a second.
pub proof fn law_lengths_of_time_are_made(
    seconds: u64,
    whole: TimeSpan,
    nanos: u32,
    span: Option<TimeSpan>,
)
    requires
        call_ensures(TimeSpan::from_secs, (seconds,), whole),
        call_ensures(TimeSpan::from_parts, (seconds, nanos), span),
    ensures
        whole.whole_seconds() == seconds,
        whole.left_over() == 0,
        span is Some <==> nanos < 1_000_000_000,
        span matches Some(t) ==> t.whole_seconds() == seconds && t.left_over() == nanos,
{
}

} // verus!
