//! What holds of a call of each function that computes something for the program: of what the call
//! is given and of what it returns.

use crate::app;
use crate::app::LastError;
use crate::cli;
use crate::cli::Cli;
use crate::config;
use crate::config::{Config, ConfigError, FileRead};
use crate::document;
use crate::keys::{KeyCode, KeyEvent};
use crate::palette::Palette;
use crate::playback;
use crate::playback::{Launched, Playback};
use crate::player;
use crate::player::{PlaybackOptions, Player, PlayerError};
use crate::preflight;
use crate::preflight::PreflightError;
use crate::scene::Line;
use crate::search;
use crate::search::{RawEntry, SearchError, SearchResult, VideoDuration, YtDlpBackend};
use crate::search_laws;
use crate::search_run;
use crate::search_run::{SearchRun, StartedSearch};
use crate::session;
use crate::signal;
use crate::signal::{ChildRegistry, RegistrationGuard, SearchGuard};
use crate::text;
use crate::tui;
use crate::width;
use vstd::prelude::*;

verus! {

broadcast use vstd::seq::group_seq_axioms;

// ---------------------------------------------------------------------------
// Searching.
// ---------------------------------------------------------------------------

/// The results of entries are those of the entries with names, each with its id and its title, in
/// order; the others are spoken of in the log, and every entry is one or the other.
pub proof fn law_entries_are_read_one_by_one(
    entries: &Vec<RawEntry>,
    results: Vec<SearchResult>,
    warnings: Vec<String>,
)
    requires
        call_ensures(search::entries_to_results, (entries,), results),
        call_ensures(search::skipped_entries, (entries,), warnings),
    ensures
        results@.len() + warnings@.len() == entries@.len(),
        forall|i: int|
            0 <= i < entries@.len() && (#[trigger] entries@[i]).id is Some && entries@[i].title
                is Some && entries@[i].id->0@.len() > 0 && entries@[i].title->0@.len() > 0
                ==> exists|j: int|
                0 <= j < results@.len() && (#[trigger] results@[j]).id@ == entries@[i].id->0@
                    && results@[j].title@ == entries@[i].title->0@,
        forall|j: int|
            0 <= j < results@.len() ==> (#[trigger] results@[j]).id@.len() > 0
                && results@[j].title@.len() > 0,
{
    let views = search::entry_views(entries@);
    let shown = search::result_views(results@);
    search_laws::law_every_entry_is_shown_or_logged(views);
    assert(views.len() == entries@.len() && shown.len() == results@.len());
    assert(text::texts(warnings@).len() == warnings@.len());
    assert forall|i: int|
        0 <= i < entries@.len() && (#[trigger] entries@[i]).id is Some && entries@[i].title is Some
            && entries@[i].id->0@.len() > 0 && entries@[i].title->0@.len() > 0 implies exists|j: int|
        0 <= j < results@.len() && (#[trigger] results@[j]).id@ == entries@[i].id->0@
            && results@[j].title@ == entries@[i].title->0@ by {
        assert(views[i] == entries@[i]@);
        search_laws::law_no_named_entry_is_lost(views, i);
        let j = choose|j: int|
            0 <= j < shown.len() && (#[trigger] shown[j]).id == views[i].id->0 && shown[j].title
                == views[i].title->0;
        assert(shown[j] == results@[j]@);
    }
    assert forall|j: int| 0 <= j < results@.len() implies (#[trigger] results@[j]).id@.len() > 0
        && results@[j].title@.len() > 0 by {
        search_laws::law_every_result_has_an_id_and_a_title(views, j);
        assert(shown[j] == results@[j]@);
    }
}

/// How long a video is: live and upcoming ones by their status, others by their number of seconds.
pub proof fn law_parse_duration_goes_by_the_status(entry: &RawEntry, r: VideoDuration)
    requires
        call_ensures(search::parse_duration, (entry,), r),
    ensures
        entry.live_status is Some && entry.live_status->0@ == "is_live"@ ==> r
            == VideoDuration::Live,
        entry.live_status is Some && entry.live_status->0@ == "is_upcoming"@ ==> r
            == VideoDuration::Upcoming,
        r is Live ==> entry.live_status is Some && entry.live_status->0@ == "is_live"@,
        r is Upcoming ==> entry.live_status is Some && entry.live_status->0@ == "is_upcoming"@,
        r matches VideoDuration::Seconds(seconds) ==> entry.duration is Some
            && crate::double::whole_part(entry.duration->0) == Some(seconds),
        !(r is Live || r is Upcoming) && entry.duration is Some && crate::double::whole_part(
            entry.duration->0,
        ) is Some ==> r is Seconds,
{
    search_laws::law_the_live_status_comes_first(entry@);
}

/// A video can be watched unless it has not begun, and its length is said on a clock face.
pub proof fn law_durations_are_spoken_of(duration: &VideoDuration, playable: bool, said: String)
    requires
        call_ensures(VideoDuration::is_playable, (duration,), playable),
        call_ensures(VideoDuration::to_string, (duration,), said),
    ensures
        playable <==> !(*duration is Upcoming),
        *duration matches VideoDuration::Seconds(seconds) ==> search_laws::seconds_shown(said@)
            == seconds,
        *duration is Live ==> said@ == "live broadcast"@,
        *duration is Upcoming ==> said@ == "upcoming livestream"@,
        *duration is Unknown ==> said@ == "unknown duration"@,
{
    if let VideoDuration::Seconds(seconds) = *duration {
        search_laws::law_a_known_length_is_said_as_a_clock_face(seconds);
    }
}

/// The answer to a search is what is read from the very bytes that it wrote.
pub proof fn law_the_output_is_what_is_read<
    F: FnOnce(&[u8]) -> Result<Vec<serde_json::Value>, String>,
>(
    bytes: &[u8],
    read: F,
    r: Result<Vec<SearchResult>, SearchError>,
    raw: Result<Vec<u8>, SearchError>,
    finished: (Result<Vec<SearchResult>, SearchError>, Vec<String>),
)
    requires
        call_ensures(search::parse_results::<F>, (bytes, read), r),
        call_ensures(search_run::finish_search::<F>, (raw, read), finished),
    ensures
        exists|items: Result<Vec<serde_json::Value>, String>| #[trigger]
            call_ensures(read, (bytes,), items) && match items {
                Ok(values) => r is Ok && search::result_views(r->Ok_0@) == search::results_of(
                    search::entries_of(values@),
                ),
                Err(complaint) => r == Err::<Vec<SearchResult>, SearchError>(
                    SearchError::InvalidJson(complaint),
                ),
            },
        search_run::finishes(raw, read, finished),
        raw matches Err(e) ==> finished.0 == Err::<Vec<SearchResult>, SearchError>(e),
{
}

/// `yt-dlp` is the program that searches, and it has half a minute.
pub proof fn law_the_backend_by_default(backend: YtDlpBackend)
    requires
        call_ensures(<YtDlpBackend as Default>::default, (), backend),
    ensures
        backend.timeout.whole_seconds() == 30,
        backend.timeout.left_over() == 0,
        backend.binary@ == vstd::utf8::encode_utf8("yt-dlp"@),
{
}

/// A program is registered in the turn in which it is started, and its registration is taken back
/// in the turn in which its run ends; at no other time is the registry touched.
pub proof fn law_a_search_is_registered_while_it_runs<C, F: FnOnce() -> Result<(C, u32), String>>(
    run: SearchRun,
    registry: &mut ChildRegistry,
    spawn: F,
    r: (SearchRun, Option<StartedSearch<C>>),
    other: SearchRun,
    second: &mut ChildRegistry,
    guard: SearchGuard,
    over: (SearchRun, Option<SearchGuard>),
)
    requires
        call_ensures(SearchRun::launch::<C, F>, (run, registry, spawn), r),
        call_ensures(SearchRun::released, (other, second, guard), over),
    ensures
        run is Launch && r.1 is Some ==> final(registry).searching() == old(registry).searching()
            + seq![r.1->0.guard.leader()] && r.0 is ReadCancelFlag,
        r.1 is None ==> *final(registry) == *old(registry),
        !(run is Launch) ==> r.0 == run && r.1 is None,
        run is Launch && r.1 is None ==> (r.0 matches SearchRun::Done(Err(SearchError::Spawn(_)))),
        other matches SearchRun::Release(raw) ==> over.0 == SearchRun::Done(raw) && over.1 is None
            && final(second).searching() == signal::without(
            old(second).searching(),
            guard.leader(),
        ),
        !(other is Release) ==> over.0 == other && over.1 == Some(guard) && *final(second) == *old(
            second,
        ),
{
    if run is Launch {
        let spawned = choose|spawned: Result<(C, u32), String>| #[trigger]
            call_ensures(spawn, (), spawned) && search_run::goes_on(
                spawned,
                *old(registry),
                *final(registry),
                r.0,
                r.1,
            );
        search_run::law_how_a_run_begins(
            spawned,
            *old(registry),
            *final(registry),
            r.0,
            r.1,
        );
    }
}

// ---------------------------------------------------------------------------
// Playing.
// ---------------------------------------------------------------------------

/// The player is asked about the id of every result but one that has not begun, which is refused
/// with what it is.
pub proof fn law_spawn_result_asks_the_player<P: Player>(
    player: &P,
    result: &SearchResult,
    opts: &PlaybackOptions,
    r: Result<P::Running, PlayerError>,
)
    requires
        call_ensures(player::spawn_result::<P>, (player, result, opts), r),
    ensures
        !(result.duration is Upcoming) ==> exists|id: &str| #[trigger]
            id@ == result.id@ && call_ensures(P::spawn_player, (player, id, opts), r),
        result.duration is Upcoming ==> (r matches Err(PlayerError::NotPlayable { reason })
            && reason@ == "upcoming livestream"@),
{
    player::law_which_videos_the_player_is_asked_about(player, *result, opts, r);
}

/// Options are changed one by one, and the others stay.
pub proof fn law_options_are_changed_one_by_one(
    opts: PlaybackOptions,
    audio_only: bool,
    args: Vec<String>,
    silent: PlaybackOptions,
    longer: PlaybackOptions,
)
    requires
        call_ensures(PlaybackOptions::with_audio_only, (opts, audio_only), silent),
        call_ensures(PlaybackOptions::with_extra_args, (opts, args), longer),
    ensures
        silent.audio_only == audio_only,
        silent.extra_args == opts.extra_args,
        longer.audio_only == opts.audio_only,
        longer.extra_args == args,
{
}

/// A playback goes through its steps in order: out of the screen, to the player, and back into the
/// screen, with what the player came to. A player that is gone is no longer registered.
pub proof fn law_a_playback_goes_through_its_steps(
    begun: Playback,
    state: Playback,
    left: Playback,
    registry: &mut ChildRegistry,
    guard: RegistrationGuard,
    outcome: Result<(), PlayerError>,
    exited: Playback,
    entered: Playback,
)
    requires
        call_ensures(Playback::begin, (), begun),
        call_ensures(Playback::screen_left, (state,), left),
        call_ensures(Playback::exited, (state, registry, guard, outcome), exited),
        call_ensures(Playback::screen_entered, (state,), entered),
    ensures
        begun == Playback::LeaveScreen,
        left == (if state == Playback::LeaveScreen {
            Playback::Launch
        } else {
            state
        }),
        exited == (if state == Playback::AwaitExit {
            Playback::EnterScreen(outcome)
        } else {
            state
        }),
        final(registry).registered() is None,
        state matches Playback::EnterScreen(came_of_it) ==> entered == Playback::Done(came_of_it),
        !(state is EnterScreen) ==> entered == state,
{
}

/// A player is registered in the turn in which it is started, and where none is started the registry
/// stays as it was.
pub proof fn law_a_player_is_registered_while_it_runs<C, E, F: FnOnce() -> Result<(C, u32), E>>(
    registry: &mut ChildRegistry,
    spawn: F,
    r: Result<(C, RegistrationGuard), E>,
)
    requires
        call_ensures(ChildRegistry::register_spawn::<C, E, F>, (registry, spawn), r),
    ensures
        r matches Ok(started) ==> final(registry).registered() == Some(started.1.leader())
            && call_ensures(spawn, (), Ok((started.0, started.1.leader())))
            && final(registry).searching() == old(registry).searching(),
        r matches Err(e) ==> *final(registry) == *old(registry) && call_ensures(spawn, (), Err(e)),
{
}

/// Errors are put into words as their laws say.
pub proof fn law_errors_are_put_into_words(
    player: &PlayerError,
    search: &SearchError,
    shown: &LastError,
    of_player: String,
    of_search: String,
    of_shown: String,
)
    requires
        call_ensures(PlayerError::to_string, (player,), of_player),
        call_ensures(SearchError::to_string, (search,), of_search),
        call_ensures(LastError::message, (shown,), of_shown),
    ensures
        of_player@ == player.words(),
        of_search@ == search.words(),
        of_shown@ == shown.words(),
{
}

// ---------------------------------------------------------------------------
// The configuration.
// ---------------------------------------------------------------------------

/// What a text says is a matter of the document that it is: a configuration says its values, and
/// anything else is an error, in the words of the reader for what is no TOML, and else in those that
/// `explain` finds.
pub proof fn law_from_text_reads_the_document<F: FnOnce(&str) -> String>(
    source: &str,
    explain: F,
    r: Result<Config, String>,
)
    requires
        call_ensures(Config::from_text::<F>, (source, explain), r),
    ensures
        document::toml_parse(source@) matches Err(said) ==> r is Err && r->Err_0@ == said,
        document::toml_parse(source@) matches Ok(document) ==> (r is Ok <==> config::fits(document)),
        r matches Ok(read) ==> (document::toml_parse(source@) matches Ok(document) && read@
            == config::config_in(document)),
        r is Err && document::toml_parse(source@) is Ok ==> call_ensures(
            explain,
            (source,),
            r->Err_0,
        ),
        source@.len() == 0 ==> r is Ok && (r->Ok_0)@ == config::standard(),
{
}

/// The file where it is by default is loaded as any other, and where there can be none, everything
/// is as it is by default.
pub proof fn law_load_reads_the_file<F: FnOnce(&str) -> String>(
    path: &[u8],
    read: FileRead,
    explain: F,
    r: Result<Config, ConfigError>,
    place: Option<(Vec<u8>, FileRead)>,
    found: Result<Config, ConfigError>,
)
    requires
        call_ensures(Config::load::<F>, (path, read, explain), r),
        call_ensures(Config::load_from_default_path::<F>, (place, explain), found),
    ensures
        config::loads_as(path@, read, explain, r),
        place matches Some((at, text)) ==> config::loads_as(at@, text, explain, found),
        place is None ==> found is Ok && (found->Ok_0)@ == config::standard(),
{
}

/// Where the file is by default.
pub proof fn law_default_path_is_found(
    xdg: Option<Vec<u8>>,
    home: Option<Vec<u8>>,
    r: Option<Vec<u8>>,
)
    requires
        call_ensures(Config::default_path_from, (xdg, home), r),
    ensures
        xdg matches Some(base) ==> (r matches Some(path) && path@ == config::path_in(
            config::path_in(base@, "yttui"@),
            "config.toml"@,
        )),
        xdg is None && home is Some ==> (r matches Some(path) && path@ == config::path_in(
            config::path_in(config::path_in(home->0@, ".config"@), "yttui"@),
            "config.toml"@,
        )),
        xdg is None && home is None ==> r is None,
{
}

/// A configuration that was loaded is used, and one that was not is replaced by what holds by
/// default, with all of what went wrong in the log.
pub proof fn law_a_bad_file_does_not_stop_the_program(
    loaded: Result<Config, ConfigError>,
    r: (Config, Option<String>),
)
    requires
        call_ensures(config::config_or_default, (loaded,), r),
    ensures
        loaded matches Ok(config) ==> r.0 == config && r.1 is None,
        loaded matches Err(error) ==> r.0@ == config::standard() && (r.1 matches Some(message)
            && message@ == "config load failed, using defaults: "@ + error.words() + ": "@
            + error.cause()),
{
}

// ---------------------------------------------------------------------------
// The screen.
// ---------------------------------------------------------------------------

/// A row is that of its result and lines up with the others, and its columns have their sizes.
pub proof fn law_the_screen_is_put_together(
    result: &SearchResult,
    width: u16,
    palette: &Palette,
    row: Line,
    channel: u16,
    duration_columns: u16,
    title: u16,
)
    requires
        call_ensures(tui::render_row, (result, width, palette), row),
        call_ensures(tui::channel_columns, (width,), channel),
        call_ensures(tui::title_columns, (width, duration_columns), title),
    ensures
        row@ == tui::row_of(*result, width, *palette),
        tui::lines_up(row@, width, tui::duration_cell(result.duration)),
        channel == tui::channel_budget(width),
        title == tui::title_budget(width, duration_columns as int),
{
}

/// A text is shown in no more columns than there are, whole where it fits, and cut as the laws of
/// cutting say where it does not.
pub proof fn law_a_text_is_shown_in_its_columns(s: &str, max_cols: u16, r: (String, usize))
    requires
        call_ensures(width::cut_to_width, (s, max_cols), r),
    ensures
        r.1 == width::display_width(r.0@),
        r.1 <= max_cols,
        max_cols > 0 && width::display_width(s@) <= max_cols ==> r.0@ == s@,
        r.0@ == width::truncated(s@, max_cols as nat),
{
}

/// The filter looks for a text in a title and in a channel.
pub proof fn law_the_filter_looks_at_both_names(
    result: &SearchResult,
    needle: &str,
    r: bool,
)
    requires
        call_ensures(app::matches_filter, (result, needle), r),
    ensures
        r <==> text::occurs(needle@, text::lowercase(result.title@)) || result.channel is Some
            && text::occurs(needle@, text::lowercase(result.channel->0@)),
{
}

// ---------------------------------------------------------------------------
// The beginning and the end.
// ---------------------------------------------------------------------------

/// Every program that is missing is reported, `yt-dlp` before `mpv`, and nothing is reported where
/// both are there.
pub proof fn law_check_reports_what_is_missing(
    yt_dlp_found: bool,
    mpv_found: bool,
    r: Result<(), PreflightError>,
)
    requires
        call_ensures(preflight::check, (yt_dlp_found, mpv_found), r),
    ensures
        r is Ok <==> yt_dlp_found && mpv_found,
        r matches Err(PreflightError::Missing(missing)) ==> {
            &&& !yt_dlp_found && !mpv_found ==> missing@.len() == 2 && missing@[0].name@
                == "yt-dlp"@ && missing@[1].name@ == "mpv"@
            &&& !yt_dlp_found && mpv_found ==> missing@.len() == 1 && missing@[0].name@
                == "yt-dlp"@
            &&& yt_dlp_found && !mpv_found ==> missing@.len() == 1 && missing@[0].name@ == "mpv"@
            &&& forall|i: int|
                0 <= i < missing@.len() ==> (#[trigger] missing@[i]).instructions
                    == preflight::instructions_for(missing@[i].name@)
        },
{
}

/// What goes wrong at the ends of the program is said with all of the cause.
pub proof fn law_causes_are_said(
    error: &str,
    complaint: String,
    handler: String,
    leaving: String,
    entering: String,
)
    requires
        call_ensures(session::complaint, (error,), complaint),
        call_ensures(signal::install_warning, (error,), handler),
        call_ensures(playback::leave_warning, (error,), leaving),
        call_ensures(playback::enter_warning, (error,), entering),
    ensures
        complaint@ == "yttui: "@ + error@,
        handler@ == "yttui: warning: could not install signal handler: "@ + error@
            + " (Ctrl-C during playback may leak mpv)"@,
        leaving@ == "failed to leave alternate screen before mpv: "@ + error@,
        entering@ == "failed to re-enter alternate screen after mpv: "@ + error@,
{
}

/// The first error is the one that the program ends with.
pub proof fn law_the_first_error_counts(
    run: Option<String>,
    restored: Option<String>,
    r: Option<String>,
)
    requires
        call_ensures(session::final_error, (run, restored), r),
    ensures
        run is Some ==> r == run,
        run is None ==> r == restored,
{
}

/// The statuses of the program tell apart why it ended.
pub proof fn law_the_statuses_of_the_program()
    ensures
        session::FAILURE_STATUS == 1,
        session::MISSING_PROGRAM_STATUS == 2,
        signal::INTERRUPTED_STATUS == 130,
{
}

/// From one to a hundred results can be asked for, and a command line without arguments asks for
/// twenty, by relevance, with video and at the prompt.
pub proof fn law_the_command_line_by_default(count: u32, allowed: bool, r: Cli)
    requires
        call_ensures(cli::is_count_allowed, (count,), allowed),
        call_ensures(<Cli as Default>::default, (), r),
    ensures
        allowed <==> 1 <= count <= 100,
        r.count == 20,
        r.query@.len() == 0,
        !r.recent,
        !r.audio_only,
        !r.version,
{
}

/// What a key is asked for is answered by the key and by what is held down with it.
pub proof fn law_keys_answer_for_themselves(
    key: &KeyEvent,
    c: char,
    bare: bool,
    ctrl: bool,
    is: bool,
    typed: Option<char>,
)
    requires
        call_ensures(KeyEvent::bare, (key, c), bare),
        call_ensures(KeyEvent::ctrl, (key, c), ctrl),
        call_ensures(KeyEvent::is, (key, c), is),
        call_ensures(KeyEvent::typed, (key,), typed),
    ensures
        bare <==> key.code == KeyCode::Char(c) && crate::key_laws::alone(*key),
        ctrl <==> key.code == KeyCode::Char(c) && crate::key_laws::with_control(*key),
        is <==> key.code == KeyCode::Char(c),
        typed == Some(c) <==> crate::key_laws::is_typed(*key, c),
{
}

/// A copy says what the original says.
pub proof fn law_copies_say_the_same(
    config: &Config,
    config_copy: Config,
    cli: &Cli,
    cli_copy: Cli,
    opts: &PlaybackOptions,
    opts_copy: PlaybackOptions,
    result: &SearchResult,
    result_copy: SearchResult,
    backend: &YtDlpBackend,
    backend_copy: YtDlpBackend,
)
    requires
        call_ensures(<Config as Clone>::clone, (config,), config_copy),
        call_ensures(<Cli as Clone>::clone, (cli,), cli_copy),
        call_ensures(<PlaybackOptions as Clone>::clone, (opts,), opts_copy),
        call_ensures(<SearchResult as Clone>::clone, (result,), result_copy),
        call_ensures(<YtDlpBackend as Clone>::clone, (backend,), backend_copy),
    ensures
        config_copy@ == config@,
        cli_copy.query@ == cli.query@,
        cli_copy.recent == cli.recent,
        cli_copy.count == cli.count,
        cli_copy.audio_only == cli.audio_only,
        cli_copy.version == cli.version,
        opts_copy.audio_only == opts.audio_only,
        opts_copy.extra_args@ == opts.extra_args@,
        result_copy == *result,
        backend_copy.timeout == backend.timeout,
        backend_copy.binary@ == backend.binary@,
{
}

/// A playback is launched for its result: a player that was started is waited for and registered,
/// and why none was started is what the playback ends with. At no other step is anything launched.
pub proof fn law_launch_starts_the_player<P: Player>(
    state: Playback,
    registry: &mut ChildRegistry,
    player: &P,
    result: &SearchResult,
    opts: &PlaybackOptions,
    r: (Playback, Option<Launched<P::Running>>),
)
    requires
        call_ensures(Playback::launch::<P>, (state, registry, player, result, opts), r),
    ensures
        state != Playback::Launch ==> r.0 == state && r.1 is None && *final(registry) == *old(
            registry,
        ),
        state == Playback::Launch && r.1 is Some ==> r.0 == Playback::AwaitExit
            && final(registry).registered() == Some(r.1->0.guard.leader()) && !(result.duration
            is Upcoming),
        state == Playback::Launch && r.1 is None ==> *final(registry) == *old(registry) && (
        r.0 matches Playback::EnterScreen(Err(_))),
        state == Playback::Launch && result.duration is Upcoming ==> (
        r.0 matches Playback::EnterScreen(Err(PlayerError::NotPlayable { reason })) && reason@
            == "upcoming livestream"@),
{
    if state == Playback::Launch {
        let spawned = choose|spawned: Result<P::Running, PlayerError>| #[trigger]
            player::asked(player, *result, opts, spawned) && playback::goes_on(
                spawned,
                *old(registry),
                *final(registry),
                r.0,
                r.1,
            );
        player::law_which_videos_the_player_is_asked_about(player, *result, opts, spawned);
    }
}

/// Playing a result is starting the player for it and waiting for its end; what has not begun is
/// refused.
pub proof fn law_play_result_waits_for_the_player<P: Player>(
    player: &P,
    result: &SearchResult,
    opts: &PlaybackOptions,
    r: Result<(), PlayerError>,
)
    requires
        call_ensures(player::play_result::<P>, (player, result, opts), r),
    ensures
        result.duration is Upcoming ==> (r matches Err(PlayerError::NotPlayable { reason })
            && reason@ == "upcoming livestream"@),
        exists|spawned: Result<P::Running, PlayerError>| #[trigger]
            player::asked(player, *result, opts, spawned) && player::waited(spawned, r),
{
    let spawned = choose|spawned: Result<P::Running, PlayerError>| #[trigger]
        player::asked(player, *result, opts, spawned) && player::waited(spawned, r);
    player::law_which_videos_the_player_is_asked_about(player, *result, opts, spawned);
}

} // verus!
